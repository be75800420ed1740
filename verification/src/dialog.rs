//! The confirmation dialog: one pending request at most, shared by the whole
//! application.
//!
//! A request carries the texts to show and, for each of its two buttons, the
//! action that pressing the button stands for. Actions are plain values of a
//! type `A` that the caller chooses. The controller never runs anything: when
//! a button fires it empties its slot and hands the action of that button
//! back, and the caller performs it. An absent action (`None`) means that the
//! button does nothing.

use vstd::prelude::*;
use vstd::string::StringExecFns;

verus! {

/// Label of the confirm button unless the request says otherwise.
pub const DEFAULT_YES_TEXT: &'static str = "yes";

/// Label of the decline button unless the request says otherwise.
pub const DEFAULT_NO_TEXT: &'static str = "no";

/// Title shown while no request is pending.
pub const FALLBACK_TITLE_TEXT: &'static str = "Title Text";

/// Body shown while no request is pending.
pub const FALLBACK_CONTENT_TEXT: &'static str = "Content Text";

/// Confirm label shown while no request is pending.
pub const FALLBACK_YES_TEXT: &'static str = "Yes";

/// Decline label shown while no request is pending.
pub const FALLBACK_NO_TEXT: &'static str = "No";

/// One request for confirmation, as handed to the controller.
///
/// A request is immutable once built and is consumed by the first button
/// that fires.
#[derive(Debug)]
pub struct DialogState<A> {
    yes_text: String,
    yes_action: Option<A>,
    no_text: String,
    no_action: Option<A>,
    text: String,
    title: String,
}

/// What a request holds, as mathematical values.
pub struct DialogStateView<A> {
    pub yes_text: Seq<char>,
    pub yes_action: Option<A>,
    pub no_text: Seq<char>,
    pub no_action: Option<A>,
    pub text: Seq<char>,
    pub title: Seq<char>,
}

impl<A> View for DialogState<A> {
    type V = DialogStateView<A>;

    closed spec fn view(&self) -> DialogStateView<A> {
        DialogStateView {
            yes_text: self.yes_text@,
            yes_action: self.yes_action,
            no_text: self.no_text@,
            no_action: self.no_action,
            text: self.text@,
            title: self.title@,
        }
    }
}

/// The request that `DialogState::yes` builds.
pub open spec fn yes_request<A>(
    yes_action: A,
    title: Seq<char>,
    text: Seq<char>,
) -> DialogStateView<A> {
    DialogStateView {
        yes_text: DEFAULT_YES_TEXT@,
        yes_action: Some(yes_action),
        no_text: DEFAULT_NO_TEXT@,
        no_action: None,
        text,
        title,
    }
}

/// The request that `DialogState::yes_no` builds.
pub open spec fn yes_no_request<A>(
    yes_action: A,
    no_action: A,
    title: Seq<char>,
    text: Seq<char>,
) -> DialogStateView<A> {
    DialogStateView {
        yes_text: DEFAULT_YES_TEXT@,
        yes_action: Some(yes_action),
        no_text: DEFAULT_NO_TEXT@,
        no_action: Some(no_action),
        text,
        title,
    }
}

/// The request that `DialogState::debug` builds.
pub open spec fn debug_request<A>() -> DialogStateView<A> {
    DialogStateView {
        yes_text: DEFAULT_YES_TEXT@,
        yes_action: None,
        no_text: DEFAULT_NO_TEXT@,
        no_action: None,
        text: "text"@,
        title: "title"@,
    }
}

impl<A> DialogState<A> {
    /// A request whose confirm button stands for `yes_action` and whose
    /// decline button does nothing.
    pub fn yes(yes_action: A, title: &str, text: &str) -> (state: Self)
        ensures
            state@ == yes_request(yes_action, title@, text@),
    {
        DialogState {
            yes_text: String::from_str(DEFAULT_YES_TEXT),
            yes_action: Some(yes_action),
            no_text: String::from_str(DEFAULT_NO_TEXT),
            no_action: None,
            text: String::from_str(text),
            title: String::from_str(title),
        }
    }

    /// A request with an action for each button.
    pub fn yes_no(yes_action: A, no_action: A, title: &str, text: &str) -> (state: Self)
        ensures
            state@ == yes_no_request(yes_action, no_action, title@, text@),
    {
        DialogState {
            yes_text: String::from_str(DEFAULT_YES_TEXT),
            yes_action: Some(yes_action),
            no_text: String::from_str(DEFAULT_NO_TEXT),
            no_action: Some(no_action),
            text: String::from_str(text),
            title: String::from_str(title),
        }
    }

    /// A request with placeholder texts whose buttons do nothing.
    pub fn debug() -> (state: Self)
        ensures
            state@ == debug_request::<A>(),
    {
        DialogState {
            yes_text: String::from_str(DEFAULT_YES_TEXT),
            yes_action: None,
            no_text: String::from_str(DEFAULT_NO_TEXT),
            no_action: None,
            text: String::from_str("text"),
            title: String::from_str("title"),
        }
    }
}

/// The slot after `state` was opened over whatever `slot` held: the new
/// request alone. What was pending before is dropped without a trace.
pub open spec fn opened<A>(slot: Option<DialogStateView<A>>, state: DialogStateView<A>) -> Option<
    DialogStateView<A>,
> {
    Some(state)
}

/// The slot after a button fired or the dialog was closed: empty, whatever
/// it held.
pub open spec fn answered<A>(slot: Option<DialogStateView<A>>) -> Option<DialogStateView<A>> {
    None
}

/// The action handed back when the confirm button fires on `slot`.
pub open spec fn confirm_action<A>(slot: Option<DialogStateView<A>>) -> Option<A> {
    match slot {
        Some(state) => state.yes_action,
        None => None,
    }
}

/// The action handed back when the decline button fires on `slot`, or when
/// the dialog is closed without a choice.
pub open spec fn decline_action<A>(slot: Option<DialogStateView<A>>) -> Option<A> {
    match slot {
        Some(state) => state.no_action,
        None => None,
    }
}

/// The title to show for `slot`.
pub open spec fn title_of<A>(slot: Option<DialogStateView<A>>) -> Seq<char> {
    match slot {
        Some(state) => state.title,
        None => FALLBACK_TITLE_TEXT@,
    }
}

/// The body to show for `slot`.
pub open spec fn content_of<A>(slot: Option<DialogStateView<A>>) -> Seq<char> {
    match slot {
        Some(state) => state.text,
        None => FALLBACK_CONTENT_TEXT@,
    }
}

/// The confirm label to show for `slot`.
pub open spec fn yes_text_of<A>(slot: Option<DialogStateView<A>>) -> Seq<char> {
    match slot {
        Some(state) => state.yes_text,
        None => FALLBACK_YES_TEXT@,
    }
}

/// The decline label to show for `slot`.
pub open spec fn no_text_of<A>(slot: Option<DialogStateView<A>>) -> Seq<char> {
    match slot {
        Some(state) => state.no_text,
        None => FALLBACK_NO_TEXT@,
    }
}

/// The dialog controller: a single slot that holds the pending request, if
/// any. One controller is created at the application's root and handed by
/// reference to whoever needs a confirmation.
#[derive(Debug)]
pub struct DialogSignal<A> {
    slot: Option<DialogState<A>>,
}

impl<A> View for DialogSignal<A> {
    type V = Option<DialogStateView<A>>;

    closed spec fn view(&self) -> Option<DialogStateView<A>> {
        match self.slot {
            Some(state) => Some(state@),
            None => None,
        }
    }
}

impl<A> DialogSignal<A> {
    /// A controller with nothing pending.
    pub fn new() -> (dialog: Self)
        ensures
            dialog@ is None,
    {
        DialogSignal { slot: None }
    }

    /// Whether a request is pending, that is whether the dialog is shown.
    pub fn is_open(&self) -> (open: bool)
        ensures
            open == (self@ is Some),
    {
        self.slot.is_some()
    }

    /// Whether nothing is pending.
    pub fn is_closed(&self) -> (closed: bool)
        ensures
            closed == (self@ is None),
    {
        self.slot.is_none()
    }

    /// Makes `state` the pending request. A request that was pending is
    /// replaced and abandoned: neither of its actions is ever handed back.
    pub fn open(&mut self, state: DialogState<A>)
        ensures
            final(self)@ == opened(old(self)@, state@),
    {
        self.slot = Some(state);
    }

    /// Opens the placeholder request of `DialogState::debug`.
    pub fn open_debug(&mut self)
        ensures
            final(self)@ == opened(old(self)@, debug_request::<A>()),
    {
        self.slot = Some(DialogState::debug());
    }

    /// The dialog was closed without a choice. That counts as declining: the
    /// slot is emptied and the decline action of the request that was pending
    /// is handed back. With nothing pending, nothing happens.
    pub fn close(&mut self) -> (action: Option<A>)
        ensures
            final(self)@ == answered(old(self)@),
            final(self)@ is None,
            action == decline_action(old(self)@),
            old(self)@ is None ==> action is None,
    {
        self.no_action()
    }

    /// The body text to show; a fixed text while nothing is pending.
    pub fn content_text(&self) -> (text: String)
        ensures
            text@ == content_of(self@),
    {
        match &self.slot {
            Some(state) => state.text.clone(),
            None => String::from_str(FALLBACK_CONTENT_TEXT),
        }
    }

    /// The title to show; a fixed text while nothing is pending.
    pub fn title_text(&self) -> (text: String)
        ensures
            text@ == title_of(self@),
    {
        match &self.slot {
            Some(state) => state.title.clone(),
            None => String::from_str(FALLBACK_TITLE_TEXT),
        }
    }

    /// The confirm button's label; a fixed text while nothing is pending.
    pub fn yes_text(&self) -> (text: String)
        ensures
            text@ == yes_text_of(self@),
    {
        match &self.slot {
            Some(state) => state.yes_text.clone(),
            None => String::from_str(FALLBACK_YES_TEXT),
        }
    }

    /// The confirm button fired. The pending request is taken out of the
    /// slot and its confirm action handed back for the caller to perform.
    /// With nothing pending, nothing happens.
    pub fn yes_action(&mut self) -> (action: Option<A>)
        ensures
            final(self)@ == answered(old(self)@),
            final(self)@ is None,
            action == confirm_action(old(self)@),
            old(self)@ is None ==> action is None,
    {
        match self.slot.take() {
            Some(state) => state.yes_action,
            None => None,
        }
    }

    /// The decline button's label; a fixed text while nothing is pending.
    pub fn no_text(&self) -> (text: String)
        ensures
            text@ == no_text_of(self@),
    {
        match &self.slot {
            Some(state) => state.no_text.clone(),
            None => String::from_str(FALLBACK_NO_TEXT),
        }
    }

    /// The decline button fired. The pending request is taken out of the
    /// slot and its decline action handed back for the caller to perform.
    /// With nothing pending, nothing happens.
    pub fn no_action(&mut self) -> (action: Option<A>)
        ensures
            final(self)@ == answered(old(self)@),
            final(self)@ is None,
            action == decline_action(old(self)@),
            old(self)@ is None ==> action is None,
    {
        match self.slot.take() {
            Some(state) => state.no_action,
            None => None,
        }
    }
}

impl<A> Default for DialogSignal<A> {
    fn default() -> (dialog: Self)
        ensures
            dialog@ is None,
    {
        DialogSignal { slot: None }
    }
}

/// What can happen to the controller.
pub enum DialogEvent<A> {
    /// A request is opened.
    Open(DialogStateView<A>),
    /// The confirm button fires.
    Confirm,
    /// The decline button fires.
    Decline,
    /// The dialog is closed without a choice.
    Close,
}

/// The slot after `event` happened to `slot`.
pub open spec fn slot_after<A>(slot: Option<DialogStateView<A>>, event: DialogEvent<A>) -> Option<
    DialogStateView<A>,
> {
    match event {
        DialogEvent::Open(state) => opened(slot, state),
        DialogEvent::Confirm => answered(slot),
        DialogEvent::Decline => answered(slot),
        DialogEvent::Close => answered(slot),
    }
}

/// The action that the controller hands back when `event` happens to
/// `slot`.
pub open spec fn handed_back<A>(slot: Option<DialogStateView<A>>, event: DialogEvent<A>) -> Option<
    A,
> {
    match event {
        DialogEvent::Open(_) => None,
        DialogEvent::Confirm => confirm_action(slot),
        DialogEvent::Decline => decline_action(slot),
        DialogEvent::Close => decline_action(slot),
    }
}

/// The actions that the controller hands back, one for each of `events`,
/// when they happen in order, starting from `slot`.
pub open spec fn run<A>(slot: Option<DialogStateView<A>>, events: Seq<DialogEvent<A>>) -> Seq<
    Option<A>,
>
    decreases events.len(),
{
    if events.len() == 0 {
        Seq::<Option<A>>::empty()
    } else {
        seq![handed_back(slot, events[0])] + run(slot_after(slot, events[0]), events.drop_first())
    }
}

/// An abandoned request is never heard of again. After a second request was
/// opened over an unanswered first one, everything that the controller ever
/// hands back, whatever happens to it from then on, is what it would hand
/// back had the first request never been opened.
pub proof fn lemma_abandoned_request_is_never_heard_of<A>(
    slot: Option<DialogStateView<A>>,
    first: DialogStateView<A>,
    second: DialogStateView<A>,
    events: Seq<DialogEvent<A>>,
)
    ensures
        run(opened(opened(slot, first), second), events) == run(opened(slot, second), events),
{
}

/// At most one action for each request. As long as no new request is opened,
/// only the first button that fires can be handed an action; every later
/// press, of whichever button, is handed none.
pub proof fn lemma_at_most_one_action_for_each_request<A>(
    slot: Option<DialogStateView<A>>,
    events: Seq<DialogEvent<A>>,
)
    requires
        forall|i: int| 0 <= i < events.len() ==> !(events[i] is Open),
    ensures
        run(slot, events).len() == events.len(),
        forall|i: int| 1 <= i < events.len() ==> run(slot, events)[i] is None,
{
    if events.len() > 0 {
        // Whatever the first event is, it leaves the slot empty.
        lemma_nothing_comes_from_an_empty_slot(
            slot_after(slot, events[0]),
            events.drop_first(),
        );
    }
}

/// An empty slot hands back nothing until a request is opened.
pub proof fn lemma_nothing_comes_from_an_empty_slot<A>(
    slot: Option<DialogStateView<A>>,
    events: Seq<DialogEvent<A>>,
)
    requires
        slot is None,
        forall|i: int| 0 <= i < events.len() ==> !(events[i] is Open),
    ensures
        run(slot, events).len() == events.len(),
        forall|i: int| 0 <= i < events.len() ==> run(slot, events)[i] is None,
    decreases events.len(),
{
    if events.len() > 0 {
        lemma_nothing_comes_from_an_empty_slot(
            slot_after(slot, events[0]),
            events.drop_first(),
        );
    }
}

/// Last writer wins. Opening a second request before the first was answered
/// leaves the controller exactly as if the first had never been opened, so
/// whichever button fires next hands back an action of the second request and
/// no later call can hand back an action of the first.
pub proof fn lemma_open_replaces_pending<A>(
    slot: Option<DialogStateView<A>>,
    first: DialogStateView<A>,
    second: DialogStateView<A>,
)
    ensures
        opened(opened(slot, first), second) == opened(slot, second),
        opened(opened(slot, first), second) == Some(second),
        confirm_action(opened(opened(slot, first), second)) == second.yes_action,
        decline_action(opened(opened(slot, first), second)) == second.no_action,
{
}

/// Answering an empty slot changes nothing and hands back no action.
pub proof fn lemma_answer_on_empty_is_noop<A>(slot: Option<DialogStateView<A>>)
    requires
        slot is None,
    ensures
        confirm_action(slot) is None,
        decline_action(slot) is None,
        answered(slot) == slot,
{
}

/// An action is handed back at most once for each request. Once a button has
/// fired the slot is empty, so a second press of either button hands back
/// nothing and leaves the slot empty.
pub proof fn lemma_answer_is_idempotent<A>(slot: Option<DialogStateView<A>>)
    ensures
        confirm_action(answered(slot)) is None,
        decline_action(answered(slot)) is None,
        answered(answered(slot)) == answered(slot),
{
}

/// While nothing is pending the dialog shows its fixed fallback texts.
pub proof fn lemma_empty_dialog_shows_fallbacks<A>(slot: Option<DialogStateView<A>>)
    requires
        slot is None,
    ensures
        title_of(slot) == FALLBACK_TITLE_TEXT@,
        content_of(slot) == FALLBACK_CONTENT_TEXT@,
        yes_text_of(slot) == FALLBACK_YES_TEXT@,
        no_text_of(slot) == FALLBACK_NO_TEXT@,
{
}

} // verus!
