//! Deleting the article that is shown on its own.
//!
//! The flow is a small state machine. A request opens the shared dialog and
//! waits for the user; a confirmation starts the remote deletion; the outcome
//! of that call ends the flow, with a navigation away from the deleted
//! article after a success and with the error kept after a failure.
//!
//! Every event is accepted in every phase. The dialog and the remote call
//! live outside the flow and may answer late, after a newer request was
//! made; the flow then simply follows the event that arrived.

use crate::articles::delete::{
    deletion_of, DeleteCommand, DELETE_DIALOG_TEXT, DELETE_DIALOG_TITLE,
};
use crate::busy_container::BusyAction;
use crate::dialog::{
    confirm_action, decline_action, opened, yes_no_request, DialogSignal, DialogState,
    DialogStateView,
};
use crate::identifier::Identifier;
use vstd::prelude::*;
use vstd::string::StringExecFns;

verus! {

/// Where the flow navigates after a successful deletion unless told
/// otherwise.
pub const DEFAULT_NAVIGATE_TO: &'static str = "/";

/// The text of the busy overlay while the flow is under way.
pub const WAITING_TEXT: &'static str = "Waiting for User input....";

/// Where a deletion flow stands.
#[derive(Clone, Copy, Debug, PartialEq, Eq, Structural)]
pub enum DeletePhase {
    /// Nothing was asked for yet, or the user declined.
    Idle,
    /// The dialog is open and asks whether to delete this entry.
    AwaitingConfirmation(Identifier),
    /// The user confirmed; the remote deletion of this entry is in flight.
    Mutating(Identifier),
    /// The last remote deletion succeeded. A new request may follow.
    Succeeded,
    /// The last remote deletion failed; its error is kept. A new request may
    /// follow.
    Failed,
}

/// The deletion flow of one single-article view.
#[derive(Debug)]
pub struct DeleteDialogAction {
    phase: DeletePhase,
    navigate_to: String,
    last_err: Option<String>,
}

/// A deletion flow as mathematical values.
pub struct DeleteDialogActionView {
    /// Where the flow stands.
    pub phase: DeletePhase,
    /// The path to navigate to after a successful deletion.
    pub navigate_to: Seq<char>,
    /// The error of the last remote deletion, if that failed.
    pub last_err: Option<Seq<char>>,
}

impl View for DeleteDialogAction {
    type V = DeleteDialogActionView;

    closed spec fn view(&self) -> DeleteDialogActionView {
        DeleteDialogActionView {
            phase: self.phase,
            navigate_to: self.navigate_to@,
            last_err: match self.last_err {
                Some(error) => Some(error@),
                None => None,
            },
        }
    }
}

/// The outcome of a remote deletion with its error as a sequence of
/// characters.
pub open spec fn outcome_view(outcome: Result<(), String>) -> Result<(), Seq<char>> {
    match outcome {
        Ok(_) => Ok(()),
        Err(error) => Err(error@),
    }
}

/// A flow that has not been used yet.
pub open spec fn initial(navigate_to: Seq<char>) -> DeleteDialogActionView {
    DeleteDialogActionView { phase: DeletePhase::Idle, navigate_to, last_err: None }
}

/// The flow after a confirmation for `uuid` was requested.
pub open spec fn requested(
    flow: DeleteDialogActionView,
    uuid: Identifier,
) -> DeleteDialogActionView {
    DeleteDialogActionView { phase: DeletePhase::AwaitingConfirmation(uuid), ..flow }
}

/// The flow after the dialog handed back `command`.
pub open spec fn dispatched(
    flow: DeleteDialogActionView,
    command: DeleteCommand,
) -> DeleteDialogActionView {
    match command {
        DeleteCommand::Delete(uuid) => DeleteDialogActionView {
            phase: DeletePhase::Mutating(uuid),
            ..flow
        },
        DeleteCommand::Cancel => DeleteDialogActionView { phase: DeletePhase::Idle, ..flow },
    }
}

/// The flow after the remote deletion resolved with `outcome`.
pub open spec fn resolved(
    flow: DeleteDialogActionView,
    outcome: Result<(), Seq<char>>,
) -> DeleteDialogActionView {
    match outcome {
        Ok(_) => DeleteDialogActionView { phase: DeletePhase::Succeeded, last_err: None, ..flow },
        Err(error) => DeleteDialogActionView {
            phase: DeletePhase::Failed,
            last_err: Some(error),
            ..flow
        },
    }
}

/// Where to navigate once the remote deletion resolved with `outcome`:
/// to the flow's target after a success, nowhere after a failure.
pub open spec fn navigation_after(
    flow: DeleteDialogActionView,
    outcome: Result<(), Seq<char>>,
) -> Option<Seq<char>> {
    match outcome {
        Ok(_) => Some(flow.navigate_to),
        Err(_) => None,
    }
}

/// Whether a flow in `phase` is under way: waiting for the user or for the
/// remote call.
pub open spec fn phase_is_busy(phase: DeletePhase) -> bool {
    phase is AwaitingConfirmation || phase is Mutating
}

/// A flow for a single-article view that navigates to `navigate_to` after a
/// successful deletion, or to the root path if none is given.
pub fn open_delete_dialog_action(navigate_to: Option<String>) -> (flow: DeleteDialogAction)
    ensures
        flow@ == initial(
            match navigate_to {
                Some(path) => path@,
                None => DEFAULT_NAVIGATE_TO@,
            },
        ),
{
    let navigate_to = match navigate_to {
        Some(path) => path,
        None => String::from_str(DEFAULT_NAVIGATE_TO),
    };
    DeleteDialogAction::new(navigate_to)
}

impl DeleteDialogAction {
    /// A flow that navigates to `navigate_to` after a successful deletion.
    pub fn new(navigate_to: String) -> (flow: Self)
        ensures
            flow@ == initial(navigate_to@),
    {
        DeleteDialogAction { phase: DeletePhase::Idle, navigate_to, last_err: None }
    }

    /// Asks the user whether to delete the entry `uuid`.
    ///
    /// The dialog is opened over whatever it held. Its confirm button stands
    /// for the deletion of `uuid`, its decline button for giving up. The flow
    /// waits for the answer.
    pub fn open_dialog(&mut self, dialog: &mut DialogSignal<DeleteCommand>, uuid: Identifier)
        ensures
            final(self)@ == requested(old(self)@, uuid),
            final(dialog)@ == opened(old(dialog)@, delete_request(uuid)),
    {
        self.phase = DeletePhase::AwaitingConfirmation(uuid);
        dialog.open(
            DialogState::yes_no(
                DeleteCommand::Delete(uuid),
                DeleteCommand::Cancel,
                DELETE_DIALOG_TITLE,
                DELETE_DIALOG_TEXT,
            ),
        );
    }

    /// Follows the command that the dialog handed back.
    ///
    /// A confirmed deletion puts the flow into its mutating phase and is
    /// returned: the caller has to request that remote deletion. A
    /// cancellation puts the flow back to idle and asks for no remote call.
    pub fn dispatch(&mut self, command: DeleteCommand) -> (deletion: Option<Identifier>)
        ensures
            final(self)@ == dispatched(old(self)@, command),
            deletion == deletion_of(command),
    {
        let deletion = command.deletion();
        self.phase = match deletion {
            Some(uuid) => DeletePhase::Mutating(uuid),
            None => DeletePhase::Idle,
        };
        deletion
    }

    /// Takes note of the outcome of the remote deletion.
    ///
    /// After a success the flow has succeeded, forgets an earlier error and
    /// returns the path to navigate to. After a failure the flow has failed
    /// and keeps the error; nothing is returned, the user stays where they
    /// are and may ask again.
    pub fn resolve(&mut self, outcome: Result<(), String>) -> (navigate: Option<String>)
        ensures
            final(self)@ == resolved(old(self)@, outcome_view(outcome)),
            match navigate {
                Some(path) => Some(path@) == navigation_after(old(self)@, outcome_view(outcome)),
                None => navigation_after(old(self)@, outcome_view(outcome)) is None,
            },
    {
        match outcome {
            Ok(_) => {
                self.phase = DeletePhase::Succeeded;
                self.last_err = None;
                Some(self.navigate_to.clone())
            },
            Err(error) => {
                self.phase = DeletePhase::Failed;
                self.last_err = Some(error);
                None
            },
        }
    }

    /// Where the flow stands.
    pub fn phase(&self) -> (phase: DeletePhase)
        ensures
            phase == self@.phase,
    {
        self.phase
    }

    /// The path to navigate to after a successful deletion.
    pub fn navigate_to(&self) -> (path: &str)
        ensures
            path@ == self@.navigate_to,
    {
        self.navigate_to.as_str()
    }

    /// The error of the last remote deletion, if that failed.
    pub fn last_err(&self) -> (error: Option<String>)
        ensures
            match error {
                Some(text) => Some(text@) == self@.last_err,
                None => self@.last_err is None,
            },
    {
        match &self.last_err {
            Some(error) => Some(error.clone()),
            None => None,
        }
    }
}

/// The flow is busy from the request until the user declines or the remote
/// call resolves. Its text is the same in every phase.
impl BusyAction for DeleteDialogAction {
    fn is_busy(&self) -> (busy: bool)
        ensures
            busy == phase_is_busy(self@.phase),
    {
        match self.phase {
            DeletePhase::AwaitingConfirmation(_) => true,
            DeletePhase::Mutating(_) => true,
            _ => false,
        }
    }

    fn busy_text(&self) -> (text: String)
        ensures
            text@ == WAITING_TEXT@,
    {
        String::from_str(WAITING_TEXT)
    }
}

/// The request that `DeleteDialogAction::open_dialog` puts into the dialog
/// for the entry `uuid`.
pub open spec fn delete_request(uuid: Identifier) -> DialogStateView<DeleteCommand> {
    yes_no_request(
        DeleteCommand::Delete(uuid),
        DeleteCommand::Cancel,
        DELETE_DIALOG_TITLE@,
        DELETE_DIALOG_TEXT@,
    )
}

/// From the request to the remote call. When the user confirms a request,
/// the dialog hands back the deletion of exactly the requested entry, the
/// flow asks for that remote deletion and is busy while it is in flight.
pub proof fn lemma_confirmed_request_deletes_the_requested_entry(
    flow: DeleteDialogActionView,
    slot: Option<DialogStateView<DeleteCommand>>,
    uuid: Identifier,
)
    ensures
        confirm_action(opened(slot, delete_request(uuid))) == Some(DeleteCommand::Delete(uuid)),
        deletion_of(DeleteCommand::Delete(uuid)) == Some(uuid),
        dispatched(requested(flow, uuid), DeleteCommand::Delete(uuid)).phase
            == DeletePhase::Mutating(uuid),
        phase_is_busy(requested(flow, uuid).phase),
        phase_is_busy(dispatched(requested(flow, uuid), DeleteCommand::Delete(uuid)).phase),
{
}

/// When the user declines a request, or closes the dialog, no remote
/// deletion is asked for and the flow is idle again.
pub proof fn lemma_declined_request_deletes_nothing(
    flow: DeleteDialogActionView,
    slot: Option<DialogStateView<DeleteCommand>>,
    uuid: Identifier,
)
    ensures
        decline_action(opened(slot, delete_request(uuid))) == Some(DeleteCommand::Cancel),
        deletion_of(DeleteCommand::Cancel) is None,
        dispatched(requested(flow, uuid), DeleteCommand::Cancel).phase == DeletePhase::Idle,
        !phase_is_busy(dispatched(requested(flow, uuid), DeleteCommand::Cancel).phase),
        dispatched(requested(flow, uuid), DeleteCommand::Cancel).last_err == flow.last_err,
{
}

/// However the remote call ends, the flow is no longer busy afterwards and
/// accepts a new request. A success leads away from the deleted article and
/// leaves no error behind; a failure leads nowhere and keeps its error.
pub proof fn lemma_resolution_ends_the_flow(
    flow: DeleteDialogActionView,
    outcome: Result<(), Seq<char>>,
    uuid: Identifier,
)
    ensures
        !phase_is_busy(resolved(flow, outcome).phase),
        outcome is Ok ==> {
            &&& resolved(flow, outcome).phase == DeletePhase::Succeeded
            &&& resolved(flow, outcome).last_err is None
            &&& navigation_after(flow, outcome) == Some(flow.navigate_to)
        },
        outcome matches Err(error) ==> {
            &&& resolved(flow, outcome).phase == DeletePhase::Failed
            &&& resolved(flow, outcome).last_err == Some(error)
            &&& navigation_after(flow, outcome) is None
        },
        requested(resolved(flow, outcome), uuid).phase == DeletePhase::AwaitingConfirmation(uuid),
        resolved(flow, outcome).navigate_to == flow.navigate_to,
{
}

} // verus!
