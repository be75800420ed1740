//! What a busy overlay needs to know of the work it covers.

use vstd::prelude::*;

verus! {

/// Something that may be busy, with a text that says what it is busy with.
///
/// A view that covers its content while work is outstanding asks only these
/// two questions, so it can be put over any kind of action, or over none.
/// The trait promises nothing of the answers; each implementation says in
/// its own contract what it answers.
pub trait BusyAction {
    /// Whether the overlay is to be shown.
    fn is_busy(&self) -> bool;

    /// The text to show on the overlay.
    fn busy_text(&self) -> String;
}

/// An absent action is never busy and has an empty text; a present one
/// answers for itself.
impl<T: BusyAction> BusyAction for Option<T> {
    fn is_busy(&self) -> (busy: bool)
        ensures
            match self {
                Some(state) => call_ensures(T::is_busy, (state,), busy),
                None => !busy,
            },
    {
        match self {
            Some(state) => state.is_busy(),
            None => false,
        }
    }

    fn busy_text(&self) -> (text: String)
        ensures
            match self {
                Some(state) => call_ensures(T::busy_text, (state,), text),
                None => text@ == Seq::<char>::empty(),
            },
    {
        match self {
            Some(state) => state.busy_text(),
            None => String::new(),
        }
    }
}

} // verus!
