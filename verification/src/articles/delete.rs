//! Deleting an article after the user confirmed it.
//!
//! Both the list view and the view of a single article ask for confirmation
//! in the shared dialog. The dialog's buttons stand for a `DeleteCommand`;
//! the application performs the command that the dialog hands back, makes the
//! remote call that a confirmed deletion asks for, and reports the outcome of
//! that call back to the list or to the single-article flow.

pub mod list;
pub mod single;

use crate::articles::delete::list::{after_delete, contains_id, ids_unique};
use crate::articles::delete::single::{
    delete_request, dispatched, phase_is_busy, requested, resolved, DeleteDialogActionView,
    DeletePhase,
};
use crate::articles::ArticleView;
use crate::dialog::{answered, confirm_action, decline_action, opened, DialogStateView};
use crate::identifier::Identifier;
use vstd::prelude::*;

verus! {

/// Title of the dialog that asks whether to delete an entry.
pub const DELETE_DIALOG_TITLE: &'static str = "Delete Item?";

/// Body of the dialog that asks whether to delete an entry.
pub const DELETE_DIALOG_TEXT: &'static str = "Do you really want to delete this Item?";

/// What a button of the delete dialog stands for.
#[derive(Clone, Copy, Debug, PartialEq, Eq, Structural)]
pub enum DeleteCommand {
    /// The user confirmed: request the remote deletion of this entry.
    Delete(Identifier),
    /// The user declined: nothing is to be deleted.
    Cancel,
}

/// The remote deletion that `command` asks for, if any.
pub open spec fn deletion_of(command: DeleteCommand) -> Option<Identifier> {
    match command {
        DeleteCommand::Delete(uuid) => Some(uuid),
        DeleteCommand::Cancel => None,
    }
}

impl DeleteCommand {
    /// The entry whose remote deletion this command asks for; none for a
    /// cancellation.
    pub fn deletion(self) -> (deletion: Option<Identifier>)
        ensures
            deletion == deletion_of(self),
    {
        match self {
            DeleteCommand::Delete(uuid) => Some(uuid),
            DeleteCommand::Cancel => None,
        }
    }
}

/// A deletion that is confirmed and succeeds, from end to end.
///
/// The user asks to delete the entry at position `i`, whatever the dialog
/// held before, and confirms. The dialog then is empty and has handed back
/// the deletion of that entry; the flow has asked for that remote deletion
/// and no other. Once the remote call has succeeded, the list is the old
/// list without that one entry and the flow has succeeded and is free for
/// the next request.
pub proof fn lemma_confirmed_delete_that_succeeds(
    items: Seq<ArticleView>,
    slot: Option<DialogStateView<DeleteCommand>>,
    flow: DeleteDialogActionView,
    i: int,
)
    requires
        ids_unique(items),
        0 <= i < items.len(),
    ensures
        ({
            let uuid = items[i].uuid;
            let asked = opened(slot, delete_request(uuid));
            let waiting = requested(flow, uuid);
            let mutating = dispatched(waiting, DeleteCommand::Delete(uuid));
            let done = resolved(mutating, Ok(()));
            &&& confirm_action(asked) == Some(DeleteCommand::Delete(uuid))
            &&& answered(asked) is None
            &&& deletion_of(DeleteCommand::Delete(uuid)) == Some(uuid)
            &&& mutating.phase == DeletePhase::Mutating(uuid)
            &&& after_delete(items, uuid, Ok::<(), Seq<char>>(())) == items.remove(i)
            &&& !contains_id(after_delete(items, uuid, Ok::<(), Seq<char>>(())), uuid)
            &&& done.phase == DeletePhase::Succeeded
            &&& done.last_err is None
            &&& !phase_is_busy(done.phase)
        }),
{
    list::lemma_successful_delete_removes_exactly(items, items[i].uuid, i, Ok::<(), Seq<char>>(()));
}

/// A deletion that is confirmed and fails, from end to end.
///
/// The list is exactly what it was. The flow has failed and keeps the error
/// of the remote call; it is not busy, and a new request for the same entry
/// is accepted like the first.
pub proof fn lemma_confirmed_delete_that_fails(
    items: Seq<ArticleView>,
    slot: Option<DialogStateView<DeleteCommand>>,
    flow: DeleteDialogActionView,
    uuid: Identifier,
    error: Seq<char>,
)
    ensures
        ({
            let asked = opened(slot, delete_request(uuid));
            let mutating = dispatched(requested(flow, uuid), DeleteCommand::Delete(uuid));
            let done = resolved(mutating, Err(error));
            &&& confirm_action(asked) == Some(DeleteCommand::Delete(uuid))
            &&& after_delete(items, uuid, Err::<(), Seq<char>>(error)) == items
            &&& done.phase == DeletePhase::Failed
            &&& done.last_err == Some(error)
            &&& !phase_is_busy(done.phase)
            &&& requested(done, uuid).phase == DeletePhase::AwaitingConfirmation(uuid)
            &&& confirm_action(opened(answered(asked), delete_request(uuid))) == Some(
                DeleteCommand::Delete(uuid),
            )
        }),
{
}

/// A deletion that is declined, from end to end.
///
/// The dialog hands back a cancellation, which asks for no remote call, so
/// nothing ever reaches the list. The dialog is empty and the flow idle.
pub proof fn lemma_declined_delete(
    slot: Option<DialogStateView<DeleteCommand>>,
    flow: DeleteDialogActionView,
    uuid: Identifier,
)
    ensures
        ({
            let asked = opened(slot, delete_request(uuid));
            let idle = dispatched(requested(flow, uuid), DeleteCommand::Cancel);
            &&& decline_action(asked) == Some(DeleteCommand::Cancel)
            &&& answered(asked) is None
            &&& deletion_of(DeleteCommand::Cancel) is None
            &&& idle.phase == DeletePhase::Idle
            &&& !phase_is_busy(idle.phase)
        }),
{
}

/// Two requests before either is answered, from end to end: the deletion
/// that a confirmation hands back is that of the second request, and after
/// it nothing is left to hand back.
pub proof fn lemma_second_request_wins(
    slot: Option<DialogStateView<DeleteCommand>>,
    first: Identifier,
    second: Identifier,
)
    ensures
        ({
            let asked = opened(opened(slot, delete_request(first)), delete_request(second));
            &&& confirm_action(asked) == Some(DeleteCommand::Delete(second))
            &&& decline_action(asked) == Some(DeleteCommand::Cancel)
            &&& confirm_action(answered(asked)) is None
            &&& decline_action(answered(asked)) is None
        }),
{
}

} // verus!
