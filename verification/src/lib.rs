//! Confirmation-gated deletion of bookmarked articles.
//!
//! An article list shows entries keyed by a random 128-bit identifier. Before
//! an entry is deleted the user is asked to confirm in a dialog that is shared
//! by the whole application; the remote deletion is only requested after a
//! confirmation, and the in-memory list is updated from the outcome of that
//! request instead of being fetched again.
//!
//! Nothing in this crate performs I/O. Every operation is a step of a state
//! machine: it takes the current state and an event, updates the state and
//! hands back what the surrounding application has to do next.
//!
//! - [`identifier`]: the random 128-bit tokens that name the entries.
//! - [`articles`]: an article; [`articles::edit`] derives titles from
//!   addresses and turns a submitted text into articles.
//! - [`dialog`]: the confirmation dialog with its single slot.
//! - [`busy_container`] and [`pending_action`]: what a busy overlay asks of
//!   the work it covers, and the status of an asynchronous action.
//! - [`articles::delete`]: the deletion flows. [`articles::delete::list`]
//!   holds the article list and applies confirmed deletions to it,
//!   [`articles::delete::single`] is the flow of the single-article view.
//!
//! Each module states its behaviour as contracts over mathematical views,
//! and what holds across several operations as public proof functions.

pub mod articles;
pub mod busy_container;
pub mod dialog;
pub mod identifier;
pub mod pending_action;
