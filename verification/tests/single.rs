use articles_collect::articles::delete::list::{delete_action_remove_from_list, ListSynchronizer};
use articles_collect::articles::delete::single::{
    open_delete_dialog_action, DeleteDialogAction, DeletePhase, DEFAULT_NAVIGATE_TO, WAITING_TEXT,
};
use articles_collect::articles::delete::DeleteCommand;
use articles_collect::articles::Article;
use articles_collect::busy_container::BusyAction;
use articles_collect::dialog::DialogSignal;
use articles_collect::identifier::Identifier;

fn id(bits: u128) -> Identifier {
    Identifier::from_u128(bits)
}

#[test]
fn new_flow_is_idle() {
    let flow = DeleteDialogAction::new(String::from("/articles"));
    assert_eq!(flow.phase(), DeletePhase::Idle);
    assert_eq!(flow.navigate_to(), "/articles");
    assert_eq!(flow.last_err(), None);
    assert!(!flow.is_busy());
}

#[test]
fn flow_navigates_to_the_root_by_default() {
    let flow = open_delete_dialog_action(None);
    assert_eq!(flow.navigate_to(), "/");
    assert_eq!(DEFAULT_NAVIGATE_TO, "/");
    assert_eq!(flow.phase(), DeletePhase::Idle);
    assert_eq!(flow.last_err(), None);
}

#[test]
fn flow_navigates_where_it_is_told() {
    let flow = open_delete_dialog_action(Some(String::from("/articles")));
    assert_eq!(flow.navigate_to(), "/articles");
    assert_eq!(flow.phase(), DeletePhase::Idle);
}

#[test]
fn open_dialog_asks_and_waits() {
    let mut flow = open_delete_dialog_action(None);
    let mut dialog = DialogSignal::new();
    flow.open_dialog(&mut dialog, id(1));
    assert_eq!(flow.phase(), DeletePhase::AwaitingConfirmation(id(1)));
    assert!(flow.is_busy());
    assert!(dialog.is_open());
    assert_eq!(dialog.title_text(), "Delete Item?");
    assert_eq!(dialog.content_text(), "Do you really want to delete this Item?");
    assert_eq!(dialog.yes_text(), "yes");
    assert_eq!(dialog.no_text(), "no");
}

#[test]
fn busy_text_asks_for_the_user() {
    let flow = open_delete_dialog_action(None);
    assert_eq!(flow.busy_text(), "Waiting for User input....");
    assert_eq!(WAITING_TEXT, "Waiting for User input....");
}

#[test]
fn confirm_starts_the_remote_deletion() {
    let mut flow = open_delete_dialog_action(None);
    let mut dialog = DialogSignal::new();
    flow.open_dialog(&mut dialog, id(1));
    let command = dialog.yes_action().unwrap();
    assert_eq!(command, DeleteCommand::Delete(id(1)));
    assert_eq!(flow.dispatch(command), Some(id(1)));
    assert_eq!(flow.phase(), DeletePhase::Mutating(id(1)));
    assert!(flow.is_busy());
    assert!(dialog.is_closed());
}

#[test]
fn decline_returns_to_idle_without_a_remote_call() {
    let mut flow = open_delete_dialog_action(None);
    let mut dialog = DialogSignal::new();
    flow.open_dialog(&mut dialog, id(1));
    let command = dialog.no_action().unwrap();
    assert_eq!(command, DeleteCommand::Cancel);
    assert_eq!(flow.dispatch(command), None);
    assert_eq!(flow.phase(), DeletePhase::Idle);
    assert!(!flow.is_busy());
}

#[test]
fn closing_the_dialog_declines() {
    let mut flow = open_delete_dialog_action(None);
    let mut dialog = DialogSignal::new();
    flow.open_dialog(&mut dialog, id(1));
    let command = dialog.close().unwrap();
    assert_eq!(command, DeleteCommand::Cancel);
    assert_eq!(flow.dispatch(command), None);
    assert_eq!(flow.phase(), DeletePhase::Idle);
}

#[test]
fn success_navigates_away() {
    let mut flow = open_delete_dialog_action(Some(String::from("/articles")));
    let mut dialog = DialogSignal::new();
    flow.open_dialog(&mut dialog, id(1));
    let command = dialog.yes_action().unwrap();
    assert_eq!(flow.dispatch(command), Some(id(1)));
    assert_eq!(flow.resolve(Ok(())), Some(String::from("/articles")));
    assert_eq!(flow.phase(), DeletePhase::Succeeded);
    assert_eq!(flow.last_err(), None);
    assert!(!flow.is_busy());
}

#[test]
fn failure_keeps_the_error_and_stays() {
    let mut flow = open_delete_dialog_action(None);
    let mut dialog = DialogSignal::new();
    flow.open_dialog(&mut dialog, id(1));
    let command = dialog.yes_action().unwrap();
    assert_eq!(flow.dispatch(command), Some(id(1)));
    assert_eq!(flow.resolve(Err(String::from("not allowed"))), None);
    assert_eq!(flow.phase(), DeletePhase::Failed);
    assert_eq!(flow.last_err(), Some(String::from("not allowed")));
    assert!(!flow.is_busy());
}

#[test]
fn retry_after_failure_succeeds_and_forgets_the_error() {
    let mut flow = open_delete_dialog_action(None);
    let mut dialog = DialogSignal::new();
    flow.open_dialog(&mut dialog, id(1));
    let command = dialog.yes_action().unwrap();
    flow.dispatch(command);
    flow.resolve(Err(String::from("not allowed")));

    flow.open_dialog(&mut dialog, id(1));
    assert_eq!(flow.phase(), DeletePhase::AwaitingConfirmation(id(1)));
    assert_eq!(flow.last_err(), Some(String::from("not allowed")));
    assert!(flow.is_busy());
    let command = dialog.yes_action().unwrap();
    assert_eq!(flow.dispatch(command), Some(id(1)));
    assert_eq!(flow.resolve(Ok(())), Some(String::from("/")));
    assert_eq!(flow.phase(), DeletePhase::Succeeded);
    assert_eq!(flow.last_err(), None);
}

#[test]
fn decline_keeps_an_earlier_error() {
    let mut flow = open_delete_dialog_action(None);
    flow.resolve(Err(String::from("first")));
    assert_eq!(flow.dispatch(DeleteCommand::Cancel), None);
    assert_eq!(flow.phase(), DeletePhase::Idle);
    assert_eq!(flow.last_err(), Some(String::from("first")));
}

#[test]
fn later_failure_replaces_the_error() {
    let mut flow = open_delete_dialog_action(None);
    flow.resolve(Err(String::from("first")));
    flow.resolve(Err(String::from("second")));
    assert_eq!(flow.last_err(), Some(String::from("second")));
    assert_eq!(flow.phase(), DeletePhase::Failed);
}

#[test]
fn request_while_mutating_is_accepted() {
    let mut flow = open_delete_dialog_action(None);
    let mut dialog = DialogSignal::new();
    flow.open_dialog(&mut dialog, id(1));
    let command = dialog.yes_action().unwrap();
    flow.dispatch(command);
    assert_eq!(flow.phase(), DeletePhase::Mutating(id(1)));

    flow.open_dialog(&mut dialog, id(2));
    assert_eq!(flow.phase(), DeletePhase::AwaitingConfirmation(id(2)));
    assert_eq!(dialog.yes_action(), Some(DeleteCommand::Delete(id(2))));
}

#[test]
fn second_request_replaces_the_first_in_flow_and_dialog() {
    let mut flow = open_delete_dialog_action(None);
    let mut dialog = DialogSignal::new();
    flow.open_dialog(&mut dialog, id(1));
    flow.open_dialog(&mut dialog, id(2));
    assert_eq!(flow.phase(), DeletePhase::AwaitingConfirmation(id(2)));
    let command = dialog.yes_action().unwrap();
    assert_eq!(command, DeleteCommand::Delete(id(2)));
    assert_eq!(flow.dispatch(command), Some(id(2)));
    assert_eq!(dialog.yes_action(), None);
}

#[test]
fn absent_flow_is_not_busy() {
    let none: Option<DeleteDialogAction> = None;
    assert!(!none.is_busy());
    assert_eq!(none.busy_text(), "");
}

#[test]
fn present_flow_answers_for_itself() {
    let mut flow = open_delete_dialog_action(None);
    let mut dialog = DialogSignal::new();
    flow.open_dialog(&mut dialog, id(1));
    let some = Some(flow);
    assert!(some.is_busy());
    assert_eq!(some.busy_text(), "Waiting for User input....");

    let idle = Some(open_delete_dialog_action(None));
    assert!(!idle.is_busy());
    assert_eq!(idle.busy_text(), "Waiting for User input....");
}

fn article(bits: u128, title: &str) -> Article {
    Article::new(id(bits), String::from(title), format!("https://example.org/{title}"))
}

fn two_entries() -> ListSynchronizer {
    ListSynchronizer::from_articles(vec![article(0xA, "x"), article(0xB, "y")]).unwrap()
}

/// Dialog, flow and list together: B is asked for and confirmed, and the
/// remote call succeeds.
#[test]
fn whole_way_of_a_successful_delete() {
    let mut list = two_entries();
    let mut dialog = DialogSignal::new();
    let mut flow = open_delete_dialog_action(None);

    flow.open_dialog(&mut dialog, id(0xB));
    assert_eq!(flow.phase(), DeletePhase::AwaitingConfirmation(id(0xB)));
    let command = dialog.yes_action().unwrap();
    let deletion = flow.dispatch(command).unwrap();
    assert_eq!(deletion, id(0xB));
    assert_eq!(flow.phase(), DeletePhase::Mutating(id(0xB)));

    let remote: Result<(), String> = Ok(());
    assert_eq!(
        delete_action_remove_from_list(&mut list, deletion, remote.clone()),
        Ok(Some(article(0xB, "y")))
    );
    assert_eq!(flow.resolve(remote), Some(String::from("/")));

    assert_eq!(list.articles(), &vec![article(0xA, "x")]);
    assert_eq!(flow.phase(), DeletePhase::Succeeded);
    assert!(!flow.is_busy());
    assert!(dialog.is_closed());
}

/// B is asked for and declined: no deletion is asked for, the list stays.
#[test]
fn whole_way_of_a_declined_delete() {
    let list = two_entries();
    let mut dialog = DialogSignal::new();
    let mut flow = open_delete_dialog_action(None);

    flow.open_dialog(&mut dialog, id(0xB));
    let command = dialog.no_action().unwrap();
    assert_eq!(flow.dispatch(command), None);

    assert_eq!(list.articles(), &vec![article(0xA, "x"), article(0xB, "y")]);
    assert_eq!(flow.phase(), DeletePhase::Idle);
    assert!(!flow.is_busy());
    assert!(dialog.is_closed());
}

/// A is asked for and confirmed, and the remote call fails: the list stays,
/// the flow has failed and keeps the error, and the user can ask again.
#[test]
fn whole_way_of_a_failed_delete() {
    let mut list = two_entries();
    let mut dialog = DialogSignal::new();
    let mut flow = open_delete_dialog_action(None);

    flow.open_dialog(&mut dialog, id(0xA));
    let command = dialog.yes_action().unwrap();
    let deletion = flow.dispatch(command).unwrap();
    let remote: Result<(), String> = Err(String::from("connection refused"));
    assert_eq!(
        delete_action_remove_from_list(&mut list, deletion, remote.clone()),
        Err(String::from("connection refused"))
    );
    assert_eq!(flow.resolve(remote), None);

    assert_eq!(list.articles(), &vec![article(0xA, "x"), article(0xB, "y")]);
    assert_eq!(flow.phase(), DeletePhase::Failed);
    assert_eq!(flow.last_err(), Some(String::from("connection refused")));
    assert!(!flow.is_busy());

    flow.open_dialog(&mut dialog, id(0xA));
    let command = dialog.yes_action().unwrap();
    let deletion = flow.dispatch(command).unwrap();
    let remote: Result<(), String> = Ok(());
    assert!(delete_action_remove_from_list(&mut list, deletion, remote.clone()).is_ok());
    assert_eq!(flow.resolve(remote), Some(String::from("/")));
    assert_eq!(list.articles(), &vec![article(0xB, "y")]);
    assert_eq!(flow.phase(), DeletePhase::Succeeded);
    assert_eq!(flow.last_err(), None);
}
