use articles_collect::articles::delete::list::{
    delete_action_remove_from_list, open_delete_dialog_action_list, ListSynchronizer,
};
use articles_collect::articles::delete::{DeleteCommand, DELETE_DIALOG_TEXT, DELETE_DIALOG_TITLE};
use articles_collect::articles::Article;
use articles_collect::dialog::DialogSignal;
use articles_collect::identifier::Identifier;

const ID_A: u128 = 0xA;
const ID_B: u128 = 0xB;
const ID_C: u128 = 0xC;

fn id(bits: u128) -> Identifier {
    Identifier::from_u128(bits)
}

fn article(bits: u128, title: &str) -> Article {
    Article::new(id(bits), String::from(title), format!("https://example.org/{title}"))
}

fn two_entries() -> ListSynchronizer {
    ListSynchronizer::from_articles(vec![article(ID_A, "x"), article(ID_B, "y")]).unwrap()
}

#[test]
fn new_list_is_empty() {
    let list = ListSynchronizer::new();
    assert_eq!(list.len(), 0);
    assert!(list.is_empty());
    assert!(list.articles().is_empty());
}

#[test]
fn list_keeps_the_order_it_was_given() {
    let list = ListSynchronizer::from_articles(vec![
        article(ID_C, "third"),
        article(ID_A, "first"),
        article(ID_B, "second"),
    ])
    .unwrap();
    assert_eq!(list.len(), 3);
    assert!(!list.is_empty());
    assert_eq!(
        list.articles(),
        &vec![article(ID_C, "third"), article(ID_A, "first"), article(ID_B, "second")]
    );
}

#[test]
fn list_refuses_an_identifier_twice() {
    let twice = vec![article(ID_A, "x"), article(ID_A, "y")];
    assert!(ListSynchronizer::from_articles(twice).is_none());
    assert!(ListSynchronizer::from_articles(vec![
        article(ID_A, "x"),
        article(ID_B, "y"),
        article(ID_C, "z"),
        article(ID_B, "y"),
    ])
    .is_none());
}

#[test]
fn list_accepts_equal_titles_under_different_identifiers() {
    let list = ListSynchronizer::from_articles(vec![article(ID_A, "x"), article(ID_B, "x")]);
    assert_eq!(list.unwrap().len(), 2);
}

#[test]
fn list_from_no_articles_is_empty() {
    assert!(ListSynchronizer::from_articles(Vec::new()).unwrap().is_empty());
}

#[test]
fn list_finds_its_entries() {
    let list = two_entries();
    assert!(list.contains(id(ID_A)));
    assert!(list.contains(id(ID_B)));
    assert!(!list.contains(id(ID_C)));
    assert_eq!(list.position(id(ID_A)), Some(0));
    assert_eq!(list.position(id(ID_B)), Some(1));
    assert_eq!(list.position(id(ID_C)), None);
}

#[test]
fn remove_takes_out_exactly_the_entry() {
    let mut list = ListSynchronizer::from_articles(vec![
        article(ID_A, "x"),
        article(ID_B, "y"),
        article(ID_C, "z"),
    ])
    .unwrap();
    assert_eq!(list.remove(id(ID_B)), Some(article(ID_B, "y")));
    assert_eq!(list.articles(), &vec![article(ID_A, "x"), article(ID_C, "z")]);
    assert_eq!(list.remove(id(ID_A)), Some(article(ID_A, "x")));
    assert_eq!(list.articles(), &vec![article(ID_C, "z")]);
    assert_eq!(list.remove(id(ID_C)), Some(article(ID_C, "z")));
    assert!(list.is_empty());
}

#[test]
fn remove_of_an_absent_identifier_changes_nothing() {
    let mut list = two_entries();
    assert_eq!(list.remove(id(ID_C)), None);
    assert_eq!(list.len(), 2);
    assert_eq!(list.articles(), &vec![article(ID_A, "x"), article(ID_B, "y")]);
}

#[test]
fn remove_twice_is_a_noop_the_second_time() {
    let mut list = two_entries();
    assert!(list.remove(id(ID_A)).is_some());
    assert_eq!(list.remove(id(ID_A)), None);
    assert_eq!(list.articles(), &vec![article(ID_B, "y")]);
}

#[test]
fn remove_from_the_empty_list_changes_nothing() {
    let mut list = ListSynchronizer::new();
    assert_eq!(list.remove(id(ID_A)), None);
    assert!(list.is_empty());
}

#[test]
fn list_dialog_asks_for_the_deletion_of_the_entry() {
    let mut dialog = DialogSignal::new();
    open_delete_dialog_action_list(&mut dialog, id(ID_B));
    assert!(dialog.is_open());
    assert_eq!(dialog.title_text(), "Delete Item?");
    assert_eq!(dialog.content_text(), "Do you really want to delete this Item?");
    assert_eq!(dialog.title_text(), DELETE_DIALOG_TITLE);
    assert_eq!(dialog.content_text(), DELETE_DIALOG_TEXT);
    assert_eq!(dialog.yes_text(), "yes");
    assert_eq!(dialog.no_text(), "no");
    assert_eq!(dialog.yes_action(), Some(DeleteCommand::Delete(id(ID_B))));
}

#[test]
fn list_dialog_has_no_decline_action() {
    let mut dialog = DialogSignal::new();
    open_delete_dialog_action_list(&mut dialog, id(ID_B));
    assert_eq!(dialog.no_action(), None);
    assert!(dialog.is_closed());
}

#[test]
fn successful_delete_removes_the_entry() {
    let mut list = two_entries();
    let result = delete_action_remove_from_list::<String>(&mut list, id(ID_A), Ok(()));
    assert_eq!(result, Ok(Some(article(ID_A, "x"))));
    assert_eq!(list.articles(), &vec![article(ID_B, "y")]);
}

#[test]
fn successful_delete_of_an_absent_entry_changes_nothing() {
    let mut list = two_entries();
    let result = delete_action_remove_from_list::<String>(&mut list, id(ID_C), Ok(()));
    assert_eq!(result, Ok(None));
    assert_eq!(list.articles(), &vec![article(ID_A, "x"), article(ID_B, "y")]);
}

#[test]
fn failed_delete_leaves_the_list_unchanged() {
    let mut list = two_entries();
    let result = delete_action_remove_from_list(&mut list, id(ID_A), Err("server said no"));
    assert_eq!(result, Err("server said no"));
    assert_eq!(list.len(), 2);
    assert_eq!(list.articles(), &vec![article(ID_A, "x"), article(ID_B, "y")]);
}

#[test]
fn overlapping_deletes_apply_in_the_order_they_resolve() {
    let mut list = ListSynchronizer::from_articles(vec![
        article(ID_A, "x"),
        article(ID_B, "y"),
        article(ID_C, "z"),
    ])
    .unwrap();
    // A was triggered first, C second; C resolves first.
    assert!(delete_action_remove_from_list::<String>(&mut list, id(ID_C), Ok(())).is_ok());
    assert_eq!(list.articles(), &vec![article(ID_A, "x"), article(ID_B, "y")]);
    assert!(delete_action_remove_from_list::<String>(&mut list, id(ID_A), Ok(())).is_ok());
    assert_eq!(list.articles(), &vec![article(ID_B, "y")]);
}

/// The list starts as `[A: x, B: y]`. The user asks to delete B and confirms;
/// the remote call succeeds.
#[test]
fn confirmed_delete_removes_the_entry_from_the_list() {
    let mut list = two_entries();
    let mut dialog = DialogSignal::new();

    open_delete_dialog_action_list(&mut dialog, id(ID_B));
    let command = dialog.yes_action();
    assert_eq!(command, Some(DeleteCommand::Delete(id(ID_B))));
    assert!(dialog.is_closed());

    let remote: Result<(), String> = Ok(());
    let result = delete_action_remove_from_list(&mut list, id(ID_B), remote);
    assert_eq!(result, Ok(Some(article(ID_B, "y"))));
    assert_eq!(list.articles(), &vec![article(ID_A, "x")]);
}

/// Same list. The user asks to delete B and declines: no command comes back,
/// so no remote call is made, and the list stays.
#[test]
fn declined_delete_keeps_the_list_and_asks_for_no_remote_call() {
    let list = two_entries();
    let mut dialog = DialogSignal::new();

    open_delete_dialog_action_list(&mut dialog, id(ID_B));
    let command = dialog.no_action();
    assert_eq!(command, None);
    assert!(dialog.is_closed());
    assert_eq!(dialog.yes_action(), None);

    assert_eq!(list.articles(), &vec![article(ID_A, "x"), article(ID_B, "y")]);
}

/// The user asks to delete A and confirms; the remote call fails. The list
/// stays, the error comes back, and the user can ask again.
#[test]
fn failed_delete_keeps_the_list_reports_and_allows_a_retry() {
    let mut list = two_entries();
    let mut dialog = DialogSignal::new();

    open_delete_dialog_action_list(&mut dialog, id(ID_A));
    assert_eq!(dialog.yes_action(), Some(DeleteCommand::Delete(id(ID_A))));
    let result =
        delete_action_remove_from_list(&mut list, id(ID_A), Err(String::from("network down")));
    assert_eq!(result, Err(String::from("network down")));
    assert_eq!(list.articles(), &vec![article(ID_A, "x"), article(ID_B, "y")]);

    open_delete_dialog_action_list(&mut dialog, id(ID_A));
    assert_eq!(dialog.yes_action(), Some(DeleteCommand::Delete(id(ID_A))));
    let result = delete_action_remove_from_list::<String>(&mut list, id(ID_A), Ok(()));
    assert_eq!(result, Ok(Some(article(ID_A, "x"))));
    assert_eq!(list.articles(), &vec![article(ID_B, "y")]);
}

/// Two requests before either is answered: only the second one's deletion
/// comes back.
#[test]
fn second_delete_request_wins() {
    let mut dialog = DialogSignal::new();
    open_delete_dialog_action_list(&mut dialog, id(ID_A));
    open_delete_dialog_action_list(&mut dialog, id(ID_B));
    assert_eq!(dialog.yes_action(), Some(DeleteCommand::Delete(id(ID_B))));
    assert_eq!(dialog.yes_action(), None);
}

#[test]
fn a_confirmation_asks_for_a_deletion_and_a_cancellation_for_none() {
    assert_eq!(DeleteCommand::Delete(id(ID_A)).deletion(), Some(id(ID_A)));
    assert_eq!(DeleteCommand::Delete(id(ID_B)).deletion(), Some(id(ID_B)));
    assert_eq!(DeleteCommand::Cancel.deletion(), None);
}
