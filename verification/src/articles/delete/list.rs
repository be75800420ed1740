//! The article list and how a confirmed deletion changes it.

use crate::articles::delete::{DeleteCommand, DELETE_DIALOG_TEXT, DELETE_DIALOG_TITLE};
use crate::articles::{Article, ArticleView};
use crate::dialog::{
    confirm_action, decline_action, opened, yes_request, DialogSignal, DialogState,
    DialogStateView,
};
use crate::identifier::Identifier;
use vstd::prelude::*;

verus! {

/// The articles of a vector as mathematical values, in order.
pub open spec fn article_views(articles: Seq<Article>) -> Seq<ArticleView> {
    articles.map_values(|article: Article| article@)
}

/// No identifier occurs twice in `items`.
pub open spec fn ids_unique(items: Seq<ArticleView>) -> bool {
    forall|i: int, j: int| 0 <= i < j < items.len() ==> items[i].uuid != items[j].uuid
}

/// Some entry of `items` has the identifier `id`.
pub open spec fn contains_id(items: Seq<ArticleView>, id: Identifier) -> bool {
    exists|i: int| 0 <= i < items.len() && items[i].uuid == id
}

/// The entries of `items` whose identifier is `id`, in order.
pub open spec fn entries_with(items: Seq<ArticleView>, id: Identifier) -> Seq<ArticleView> {
    items.filter(|article: ArticleView| article.uuid == id)
}

/// The entry of `items` with the identifier `id`, if there is one.
pub open spec fn entry_with(items: Seq<ArticleView>, id: Identifier) -> Option<ArticleView> {
    if entries_with(items, id).len() > 0 {
        Some(entries_with(items, id)[0])
    } else {
        None
    }
}

/// `items` without the entries whose identifier is `id`; the others stay in
/// their order.
pub open spec fn without(items: Seq<ArticleView>, id: Identifier) -> Seq<ArticleView> {
    items.filter(|article: ArticleView| article.uuid != id)
}

/// The list after a deletion of `id` resolved with `outcome`: without that
/// entry if the deletion succeeded, untouched if it failed.
pub open spec fn after_delete<E>(
    items: Seq<ArticleView>,
    id: Identifier,
    outcome: Result<(), E>,
) -> Seq<ArticleView> {
    match outcome {
        Ok(_) => without(items, id),
        Err(_) => items,
    }
}

/// The in-memory article list: entries in display order, no identifier
/// twice.
///
/// The list is filled once from what the server returned and afterwards only
/// changed by deletions that the server confirmed, one entry at a time. It is
/// never fetched again.
#[derive(Debug)]
pub struct ListSynchronizer {
    items: Vec<Article>,
}

impl View for ListSynchronizer {
    type V = Seq<ArticleView>;

    closed spec fn view(&self) -> Seq<ArticleView> {
        article_views(self.items@)
    }
}

impl ListSynchronizer {
    #[verifier::type_invariant]
    spec fn identifiers_are_unique(&self) -> bool {
        ids_unique(article_views(self.items@))
    }

    /// The empty list.
    pub fn new() -> (list: Self)
        ensures
            list@ == Seq::<ArticleView>::empty(),
    {
        ListSynchronizer { items: Vec::new() }
    }

    /// The list of `articles` in their order, or `None` if two of them share
    /// an identifier.
    pub fn from_articles(articles: Vec<Article>) -> (list: Option<Self>)
        ensures
            list is Some <==> ids_unique(article_views(articles@)),
            list matches Some(l) ==> l@ == article_views(articles@),
    {
        let ghost views = article_views(articles@);
        let n = articles.len();
        let mut j: usize = 0;
        while j < n
            invariant
                n == articles.len(),
                views == article_views(articles@),
                j <= n,
                forall|a: int, b: int| 0 <= a < b < j ==> views[a].uuid != views[b].uuid,
            decreases n - j,
        {
            let mut i: usize = 0;
            while i < j
                invariant
                    n == articles.len(),
                    views == article_views(articles@),
                    i <= j < n,
                    forall|a: int| 0 <= a < i ==> views[a].uuid != views[j as int].uuid,
                decreases j - i,
            {
                if articles[i].uuid == articles[j].uuid {
                    assert(views[i as int].uuid == views[j as int].uuid);
                    return None;
                }
                i += 1;
            }
            j += 1;
        }
        Some(ListSynchronizer { items: articles })
    }

    /// How many entries the list holds.
    pub fn len(&self) -> (len: usize)
        ensures
            len == self@.len(),
    {
        self.items.len()
    }

    /// Whether the list holds no entry.
    pub fn is_empty(&self) -> (empty: bool)
        ensures
            empty == (self@.len() == 0),
    {
        self.items.len() == 0
    }

    /// The entries in display order. No identifier occurs twice among them.
    pub fn articles(&self) -> (articles: &Vec<Article>)
        ensures
            article_views(articles@) == self@,
            ids_unique(self@),
    {
        proof {
            use_type_invariant(self);
        }
        &self.items
    }

    /// Whether the list holds an entry with the identifier `id`.
    pub fn contains(&self, id: Identifier) -> (found: bool)
        ensures
            found == contains_id(self@, id),
    {
        self.position(id).is_some()
    }

    /// Where the entry with the identifier `id` stands, if the list holds it.
    pub fn position(&self, id: Identifier) -> (position: Option<usize>)
        ensures
            position is Some <==> contains_id(self@, id),
            position matches Some(i) ==> {
                &&& i < self@.len()
                &&& self@[i as int].uuid == id
                &&& forall|k: int| 0 <= k < self@.len() && k != i ==> self@[k].uuid != id
            },
    {
        proof {
            use_type_invariant(self);
        }
        let n = self.items.len();
        let mut i: usize = 0;
        while i < n
            invariant
                n == self.items.len(),
                i <= n,
                ids_unique(self@),
                forall|k: int| 0 <= k < i ==> self@[k].uuid != id,
            decreases n - i,
        {
            if self.items[i].uuid == id {
                assert(self@[i as int].uuid == id);
                return Some(i);
            }
            i += 1;
        }
        None
    }

    /// Takes the entry with the identifier `id` out of the list and returns
    /// it. All other entries stay, in their order. If the list holds no such
    /// entry it is left as it is and `None` is returned.
    pub fn remove(&mut self, id: Identifier) -> (removed: Option<Article>)
        ensures
            final(self)@ == without(old(self)@, id),
            match removed {
                Some(article) => Some(article@) == entry_with(old(self)@, id),
                None => entry_with(old(self)@, id) is None,
            },
            removed is Some <==> contains_id(old(self)@, id),
            !contains_id(old(self)@, id) ==> final(self)@ == old(self)@,
            contains_id(old(self)@, id) ==> final(self)@.len() == old(self)@.len() - 1,
    {
        proof {
            use_type_invariant(&*self);
        }
        let ghost before = self@;
        match self.position(id) {
            Some(i) => {
                let mut items: Vec<Article> = Vec::new();
                std::mem::swap(&mut items, &mut self.items);
                let article = items.remove(i);
                proof {
                    assert(article_views(items@) =~= before.remove(i as int));
                    lemma_without_present(before, id, i as int);
                    lemma_entries_with_present(before, id, i as int);
                }
                self.items = items;
                Some(article)
            },
            None => {
                proof {
                    lemma_without_absent(before, id);
                    lemma_entries_with_absent(before, id);
                }
                None
            },
        }
    }
}

/// The request that `open_delete_dialog_action_list` puts into the dialog
/// for the entry `uuid`.
pub open spec fn list_delete_request(uuid: Identifier) -> DialogStateView<DeleteCommand> {
    yes_request(DeleteCommand::Delete(uuid), DELETE_DIALOG_TITLE@, DELETE_DIALOG_TEXT@)
}

/// Opens the dialog that asks whether to delete the list entry `uuid`. Its
/// confirm button stands for the deletion of that entry; its decline button
/// does nothing.
pub fn open_delete_dialog_action_list(dialog: &mut DialogSignal<DeleteCommand>, uuid: Identifier)
    ensures
        final(dialog)@ == opened(old(dialog)@, list_delete_request(uuid)),
{
    dialog.open(
        DialogState::yes(DeleteCommand::Delete(uuid), DELETE_DIALOG_TITLE, DELETE_DIALOG_TEXT),
    );
}

/// Applies the outcome of the remote deletion of `uuid` to the list.
///
/// After a success the entry is taken out of the list and returned (or
/// `None`, if the list did not hold it). After a failure the list is left
/// exactly as it was and the error is handed back to the caller.
pub fn delete_action_remove_from_list<E>(
    articles: &mut ListSynchronizer,
    uuid: Identifier,
    outcome: Result<(), E>,
) -> (result: Result<Option<Article>, E>)
    ensures
        final(articles)@ == after_delete(old(articles)@, uuid, outcome),
        outcome is Err ==> final(articles)@ == old(articles)@,
        match (outcome, result) {
            (Ok(_), Ok(Some(article))) => Some(article@) == entry_with(old(articles)@, uuid),
            (Ok(_), Ok(None)) => entry_with(old(articles)@, uuid) is None,
            (Err(error), Err(returned)) => returned == error,
            _ => false,
        },
{
    match outcome {
        Ok(_) => Ok(articles.remove(uuid)),
        Err(error) => Err(error),
    }
}

/// Confirming the request for `uuid` hands back the deletion of exactly that
/// entry; declining it hands back nothing, so that no remote call is made
/// and the list stays as it is.
pub proof fn lemma_list_request_asks_for_the_requested_entry(
    slot: Option<DialogStateView<DeleteCommand>>,
    uuid: Identifier,
)
    ensures
        confirm_action(opened(slot, list_delete_request(uuid))) == Some(
            DeleteCommand::Delete(uuid),
        ),
        decline_action(opened(slot, list_delete_request(uuid))) is None,
{
}

/// A successful deletion of an entry that the list holds takes out exactly
/// that entry: the list is one shorter, the entry is gone, and every other
/// entry is where it was relative to the others.
pub proof fn lemma_successful_delete_removes_exactly<E>(
    items: Seq<ArticleView>,
    id: Identifier,
    i: int,
    outcome: Result<(), E>,
)
    requires
        ids_unique(items),
        0 <= i < items.len(),
        items[i].uuid == id,
        outcome is Ok,
    ensures
        after_delete(items, id, outcome) == items.remove(i),
        after_delete(items, id, outcome).len() == items.len() - 1,
        !contains_id(after_delete(items, id, outcome), id),
        forall|k: int| 0 <= k < i ==> after_delete(items, id, outcome)[k] == items[k],
        forall|k: int| i < k < items.len() ==> after_delete(items, id, outcome)[k - 1] == items[k],
        ids_unique(after_delete(items, id, outcome)),
{
    lemma_without_present(items, id, i);
}

/// A successful deletion of an entry that the list does not hold leaves the
/// list unchanged, in length and in order.
pub proof fn lemma_successful_delete_of_absent_changes_nothing<E>(
    items: Seq<ArticleView>,
    id: Identifier,
    outcome: Result<(), E>,
)
    requires
        !contains_id(items, id),
        outcome is Ok,
    ensures
        after_delete(items, id, outcome) == items,
{
    lemma_without_absent(items, id);
}

/// A failed deletion leaves the list exactly as it was, whatever it holds.
pub proof fn lemma_failed_delete_changes_nothing<E>(
    items: Seq<ArticleView>,
    id: Identifier,
    outcome: Result<(), E>,
)
    requires
        outcome is Err,
    ensures
        after_delete(items, id, outcome) == items,
{
}

/// Removing an identifier that the list does not hold leaves the list
/// unchanged: same entries, same order, same length.
pub proof fn lemma_without_absent(items: Seq<ArticleView>, id: Identifier)
    requires
        !contains_id(items, id),
    ensures
        without(items, id) == items,
    decreases items.len(),
{
    reveal(Seq::filter);
    if items.len() > 0 {
        let rest = items.drop_last();
        assert(items.last().uuid != id);
        assert(!contains_id(rest, id)) by {
            if contains_id(rest, id) {
                let k = choose|k: int| 0 <= k < rest.len() && rest[k].uuid == id;
                assert(items[k].uuid == id);
            }
        }
        lemma_without_absent(rest, id);
    }
}

/// In a list with unique identifiers, removing the identifier of the entry
/// at position `i` takes out exactly that entry and no other.
pub proof fn lemma_without_present(items: Seq<ArticleView>, id: Identifier, i: int)
    requires
        ids_unique(items),
        0 <= i < items.len(),
        items[i].uuid == id,
    ensures
        without(items, id) == items.remove(i),
        without(items, id).len() == items.len() - 1,
        !contains_id(without(items, id), id),
        ids_unique(without(items, id)),
    decreases items.len(),
{
    reveal(Seq::filter);
    let rest = items.drop_last();
    if i == items.len() - 1 {
        // The entry is the last one: no earlier entry shares its identifier.
        assert(!contains_id(rest, id)) by {
            if contains_id(rest, id) {
                let k = choose|k: int| 0 <= k < rest.len() && rest[k].uuid == id;
                assert(items[k].uuid == items[i].uuid);
            }
        }
        lemma_without_absent(rest, id);
    } else {
        // The entry stands earlier: the last one stays, and the entries
        // before the last are a shorter list with unique identifiers.
        assert(items.last().uuid != items[i].uuid);
        assert(ids_unique(rest));
        lemma_without_present(rest, id, i);
    }
    let left = items.remove(i);
    assert(without(items, id) == left);
    assert(!contains_id(left, id)) by {
        if contains_id(left, id) {
            let k = choose|k: int| 0 <= k < left.len() && left[k].uuid == id;
            let k0 = if k < i { k } else { k + 1 };
            assert(items[k0].uuid == items[i].uuid);
        }
    }
    assert forall|a: int, b: int| 0 <= a < b < left.len() implies left[a].uuid
        != left[b].uuid by {
        let a0 = if a < i { a } else { a + 1 };
        let b0 = if b < i { b } else { b + 1 };
        assert(items[a0].uuid != items[b0].uuid);
    }
}

/// A list that does not hold `id` has no entry with that identifier.
pub proof fn lemma_entries_with_absent(items: Seq<ArticleView>, id: Identifier)
    requires
        !contains_id(items, id),
    ensures
        entries_with(items, id).len() == 0,
        entry_with(items, id) is None,
{
    let pred = |article: ArticleView| article.uuid == id;
    assert forall|k: int| 0 <= k < items.len() implies !pred(#[trigger] items[k]) by {
        assert(items[k].uuid != id);
    }
    items.lemma_all_neg_filter_empty(pred);
}

/// In a list with unique identifiers, the entry with the identifier of the
/// entry at position `i` is that entry.
pub proof fn lemma_entries_with_present(items: Seq<ArticleView>, id: Identifier, i: int)
    requires
        ids_unique(items),
        0 <= i < items.len(),
        items[i].uuid == id,
    ensures
        entries_with(items, id) == seq![items[i]],
        entry_with(items, id) == Some(items[i]),
    decreases items.len(),
{
    reveal(Seq::filter);
    let rest = items.drop_last();
    if i == items.len() - 1 {
        assert(!contains_id(rest, id)) by {
            if contains_id(rest, id) {
                let k = choose|k: int| 0 <= k < rest.len() && rest[k].uuid == id;
                assert(items[k].uuid == items[i].uuid);
            }
        }
        lemma_entries_with_absent(rest, id);
    } else {
        assert(items.last().uuid != items[i].uuid);
        assert(ids_unique(rest));
        lemma_entries_with_present(rest, id, i);
    }
}

} // verus!
