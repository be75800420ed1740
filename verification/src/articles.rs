//! Bookmarked articles.

pub mod delete;
pub mod edit;

use crate::identifier::{is_random_v4, Identifier};
use vstd::prelude::*;
use vstd::std_specs::cmp::PartialEqSpecImpl;

verus! {

/// One bookmarked article: its identifier, the title shown in the list and
/// the address it points to.
#[derive(Debug)]
pub struct Article {
    pub uuid: Identifier,
    pub title: String,
    pub url: String,
}

/// An article as mathematical values.
pub struct ArticleView {
    pub uuid: Identifier,
    pub title: Seq<char>,
    pub url: Seq<char>,
}

impl View for Article {
    type V = ArticleView;

    open spec fn view(&self) -> ArticleView {
        ArticleView { uuid: self.uuid, title: self.title@, url: self.url@ }
    }
}

impl Article {
    /// The article with the given identifier, title and address.
    pub fn new(uuid: Identifier, title: String, url: String) -> (article: Self)
        ensures
            article@ == (ArticleView { uuid, title: title@, url: url@ }),
    {
        Article { uuid, title, url }
    }

    /// A new article with a fresh random identifier, which is neither all
    /// zeros nor all ones.
    pub fn from_parts(title: String, url: String) -> (article: Self)
        ensures
            article@.title == title@,
            article@.url == url@,
            is_random_v4(article@.uuid.bits),
            article@.uuid.bits != 0,
            article@.uuid.bits != u128::MAX,
    {
        Article { uuid: Identifier::new_v4(), title, url }
    }
}

impl Clone for Article {
    fn clone(&self) -> (article: Self)
        ensures
            article@ == self@,
    {
        Article { uuid: self.uuid, title: self.title.clone(), url: self.url.clone() }
    }
}

impl PartialEq for Article {
    fn eq(&self, other: &Self) -> (equal: bool) {
        self.uuid == other.uuid && self.title == other.title && self.url == other.url
    }
}

impl PartialEqSpecImpl for Article {
    open spec fn obeys_eq_spec() -> bool {
        true
    }

    open spec fn eq_spec(&self, other: &Self) -> bool {
        self@ == other@
    }
}

impl Eq for Article {

}

} // verus!
