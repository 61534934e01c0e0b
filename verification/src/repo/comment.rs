//! Comments as the API shows them.

use crate::repo::user::{Profile, ProfileView};
use vstd::prelude::*;

verus! {

/// A comment together with its author.
#[derive(Clone, Debug, PartialEq, Eq)]
pub struct CommentWithAuthor {
    pub id: u128,
    pub body: String,
    pub created_at: Option<i64>,
    pub updated_at: Option<i64>,
    pub author: Profile,
}

/// The value of [`CommentWithAuthor`] that contracts speak of.
pub ghost struct CommentWithAuthorView {
    pub id: u128,
    pub body: Seq<char>,
    pub created_at: Option<i64>,
    pub updated_at: Option<i64>,
    pub author: ProfileView,
}

impl DeepView for CommentWithAuthor {
    type V = CommentWithAuthorView;

    open spec fn deep_view(&self) -> CommentWithAuthorView {
        CommentWithAuthorView {
            id: self.id.deep_view(),
            body: self.body.deep_view(),
            created_at: self.created_at.deep_view(),
            updated_at: self.updated_at.deep_view(),
            author: self.author.deep_view(),
        }
    }
}

} // verus!
