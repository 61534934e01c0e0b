//! The relation that records which user favorited which article.

use vstd::prelude::*;

verus! {

/// One row of the `favorited_article` table.
#[derive(Clone, Debug, PartialEq, Eq)]
pub struct Model {
    /// The favorited article.
    pub article_id: u128,
    /// The user who favorited it.
    pub user_id: u128,
}

/// The value of a [`Model`] that contracts speak of.
pub ghost struct ModelView {
    pub article_id: u128,
    pub user_id: u128,
}

impl DeepView for Model {
    type V = ModelView;

    open spec fn deep_view(&self) -> ModelView {
        ModelView {
            article_id: self.article_id,
            user_id: self.user_id,
        }
    }
}

} // verus!
