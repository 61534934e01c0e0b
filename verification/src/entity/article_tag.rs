//! The link between an article and one of its tags.

use vstd::prelude::*;

verus! {

/// One row of the `article_tag` table.
#[derive(Clone, Debug, PartialEq, Eq)]
pub struct Model {
    /// The tagged article.
    pub article_id: u128,
    /// The tag.
    pub tag_id: u128,
}

/// The value of a [`Model`] that contracts speak of.
pub ghost struct ModelView {
    pub article_id: u128,
    pub tag_id: u128,
}

impl DeepView for Model {
    type V = ModelView;

    open spec fn deep_view(&self) -> ModelView {
        ModelView {
            article_id: self.article_id,
            tag_id: self.tag_id,
        }
    }
}

} // verus!
