//! A comment on an article.

use vstd::prelude::*;

verus! {

/// One row of the `comment` table.
#[derive(Clone, Debug, PartialEq, Eq)]
pub struct Model {
    /// Identifier, the 128 bits of a UUID.
    pub id: u128,
    /// Text of the comment.
    pub body: String,
    /// The user who wrote the comment.
    pub author_id: u128,
    /// The article that is commented on.
    pub article_id: u128,
    /// Creation time in milliseconds since the Unix epoch.
    pub created_at: Option<i64>,
    /// Time of the last change in milliseconds since the Unix epoch.
    pub updated_at: Option<i64>,
}

/// The value of a row that contracts speak of: texts as sequences of characters.
pub ghost struct ModelView {
    pub id: u128,
    pub body: Seq<char>,
    pub author_id: u128,
    pub article_id: u128,
    pub created_at: Option<i64>,
    pub updated_at: Option<i64>,
}

impl DeepView for Model {
    type V = ModelView;

    open spec fn deep_view(&self) -> ModelView {
        ModelView {
            id: self.id,
            body: self.body.deep_view(),
            author_id: self.author_id,
            article_id: self.article_id,
            created_at: self.created_at,
            updated_at: self.updated_at,
        }
    }
}

} // verus!
