//! A published article.

use vstd::prelude::*;

verus! {

/// One row of the `article` table.
#[derive(Clone, Debug, PartialEq, Eq)]
pub struct Model {
    /// Identifier, the 128 bits of a UUID.
    pub id: u128,
    /// Unique key used in links.
    pub slug: String,
    /// Headline.
    pub title: String,
    /// Short summary.
    pub description: String,
    /// Full text.
    pub body: String,
    /// The user who wrote the article.
    pub author_id: u128,
    /// Creation time in milliseconds since the Unix epoch.
    pub created_at: Option<i64>,
    /// Time of the last change in milliseconds since the Unix epoch.
    pub updated_at: Option<i64>,
}

/// The value of a row that contracts speak of: texts as sequences of characters.
pub ghost struct ModelView {
    pub id: u128,
    pub slug: Seq<char>,
    pub title: Seq<char>,
    pub description: Seq<char>,
    pub body: Seq<char>,
    pub author_id: u128,
    pub created_at: Option<i64>,
    pub updated_at: Option<i64>,
}

impl DeepView for Model {
    type V = ModelView;

    open spec fn deep_view(&self) -> ModelView {
        ModelView {
            id: self.id,
            slug: self.slug.deep_view(),
            title: self.title.deep_view(),
            description: self.description.deep_view(),
            body: self.body.deep_view(),
            author_id: self.author_id,
            created_at: self.created_at,
            updated_at: self.updated_at,
        }
    }
}

} // verus!
