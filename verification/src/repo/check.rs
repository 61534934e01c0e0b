//! Conditions on a row that a query can test.

use vstd::prelude::*;

verus! {

/// A condition on an article together with its author, or on a user.
#[derive(Clone, Debug, PartialEq, Eq)]
pub enum Check {
    /// Holds of every row.
    Always,
    /// Holds of no row.
    Never,
    /// The name of the user, or of the author, is like the text.
    NamedLike(String),
    /// The article has a tag whose name is like the text.
    TaggedLike(String),
    /// A user whose name is like the text has favorited the article.
    FavoritedByNamedLike(String),
    /// The given user has favorited the article.
    FavoritedBy(u128),
    /// The given user follows the user, or the author.
    FollowedBy(u128),
}

/// The value of [`Check`] that contracts speak of.
pub ghost enum CheckView {
    Always,
    Never,
    NamedLike(Seq<char>),
    TaggedLike(Seq<char>),
    FavoritedByNamedLike(Seq<char>),
    FavoritedBy(u128),
    FollowedBy(u128),
}

impl DeepView for Check {
    type V = CheckView;

    open spec fn deep_view(&self) -> CheckView {
        match self {
            Check::Always => CheckView::Always,
            Check::Never => CheckView::Never,
            Check::NamedLike(text) => CheckView::NamedLike(text@),
            Check::TaggedLike(text) => CheckView::TaggedLike(text@),
            Check::FavoritedByNamedLike(text) => CheckView::FavoritedByNamedLike(text@),
            Check::FavoritedBy(id) => CheckView::FavoritedBy(*id),
            Check::FollowedBy(id) => CheckView::FollowedBy(*id),
        }
    }
}

} // verus!
