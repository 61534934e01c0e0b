//! A topic label.

use vstd::prelude::*;

verus! {

/// One row of the `tag` table.
#[derive(Clone, Debug, PartialEq, Eq)]
pub struct Model {
    /// Identifier, the 128 bits of a UUID.
    pub id: u128,
    /// Unique name of the tag.
    pub tag_name: String,
}

/// The value of a row that contracts speak of: texts as sequences of characters.
pub ghost struct ModelView {
    pub id: u128,
    pub tag_name: Seq<char>,
}

impl DeepView for Model {
    type V = ModelView;

    open spec fn deep_view(&self) -> ModelView {
        ModelView {
            id: self.id,
            tag_name: self.tag_name.deep_view(),
        }
    }
}

} // verus!
