//! The list of all tags.

use vstd::prelude::*;

verus! {

/// The names of all tags.
#[derive(Clone, Debug, PartialEq, Eq)]
pub struct TagsDto {
    pub tags: Vec<String>,
}

/// The value of [`TagsDto`] that contracts speak of.
pub ghost struct TagsDtoView {
    pub tags: Seq<Seq<char>>,
}

impl DeepView for TagsDto {
    type V = TagsDtoView;

    open spec fn deep_view(&self) -> TagsDtoView {
        TagsDtoView {
            tags: self.tags.deep_view(),
        }
    }
}

/// The answer to a request for all tags.
pub fn list_tags(tags: Vec<String>) -> (dto: TagsDto)
    ensures
        dto.tags == tags,
{
    TagsDto { tags }
}

} // verus!
