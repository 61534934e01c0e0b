//! Tags: which of the names in a request are stored and looked up.

use crate::entity::tag;
use vstd::prelude::*;

verus! {

/// The names that are not empty, in their order.
pub open spec fn non_empty(names: Seq<Seq<char>>) -> Seq<Seq<char>>
    decreases names.len(),
{
    if names.len() == 0 {
        names
    } else if names.last().len() == 0 {
        non_empty(names.drop_last())
    } else {
        non_empty(names.drop_last()).push(names.last())
    }
}

/// The tags whose name is not empty, in their order.
pub open spec fn named(tags: Seq<tag::ModelView>) -> Seq<tag::ModelView>
    decreases tags.len(),
{
    if tags.len() == 0 {
        tags
    } else if tags.last().tag_name.len() == 0 {
        named(tags.drop_last())
    } else {
        named(tags.drop_last()).push(tags.last())
    }
}

/// The names to look up among `names`, or nothing where no name is left.
pub open spec fn sought(names: Seq<Seq<char>>) -> Option<Seq<Seq<char>>> {
    if non_empty(names).len() == 0 {
        None
    } else {
        Some(non_empty(names))
    }
}

/// The tags to store: those of `tags` that have a name. A tag whose name
/// is already taken is to be passed over when storing, and nothing is to
/// be stored where the list is empty.
pub fn create_tags(tags: Vec<tag::Model>) -> (rows: Vec<tag::Model>)
    ensures
        rows.deep_view() == named(tags.deep_view()),
{
    let mut rows: Vec<tag::Model> = Vec::new();
    let ghost all = tags.deep_view();
    assert(all.take(0) =~= Seq::<tag::ModelView>::empty());
    for row in it: tags.into_iter()
        invariant
            it.seq() == tags@,
            all == tags.deep_view(),
            rows.deep_view() == named(all.take(it.index())),
    {
        let ghost i = it.index();
        let ghost before = rows.deep_view();
        assert(all.take(i + 1).drop_last() =~= all.take(i));
        assert(all.take(i + 1).last() == row.deep_view());
        if !row.tag_name.as_str().is_empty() {
            rows.push(row);
            assert(rows.deep_view() =~= before.push(all[i]));
        }
    }
    assert(all.take(all.len() as int) =~= all);
    rows
}

/// The names to look up: those of `tags` that are not empty. Where none
/// is left there is nothing to look up, and no identifier to be found.
pub fn get_tags_ids(tags: Vec<String>) -> (names: Option<Vec<String>>)
    ensures
        names.deep_view() == sought(tags.deep_view()),
{
    let mut names: Vec<String> = Vec::new();
    let ghost all = tags.deep_view();
    assert(all.take(0) =~= Seq::<Seq<char>>::empty());
    for name in it: tags.into_iter()
        invariant
            it.seq() == tags@,
            all == tags.deep_view(),
            names.deep_view() == non_empty(all.take(it.index())),
    {
        let ghost i = it.index();
        let ghost before = names.deep_view();
        assert(all.take(i + 1).drop_last() =~= all.take(i));
        assert(all.take(i + 1).last() == name@);
        if !name.as_str().is_empty() {
            names.push(name);
            assert(names.deep_view() =~= before.push(all[i]));
        }
    }
    assert(all.take(all.len() as int) =~= all);
    if names.len() == 0 {
        None
    } else {
        Some(names)
    }
}

/// None of the names that are kept is empty, and no more names are kept
/// than were given.
pub proof fn lemma_non_empty(names: Seq<Seq<char>>)
    ensures
        non_empty(names).len() <= names.len(),
        forall|i: int| 0 <= i < non_empty(names).len() ==> (#[trigger] non_empty(names)[i]).len() > 0,
    decreases names.len(),
{
    if names.len() > 0 {
        lemma_non_empty(names.drop_last());
    }
}

/// Names from which the empty ones were taken out stay as they are when
/// that is done again.
pub proof fn lemma_non_empty_twice(names: Seq<Seq<char>>)
    ensures
        non_empty(non_empty(names)) == non_empty(names),
    decreases names.len(),
{
    if names.len() > 0 {
        lemma_non_empty_twice(names.drop_last());
        if names.last().len() > 0 {
            let kept = non_empty(names.drop_last());
            assert(kept.push(names.last()).drop_last() =~= kept);
        }
    }
}

} // verus!
