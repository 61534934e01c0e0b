//! Checks on the relations that a fixture names by row numbers.

use crate::testing::error::{BldrErr, BldrErrView};
use crate::testing::operation::{accepts, rows_for, rows_of, Operation};
use vstd::prelude::*;

verus! {

/// Whether every number of `rels` names one of `high` rows, counted from one.
pub open spec fn all_within(rels: Seq<usize>, high: nat) -> bool {
    forall|i: int| 0 <= i < rels.len() ==> 1 <= #[trigger] rels[i] <= high
}

/// Whether the first number of every pair names one of `high` rows.
pub open spec fn firsts_within(rels: Seq<(usize, usize)>, high: nat) -> bool {
    forall|i: int| 0 <= i < rels.len() ==> 1 <= (#[trigger] rels[i]).0 <= high
}

/// Whether the second number of every pair names one of `high` rows.
pub open spec fn seconds_within(rels: Seq<(usize, usize)>, high: nat) -> bool {
    forall|i: int| 0 <= i < rels.len() ==> 1 <= (#[trigger] rels[i]).1 <= high
}

/// Why a table whose rows each refer to one row of `dep` is refused, if it
/// is: an empty list first, then a table that is not set up far enough,
/// then a number out of range.
pub open spec fn singles_refusal<A>(
    op: Operation<Seq<usize>>,
    dep: Option<Operation<Seq<A>>>,
    name: Seq<char>,
    order: BldrErrView,
) -> Option<BldrErrView> {
    if op.payload() matches Some(rels) && rels.len() == 0 {
        Some(BldrErrView::EmptyRel)
    } else if !accepts(op, dep) {
        Some(order)
    } else if op.payload() matches Some(rels) && !all_within(
        rels,
        rows_for(op, dep).unwrap().len(),
    ) {
        Some(BldrErrView::OutOfRange(name, rows_for(op, dep).unwrap().len() as usize))
    } else {
        None
    }
}

/// Why a table whose rows each refer to one row of `first` and one of
/// `second` is refused, if it is: an empty list first, then a table that is
/// not set up far enough, then a first number out of range, then a second.
pub open spec fn pairs_refusal<A, B>(
    op: Operation<Seq<(usize, usize)>>,
    first: Option<Operation<Seq<A>>>,
    second: Option<Operation<Seq<B>>>,
    first_name: Seq<char>,
    second_name: Seq<char>,
    order: BldrErrView,
) -> Option<BldrErrView> {
    if op.payload() matches Some(rels) && rels.len() == 0 {
        Some(BldrErrView::EmptyRel)
    } else if !(accepts(op, first) && accepts(op, second)) {
        Some(order)
    } else if op.payload() matches Some(rels) && !firsts_within(
        rels,
        rows_for(op, first).unwrap().len(),
    ) {
        Some(BldrErrView::OutOfRange(first_name, rows_for(op, first).unwrap().len() as usize))
    } else if op.payload() matches Some(rels) && !seconds_within(
        rels,
        rows_for(op, second).unwrap().len(),
    ) {
        Some(BldrErrView::OutOfRange(second_name, rows_for(op, second).unwrap().len() as usize))
    } else {
        None
    }
}

/// What a check of a table with one dependency returns: the refusal, if
/// there is one, else the numbers with the rows they refer to, or nothing
/// where only the table is asked for.
pub open spec fn singles_checked<A: DeepView>(
    op: &Operation<Vec<usize>>,
    dep: &Option<Operation<Vec<A>>>,
    refusal: Option<BldrErrView>,
    res: Result<Option<(&Vec<usize>, &Vec<A>)>, BldrErr>,
) -> bool {
    match refusal {
        Some(err) => res matches Err(e) && e.deep_view() == err,
        None => res matches Ok(found) && match found {
            Some((rels, rows)) => {
                &&& op.deep_view().payload() == Some(rels@)
                &&& rows_for(op.deep_view(), dep.deep_view()) == Some(rows.deep_view())
                &&& all_within(rels@, rows@.len())
            },
            None => *op == Operation::<Vec<usize>>::Migration,
        },
    }
}

/// What a check of a table with two dependencies returns: the refusal, if
/// there is one, else the pairs with the rows they refer to, or nothing
/// where only the table is asked for.
pub open spec fn pairs_checked<A: DeepView, B: DeepView>(
    op: &Operation<Vec<(usize, usize)>>,
    first: &Option<Operation<Vec<A>>>,
    second: &Option<Operation<Vec<B>>>,
    refusal: Option<BldrErrView>,
    res: Result<Option<(&Vec<(usize, usize)>, &Vec<A>, &Vec<B>)>, BldrErr>,
) -> bool {
    match refusal {
        Some(err) => res matches Err(e) && e.deep_view() == err,
        None => res matches Ok(found) && match found {
            Some((rels, a, b)) => {
                &&& op.deep_view().payload() == Some(rels@)
                &&& rows_for(op.deep_view(), first.deep_view()) == Some(a.deep_view())
                &&& rows_for(op.deep_view(), second.deep_view()) == Some(b.deep_view())
                &&& firsts_within(rels@, a@.len())
                &&& seconds_within(rels@, b@.len())
            },
            None => *op == Operation::<Vec<(usize, usize)>>::Migration,
        },
    }
}

/// Tests whether every number lies in `1..=high`.
pub fn numbers_in_range(rels: &Vec<usize>, high: usize) -> (ok: bool)
    ensures
        ok == all_within(rels@, high as nat),
{
    let mut i: usize = 0;
    while i < rels.len()
        invariant
            i <= rels.len(),
            all_within(rels@.take(i as int), high as nat),
        decreases rels.len() - i,
    {
        if rels[i] < 1 || rels[i] > high {
            return false;
        }
        assert forall|j: int| 0 <= j < rels@.take(i + 1).len() implies 1 <= #[trigger] rels@.take(
            i + 1,
        )[j] <= high by {
            if j < i {
                assert(rels@.take(i as int)[j] == rels@[j]);
            }
        }
        i += 1;
    }
    assert(rels@.take(i as int) == rels@);
    true
}

/// Tests whether the first number of every pair lies in `1..=high`.
pub fn firsts_in_range(rels: &Vec<(usize, usize)>, high: usize) -> (ok: bool)
    ensures
        ok == firsts_within(rels@, high as nat),
{
    let mut i: usize = 0;
    while i < rels.len()
        invariant
            i <= rels.len(),
            firsts_within(rels@.take(i as int), high as nat),
        decreases rels.len() - i,
    {
        if rels[i].0 < 1 || rels[i].0 > high {
            return false;
        }
        assert forall|j: int| 0 <= j < rels@.take(i + 1).len() implies 1 <= (#[trigger] rels@.take(
            i + 1,
        )[j]).0 <= high by {
            if j < i {
                assert(rels@.take(i as int)[j] == rels@[j]);
            }
        }
        i += 1;
    }
    assert(rels@.take(i as int) == rels@);
    true
}

/// Tests whether the second number of every pair lies in `1..=high`.
pub fn seconds_in_range(rels: &Vec<(usize, usize)>, high: usize) -> (ok: bool)
    ensures
        ok == seconds_within(rels@, high as nat),
{
    let mut i: usize = 0;
    while i < rels.len()
        invariant
            i <= rels.len(),
            seconds_within(rels@.take(i as int), high as nat),
        decreases rels.len() - i,
    {
        if rels[i].1 < 1 || rels[i].1 > high {
            return false;
        }
        assert forall|j: int| 0 <= j < rels@.take(i + 1).len() implies 1 <= (#[trigger] rels@.take(
            i + 1,
        )[j]).1 <= high by {
            if j < i {
                assert(rels@.take(i as int)[j] == rels@[j]);
            }
        }
        i += 1;
    }
    assert(rels@.take(i as int) == rels@);
    true
}

/// The failure for a table that was asked for before one it depends on.
pub fn wrong_order(before: &str, after: &str) -> (err: BldrErr)
    ensures
        err.deep_view() == BldrErrView::WrongOrder(before@, after@),
{
    BldrErr::WrongOrder(String::from_str(before), String::from_str(after))
}

/// The failure for a number of `entity` that lies outside `1..=high`.
pub fn out_of_range(entity: &str, high: usize) -> (err: BldrErr)
    ensures
        err.deep_view() == BldrErrView::OutOfRange(entity@, high),
{
    BldrErr::OutOfRange(String::from_str(entity), high)
}

/// Checks a request for a table whose rows each refer to one row of `dep`.
/// On success returns the numbers together with the rows they refer to, or
/// nothing where only the table is asked for.
pub fn check_singles<'a, A: DeepView>(
    op: &'a Operation<Vec<usize>>,
    dep: &'a Option<Operation<Vec<A>>>,
    name: &str,
    before: &str,
    table: &str,
) -> (res: Result<Option<(&'a Vec<usize>, &'a Vec<A>)>, BldrErr>)
    ensures
        singles_checked(
            op,
            dep,
            singles_refusal(
                op.deep_view(),
                dep.deep_view(),
                name@,
                BldrErrView::WrongOrder(before@, table@),
            ),
            res,
        ),
{
    match op {
        Operation::Insert(rels) | Operation::Create(rels) => {
            assert(rels.deep_view() =~= rels@);
            if rels.len() == 0 {
                return Err(BldrErr::EmptyRel);
            }
            match rows_of(op, dep) {
                Some(rows) => {
                    if !numbers_in_range(rels, rows.len()) {
                        return Err(out_of_range(name, rows.len()));
                    }
                    Ok(Some((rels, rows)))
                },
                None => Err(wrong_order(before, table)),
            }
        },
        Operation::Migration => {
            if dep.is_some() {
                Ok(None)
            } else {
                Err(wrong_order(before, table))
            }
        },
    }
}

/// Checks a request for a table whose rows each refer to one row of
/// `first` and one of `second`. On success returns the pairs together with
/// the rows they refer to, or nothing where only the table is asked for.
pub fn check_pairs<'a, A: DeepView, B: DeepView>(
    op: &'a Operation<Vec<(usize, usize)>>,
    first: &'a Option<Operation<Vec<A>>>,
    second: &'a Option<Operation<Vec<B>>>,
    first_name: &str,
    second_name: &str,
    before: &str,
    table: &str,
) -> (res: Result<Option<(&'a Vec<(usize, usize)>, &'a Vec<A>, &'a Vec<B>)>, BldrErr>)
    ensures
        pairs_checked(
            op,
            first,
            second,
            pairs_refusal(
                op.deep_view(),
                first.deep_view(),
                second.deep_view(),
                first_name@,
                second_name@,
                BldrErrView::WrongOrder(before@, table@),
            ),
            res,
        ),
{
    match op {
        Operation::Insert(rels) | Operation::Create(rels) => {
            assert(rels.deep_view() =~= rels@);
            if rels.len() == 0 {
                return Err(BldrErr::EmptyRel);
            }
            match (rows_of(op, first), rows_of(op, second)) {
                (Some(a), Some(b)) => {
                    if !firsts_in_range(rels, a.len()) {
                        return Err(out_of_range(first_name, a.len()));
                    }
                    if !seconds_in_range(rels, b.len()) {
                        return Err(out_of_range(second_name, b.len()));
                    }
                    Ok(Some((rels, a, b)))
                },
                _ => Err(wrong_order(before, table)),
            }
        },
        Operation::Migration => {
            if first.is_some() && second.is_some() {
                Ok(None)
            } else {
                Err(wrong_order(before, table))
            }
        },
    }
}

} // verus!
