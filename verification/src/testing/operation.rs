//! What a fixture asks for one table.

use vstd::prelude::*;

verus! {

/// Number of rows to generate.
pub type Qty = usize;

/// For each article, the number of its author among the users, from one.
pub type RelUser = Vec<usize>;

/// For each comment, the numbers of its author and of its article, from one.
pub type RelAuthorArticle = Vec<(usize, usize)>;

/// Pairs of an article number and a tag number, from one.
pub type RelArticleTag = Vec<(usize, usize)>;

/// Pairs of a user number and the number of a user who follows them, from one.
pub type RelUserFollower = Vec<(usize, usize)>;

/// Pairs of an article number and the number of a user who favorited it, from one.
pub type RelArticleUser = Vec<(usize, usize)>;

/// What is to happen with one table.
#[derive(Debug, Clone, PartialEq)]
pub enum Operation<T> {
    /// Create the table and store the rows.
    Insert(T),
    /// Create the table and generate the rows without storing them.
    Create(T),
    /// Create the table only.
    Migration,
}

impl<T: DeepView> DeepView for Operation<T> {
    type V = Operation<T::V>;

    open spec fn deep_view(&self) -> Operation<T::V> {
        match self {
            Operation::Insert(t) => Operation::Insert(t.deep_view()),
            Operation::Create(t) => Operation::Create(t.deep_view()),
            Operation::Migration => Operation::Migration,
        }
    }
}

impl<T> Operation<T> {
    /// The rows or relations that the operation carries, if any.
    pub open spec fn payload(self) -> Option<T> {
        match self {
            Operation::Insert(t) => Some(t),
            Operation::Create(t) => Some(t),
            Operation::Migration => None,
        }
    }

    /// The same kind of operation with another payload.
    pub open spec fn with<U>(self, payload: U) -> Operation<U> {
        match self {
            Operation::Insert(_) => Operation::Insert(payload),
            Operation::Create(_) => Operation::Create(payload),
            Operation::Migration => Operation::Migration,
        }
    }
}

/// The rows of a table on which an operation can build: stored rows for an
/// operation that stores, stored or generated rows for one that only
/// generates, none for one that only creates its table.
pub open spec fn rows_for<R, M>(op: Operation<R>, dep: Option<Operation<M>>) -> Option<M> {
    match op {
        Operation::Insert(_) => match dep {
            Some(Operation::Insert(rows)) => Some(rows),
            _ => None,
        },
        Operation::Create(_) => match dep {
            Some(Operation::Insert(rows)) => Some(rows),
            Some(Operation::Create(rows)) => Some(rows),
            _ => None,
        },
        Operation::Migration => None,
    }
}

/// Whether the table `dep` has been set up far enough for `op`: an
/// operation with a payload needs rows to refer to, one without needs only
/// that the table was asked for.
pub open spec fn accepts<R, M>(op: Operation<R>, dep: Option<Operation<M>>) -> bool {
    match op {
        Operation::Migration => dep is Some,
        _ => rows_for(op, dep) is Some,
    }
}

/// The rows that an operation with a payload can refer to in `dep`.
pub fn rows_of<'a, R, M>(op: &Operation<R>, dep: &'a Option<Operation<M>>) -> (rows: Option<&'a M>)
    ensures
        rows is Some <==> rows_for(*op, *dep) is Some,
        rows matches Some(found) ==> rows_for(*op, *dep) == Some(*found),
{
    match op {
        Operation::Insert(_) => match dep {
            Some(Operation::Insert(rows)) => Some(rows),
            _ => None,
        },
        Operation::Create(_) => match dep {
            Some(Operation::Insert(rows)) => Some(rows),
            Some(Operation::Create(rows)) => Some(rows),
            _ => None,
        },
        Operation::Migration => None,
    }
}

} // verus!
