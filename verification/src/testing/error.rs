//! Failures of the fixture builder.

use crate::api::error::ApiErr;
use crate::db::{DbErr, DbErrView};
use crate::text::{decimal, decimal_string};
use vstd::prelude::*;
use vstd::std_specs::convert::FromSpecImpl;

verus! {

/// Error returned by the fixture builder.
#[derive(Debug, PartialEq)]
pub enum BldrErr {
    /// A quantity of zero was asked for.
    ZeroQty,
    /// An empty list of relations was given.
    EmptyRel,
    /// The second table was set before the first, on which it depends.
    WrongOrder(String, String),
    /// A number of the named entity lies outside `1..=high`.
    OutOfRange(String, usize),
    /// The rows could not be stored.
    InsertErr(DbErr),
    /// No connection could be established.
    ConnErr(DbErr),
    /// Another failure of the database layer.
    DbErr(DbErr),
}

/// The value of [`BldrErr`] that contracts speak of.
pub ghost enum BldrErrView {
    ZeroQty,
    EmptyRel,
    WrongOrder(Seq<char>, Seq<char>),
    OutOfRange(Seq<char>, usize),
    InsertErr(DbErrView),
    ConnErr(DbErrView),
    DbErr(DbErrView),
}

impl DeepView for BldrErr {
    type V = BldrErrView;

    open spec fn deep_view(&self) -> BldrErrView {
        match self {
            BldrErr::ZeroQty => BldrErrView::ZeroQty,
            BldrErr::EmptyRel => BldrErrView::EmptyRel,
            BldrErr::WrongOrder(before, after) => BldrErrView::WrongOrder(before@, after@),
            BldrErr::OutOfRange(entity, high) => BldrErrView::OutOfRange(entity@, *high),
            BldrErr::InsertErr(err) => BldrErrView::InsertErr(err.deep_view()),
            BldrErr::ConnErr(err) => BldrErrView::ConnErr(err.deep_view()),
            BldrErr::DbErr(err) => BldrErrView::DbErr(err.deep_view()),
        }
    }
}

impl BldrErrView {
    /// The text that describes the failure.
    pub open spec fn text(self) -> Seq<char> {
        match self {
            BldrErrView::ZeroQty => "qty parameter should be greater then zero"@,
            BldrErrView::EmptyRel => "relations parameter should be not empty"@,
            BldrErrView::WrongOrder(before, after) => before + " should be set before "@ + after,
            BldrErrView::OutOfRange(entity, high) => entity + " number should be between 1 and "@
                + decimal(high as nat) + " inclusive"@,
            BldrErrView::InsertErr(_) => "unable to insert data"@,
            BldrErrView::ConnErr(_) => "no connection was established"@,
            BldrErrView::DbErr(_) => "orm error"@,
        }
    }

    /// The failure of the database layer that lies behind this one, if any.
    pub open spec fn source(self) -> Option<DbErrView> {
        match self {
            BldrErrView::InsertErr(err) => Some(err),
            BldrErrView::ConnErr(err) => Some(err),
            BldrErrView::DbErr(err) => Some(err),
            _ => None,
        }
    }
}

impl From<DbErr> for BldrErr {
    fn from(err: DbErr) -> (res: BldrErr) {
        match err {
            DbErr::RecordNotInserted => BldrErr::InsertErr(err),
            _ => BldrErr::ConnErr(err),
        }
    }
}

impl FromSpecImpl<DbErr> for BldrErr {
    open spec fn obeys_from_spec() -> bool {
        true
    }

    /// A failed insert stays one; every other failure counts as a failure of
    /// the connection.
    open spec fn from_spec(err: DbErr) -> BldrErr {
        match err {
            DbErr::RecordNotInserted => BldrErr::InsertErr(err),
            _ => BldrErr::ConnErr(err),
        }
    }
}

impl BldrErr {
    /// Renders the failure as text.
    pub fn to_string(&self) -> (out: String)
        ensures
            out@ == self.deep_view().text(),
    {
        match self {
            BldrErr::ZeroQty => String::from_str("qty parameter should be greater then zero"),
            BldrErr::EmptyRel => String::from_str("relations parameter should be not empty"),
            BldrErr::WrongOrder(before, after) => {
                before.clone().concat(" should be set before ").concat(after.as_str())
            },
            BldrErr::OutOfRange(entity, high) => {
                let number = decimal_string(*high as u64);
                entity.clone().concat(" number should be between 1 and ").concat(
                    number.as_str(),
                ).concat(" inclusive")
            },
            BldrErr::InsertErr(_) => String::from_str("unable to insert data"),
            BldrErr::ConnErr(_) => String::from_str("no connection was established"),
            BldrErr::DbErr(_) => String::from_str("orm error"),
        }
    }

    /// The failure of the database layer that lies behind this one, if any.
    pub fn source(&self) -> (src: Option<&DbErr>)
        ensures
            src.deep_view() == self.deep_view().source(),
    {
        match self {
            BldrErr::InsertErr(err) => Some(err),
            BldrErr::ConnErr(err) => Some(err),
            BldrErr::DbErr(err) => Some(err),
            _ => None,
        }
    }
}

/// Error returned by a scenario that uses the fixture builder.
#[derive(Debug, PartialEq)]
pub enum TestErr {
    /// The builder failed.
    BldrErr(BldrErr),
    /// The API failed.
    ApiErr(ApiErr),
    /// The database layer failed.
    DbErr(DbErr),
}

impl From<BldrErr> for TestErr {
    fn from(err: BldrErr) -> (res: TestErr) {
        TestErr::BldrErr(err)
    }
}

impl FromSpecImpl<BldrErr> for TestErr {
    open spec fn obeys_from_spec() -> bool {
        true
    }

    open spec fn from_spec(err: BldrErr) -> TestErr {
        TestErr::BldrErr(err)
    }
}

impl From<ApiErr> for TestErr {
    fn from(err: ApiErr) -> (res: TestErr) {
        TestErr::ApiErr(err)
    }
}

impl FromSpecImpl<ApiErr> for TestErr {
    open spec fn obeys_from_spec() -> bool {
        true
    }

    open spec fn from_spec(err: ApiErr) -> TestErr {
        TestErr::ApiErr(err)
    }
}

impl From<DbErr> for TestErr {
    fn from(err: DbErr) -> (res: TestErr) {
        TestErr::DbErr(err)
    }
}

impl FromSpecImpl<DbErr> for TestErr {
    open spec fn obeys_from_spec() -> bool {
        true
    }

    open spec fn from_spec(err: DbErr) -> TestErr {
        TestErr::DbErr(err)
    }
}

} // verus!
