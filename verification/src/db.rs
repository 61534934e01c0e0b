//! Failures of the database layer, reduced to what the rules of the service
//! distinguish.

use vstd::prelude::*;

verus! {

/// A failure reported by the database layer.
#[derive(Clone, Debug, PartialEq, Eq)]
pub enum DbErr {
    /// The connection could not be used; carries the driver's text.
    Conn(String),
    /// A statement did not execute; carries the driver's text.
    Exec(String),
    /// A query failed; carries the driver's text.
    Query(String),
    /// A record that had to exist was not found; carries what was looked for.
    RecordNotFound(String),
    /// An insert stored no record.
    RecordNotInserted,
    /// An update matched no record.
    RecordNotUpdated,
    /// Any other failure, with its full text.
    Other(String),
}

/// The value of [`DbErr`] that contracts speak of.
pub ghost enum DbErrView {
    Conn(Seq<char>),
    Exec(Seq<char>),
    Query(Seq<char>),
    RecordNotFound(Seq<char>),
    RecordNotInserted,
    RecordNotUpdated,
    Other(Seq<char>),
}

impl DbErrView {
    /// The text that describes the failure.
    pub open spec fn text(self) -> Seq<char> {
        match self {
            DbErrView::Conn(msg) => "Connection Error: "@ + msg,
            DbErrView::Exec(msg) => "Execution Error: "@ + msg,
            DbErrView::Query(msg) => "Query Error: "@ + msg,
            DbErrView::RecordNotFound(msg) => "RecordNotFound Error: "@ + msg,
            DbErrView::RecordNotInserted => "None of the records are inserted"@,
            DbErrView::RecordNotUpdated => "None of the records are updated"@,
            DbErrView::Other(msg) => msg,
        }
    }
}

impl DeepView for DbErr {
    type V = DbErrView;

    open spec fn deep_view(&self) -> DbErrView {
        match self {
            DbErr::Conn(msg) => DbErrView::Conn(msg@),
            DbErr::Exec(msg) => DbErrView::Exec(msg@),
            DbErr::Query(msg) => DbErrView::Query(msg@),
            DbErr::RecordNotFound(msg) => DbErrView::RecordNotFound(msg@),
            DbErr::RecordNotInserted => DbErrView::RecordNotInserted,
            DbErr::RecordNotUpdated => DbErrView::RecordNotUpdated,
            DbErr::Other(msg) => DbErrView::Other(msg@),
        }
    }
}

impl DbErr {
    /// Renders the failure as text.
    pub fn to_string(&self) -> (out: String)
        ensures
            out@ == self.deep_view().text(),
    {
        match self {
            DbErr::Conn(msg) => String::from_str("Connection Error: ").concat(msg.as_str()),
            DbErr::Exec(msg) => String::from_str("Execution Error: ").concat(msg.as_str()),
            DbErr::Query(msg) => String::from_str("Query Error: ").concat(msg.as_str()),
            DbErr::RecordNotFound(msg) => String::from_str("RecordNotFound Error: ").concat(
                msg.as_str(),
            ),
            DbErr::RecordNotInserted => String::from_str("None of the records are inserted"),
            DbErr::RecordNotUpdated => String::from_str("None of the records are updated"),
            DbErr::Other(msg) => msg.clone(),
        }
    }
}

} // verus!
