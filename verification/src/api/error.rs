//! Failures of the API and the responses they are answered with.

use crate::db::{DbErr, DbErrView};
use vstd::prelude::*;
use vstd::std_specs::convert::FromSpecImpl;

verus! {

/// Error returned by the API.
#[derive(Debug, PartialEq)]
pub enum ApiErr {
    /// The database layer failed.
    DbErr(DbErr),
    /// No user matches the request.
    UserNotExist,
    /// No article matches the request.
    ArticleNotExist,
    /// No comment matches the request.
    CommentNotExist,
    /// The password does not match the stored one.
    WrongPass,
}

/// The mathematical value of an [`ApiErr`].
pub ghost enum ApiErrView {
    DbErr(DbErrView),
    UserNotExist,
    ArticleNotExist,
    CommentNotExist,
    WrongPass,
}

impl DeepView for ApiErr {
    type V = ApiErrView;

    open spec fn deep_view(&self) -> ApiErrView {
        match self {
            ApiErr::DbErr(err) => ApiErrView::DbErr(err.deep_view()),
            ApiErr::UserNotExist => ApiErrView::UserNotExist,
            ApiErr::ArticleNotExist => ApiErrView::ArticleNotExist,
            ApiErr::CommentNotExist => ApiErrView::CommentNotExist,
            ApiErr::WrongPass => ApiErrView::WrongPass,
        }
    }
}

/// Whether `res` is the failure `err`.
pub open spec fn fails_with<T>(res: Result<T, ApiErr>, err: ApiErrView) -> bool {
    res matches Err(e) && e.deep_view() == err
}

impl From<DbErr> for ApiErr {
    fn from(err: DbErr) -> (res: ApiErr) {
        ApiErr::DbErr(err)
    }
}

impl FromSpecImpl<DbErr> for ApiErr {
    open spec fn obeys_from_spec() -> bool {
        true
    }

    open spec fn from_spec(err: DbErr) -> ApiErr {
        ApiErr::DbErr(err)
    }
}

/// Status code and message with which a failure is answered.
#[derive(Debug, Clone, PartialEq, Eq)]
pub struct ErrorResponse {
    /// HTTP status code.
    pub status: u16,
    /// Text placed under the key `error` of the response body.
    pub error: String,
}

impl ApiErrView {
    /// The HTTP status code of the answer: 422 for a statement that the
    /// database refused, 404 for anything that was looked for and is not
    /// there, 401 for a wrong password, 500 otherwise.
    pub open spec fn status(self) -> u16 {
        match self {
            ApiErrView::DbErr(DbErrView::Exec(_)) => 422,
            ApiErrView::DbErr(DbErrView::RecordNotUpdated) => 404,
            ApiErrView::UserNotExist => 404,
            ApiErrView::ArticleNotExist => 404,
            ApiErrView::WrongPass => 401,
            _ => 500,
        }
    }

    /// The message of the answer.
    pub open spec fn message(self) -> Seq<char> {
        match self {
            ApiErrView::DbErr(DbErrView::Exec(_)) => "Record with same parameters already exist"@,
            ApiErrView::DbErr(DbErrView::RecordNotUpdated) => "Record not exist"@,
            ApiErrView::UserNotExist => "User not exist"@,
            ApiErrView::ArticleNotExist => "Article not exist"@,
            ApiErrView::WrongPass => "Wrong password"@,
            _ => "The server cannot process the request"@,
        }
    }
}

impl ApiErr {
    /// Turns the failure into the status code and message of its answer.
    pub fn into_response(self) -> (res: ErrorResponse)
        ensures
            res.status == self.deep_view().status(),
            res.error@ == self.deep_view().message(),
    {
        let (status, error): (u16, &str) = match self {
            ApiErr::DbErr(DbErr::Exec(_)) => (422, "Record with same parameters already exist"),
            ApiErr::DbErr(DbErr::RecordNotUpdated) => (404, "Record not exist"),
            ApiErr::UserNotExist => (404, "User not exist"),
            ApiErr::ArticleNotExist => (404, "Article not exist"),
            ApiErr::WrongPass => (401, "Wrong password"),
            _ => (500, "The server cannot process the request"),
        };
        ErrorResponse { status, error: String::from_str(error) }
    }
}

} // verus!
