use conduit::api::error::{ApiErr, ErrorResponse};
use conduit::db::DbErr;
use conduit::testing::{BldrErr, TestErr};

fn answer(err: ApiErr) -> (u16, String) {
    let ErrorResponse { status, error } = err.into_response();
    (status, error)
}

#[test]
fn refused_statement_is_unprocessable() {
    assert_eq!(
        answer(ApiErr::DbErr(DbErr::Exec("duplicate key".to_owned()))),
        (422, "Record with same parameters already exist".to_owned())
    );
}

#[test]
fn update_without_a_record_is_not_found() {
    assert_eq!(
        answer(ApiErr::DbErr(DbErr::RecordNotUpdated)),
        (404, "Record not exist".to_owned())
    );
}

#[test]
fn missing_user_is_not_found() {
    assert_eq!(answer(ApiErr::UserNotExist), (404, "User not exist".to_owned()));
}

#[test]
fn missing_article_is_not_found() {
    assert_eq!(answer(ApiErr::ArticleNotExist), (404, "Article not exist".to_owned()));
}

#[test]
fn wrong_password_is_unauthorized() {
    assert_eq!(answer(ApiErr::WrongPass), (401, "Wrong password".to_owned()));
}

#[test]
fn everything_else_is_a_server_error() {
    let text = "The server cannot process the request".to_owned();
    assert_eq!(answer(ApiErr::CommentNotExist), (500, text.clone()));
    assert_eq!(answer(ApiErr::DbErr(DbErr::Conn("down".to_owned()))), (500, text.clone()));
    assert_eq!(answer(ApiErr::DbErr(DbErr::Query("bad".to_owned()))), (500, text.clone()));
    assert_eq!(answer(ApiErr::DbErr(DbErr::RecordNotInserted)), (500, text.clone()));
    assert_eq!(answer(ApiErr::DbErr(DbErr::RecordNotFound("x".to_owned()))), (500, text.clone()));
    assert_eq!(answer(ApiErr::DbErr(DbErr::Other("x".to_owned()))), (500, text));
}

#[test]
fn database_failure_becomes_an_api_failure() {
    assert_eq!(
        ApiErr::from(DbErr::RecordNotUpdated),
        ApiErr::DbErr(DbErr::RecordNotUpdated)
    );
}

#[test]
fn database_failure_texts() {
    assert_eq!(DbErr::Conn("a".to_owned()).to_string(), "Connection Error: a");
    assert_eq!(DbErr::Exec("b".to_owned()).to_string(), "Execution Error: b");
    assert_eq!(DbErr::Query("c".to_owned()).to_string(), "Query Error: c");
    assert_eq!(DbErr::RecordNotFound("d".to_owned()).to_string(), "RecordNotFound Error: d");
    assert_eq!(DbErr::RecordNotInserted.to_string(), "None of the records are inserted");
    assert_eq!(DbErr::RecordNotUpdated.to_string(), "None of the records are updated");
    assert_eq!(DbErr::Other("Type Error: e".to_owned()).to_string(), "Type Error: e");
}

#[test]
fn failed_insert_stays_one_for_the_builder() {
    assert_eq!(
        BldrErr::from(DbErr::RecordNotInserted),
        BldrErr::InsertErr(DbErr::RecordNotInserted)
    );
}

#[test]
fn other_database_failures_count_as_connection_failures() {
    assert_eq!(
        BldrErr::from(DbErr::Conn("down".to_owned())),
        BldrErr::ConnErr(DbErr::Conn("down".to_owned()))
    );
    assert_eq!(
        BldrErr::from(DbErr::Exec("no".to_owned())),
        BldrErr::ConnErr(DbErr::Exec("no".to_owned()))
    );
    assert_eq!(
        BldrErr::from(DbErr::RecordNotUpdated),
        BldrErr::ConnErr(DbErr::RecordNotUpdated)
    );
}

#[test]
fn builder_failures_without_a_source() {
    assert!(BldrErr::ZeroQty.source().is_none());
    assert!(BldrErr::EmptyRel.source().is_none());
    assert!(BldrErr::WrongOrder("a".to_owned(), "b".to_owned()).source().is_none());
    assert!(BldrErr::OutOfRange("a".to_owned(), 1).source().is_none());
}

#[test]
fn out_of_range_text_names_the_limit() {
    assert_eq!(
        BldrErr::OutOfRange("user".to_owned(), 0).to_string(),
        "user number should be between 1 and 0 inclusive"
    );
    assert_eq!(
        BldrErr::OutOfRange("tag".to_owned(), 1000).to_string(),
        "tag number should be between 1 and 1000 inclusive"
    );
}

#[test]
fn scenario_failures_wrap_their_cause() {
    assert_eq!(TestErr::from(BldrErr::ZeroQty), TestErr::BldrErr(BldrErr::ZeroQty));
    assert_eq!(TestErr::from(ApiErr::WrongPass), TestErr::ApiErr(ApiErr::WrongPass));
    assert_eq!(
        TestErr::from(DbErr::RecordNotInserted),
        TestErr::DbErr(DbErr::RecordNotInserted)
    );
}
