use pool_contention::error::{DbFault, DbKind, ErrMsg, ErrorResponse, ServerError, FAILURE_STATUS};

#[derive(Debug)]
struct Refused {
    text: String,
}

impl std::fmt::Display for Refused {
    fn fmt(&self, f: &mut std::fmt::Formatter<'_>) -> std::fmt::Result {
        f.write_str(&self.text)
    }
}

impl std::error::Error for Refused {}

impl sqlx::error::DatabaseError for Refused {
    fn message(&self) -> &str {
        &self.text
    }

    fn as_error(&self) -> &(dyn std::error::Error + Send + Sync + 'static) {
        self
    }

    fn as_error_mut(&mut self) -> &mut (dyn std::error::Error + Send + Sync + 'static) {
        self
    }

    fn into_error(self: Box<Self>) -> Box<dyn std::error::Error + Send + Sync + 'static> {
        self
    }
}

fn refused(text: &str) -> sqlx::Error {
    sqlx::Error::Database(Box::new(Refused { text: text.to_string() }))
}

#[test]
fn database_error_shows_only_the_database_message() {
    let e = refused("relation \"test\" does not exist");
    assert_eq!(e.msg(), "relation \"test\" does not exist");
    let fault = DbFault::observe(&e);
    assert!(matches!(fault.kind, DbKind::Database(_)));
    assert_eq!(fault.text, "error returned from database: relation \"test\" does not exist");
    assert_eq!(fault.msg(), "relation \"test\" does not exist");
}

#[test]
fn row_not_found_has_its_fixed_message() {
    let e = sqlx::Error::RowNotFound;
    assert_eq!(e.msg(), "数据不存在");
    let fault = DbFault::observe(&e);
    assert!(fault.is_row_not_found());
    assert!(!fault.is_timeout());
    assert_eq!(fault.text, e.to_string());
    assert_eq!(
        fault.text,
        "no rows returned by a query that expected to return at least one row"
    );
}

#[test]
fn other_driver_errors_show_the_driver_text() {
    let e = sqlx::Error::Protocol("bad frame".to_string());
    assert_eq!(e.msg(), e.to_string());
    assert_eq!(e.msg(), "encountered unexpected or invalid data: bad frame");
    assert!(matches!(DbFault::observe(&e).kind, DbKind::Other));
}

#[test]
fn pool_timeout_is_told_apart() {
    let e = sqlx::Error::PoolTimedOut;
    let fault = DbFault::observe(&e);
    assert!(fault.is_timeout());
    assert!(!fault.is_row_not_found());
    assert_eq!(fault.msg(), "pool timed out while waiting for an open connection");
}

#[test]
fn message_of_each_variant() {
    assert_eq!(ServerError::Str("thread spawn error").message(), "thread spawn error");
    assert_eq!(ServerError::String("boom".to_string()).message(), "boom");
    let db = ServerError::from_driver(&refused("duplicate key"));
    assert!(matches!(db, ServerError::DB(_)));
    assert_eq!(db.message(), "duplicate key");
    assert_eq!(db.source_text(), "error returned from database: duplicate key");
    assert_eq!(ServerError::Str("x").source_text(), "x");
    assert_eq!(ServerError::String("y".to_string()).source_text(), "y");
}

#[test]
fn every_failure_has_status_500() {
    assert_eq!(FAILURE_STATUS, 500);
    assert_eq!(ServerError::Str("thread join error").status_code(), 500);
    assert_eq!(ServerError::String(String::new()).status_code(), 500);
    assert_eq!(ServerError::from_driver(&sqlx::Error::RowNotFound).status_code(), 500);
}

#[test]
fn error_response_is_a_json_object_with_err() {
    let r = ServerError::Str("thread spawn error").error_response();
    assert_eq!(r.status, 500);
    assert_eq!(r.content_type, "application/json");
    assert_eq!(r.body, "{\"err\":\"thread spawn error\"}");
    assert_eq!(r.log_line, "thread spawn error");
}

#[test]
fn error_response_escapes_the_message() {
    let r = ServerError::String("a \"quoted\"\nline \\ end".to_string()).error_response();
    assert_eq!(r.body, "{\"err\":\"a \\\"quoted\\\"\\nline \\\\ end\"}");
    let parsed: serde_json::Value = serde_json::from_str(&r.body).unwrap();
    assert_eq!(parsed.get("err").and_then(|v| v.as_str()), Some("a \"quoted\"\nline \\ end"));
    assert_eq!(parsed.as_object().map(|o| o.len()), Some(1));
}

#[test]
fn error_response_body_is_what_serde_json_writes() {
    let e = ServerError::from_driver(&sqlx::Error::RowNotFound);
    let mut members = serde_json::Map::new();
    members.insert("err".to_string(), serde_json::Value::String("数据不存在".to_string()));
    let expected = serde_json::Value::Object(members).to_string();
    assert_eq!(e.error_response().body, expected);
}

#[test]
fn json_response_keeps_its_parts() {
    let r = ErrorResponse::json(503, "{}".to_string(), "down".to_string());
    assert_eq!(r.status, 503);
    assert_eq!(r.content_type, "application/json");
    assert_eq!(r.body, "{}");
    assert_eq!(r.log_line, "down");
}

#[test]
fn the_driver_words_each_kind_as_it_is_known_to() {
    let timed_out = ServerError::from_driver(&sqlx::Error::PoolTimedOut);
    assert_eq!(timed_out.message(), "pool timed out while waiting for an open connection");
    assert_eq!(timed_out.source_text(), "pool timed out while waiting for an open connection");
    assert!(!timed_out.message().is_empty());
    let answered = DbFault::observe(&refused(""));
    assert_eq!(answered.kind, DbKind::Database(String::new()));
    assert_eq!(answered.text, "error returned from database: ");
    assert_eq!(answered.msg(), "");
    let answered = DbFault::observe(&refused("deadlock detected"));
    assert!(answered.text.starts_with("error returned from database: "));
}
