//! Failures of the service, the text each one shows to a client, and the
//! response that carries that text.

use vstd::prelude::*;

verus! {

/// The status every failure is answered with.
pub const FAILURE_STATUS: u16 = 500;

/// What kind of failure the database driver reported.
#[derive(Clone, Debug, PartialEq, Eq)]
pub enum DbKind {
    /// The database answered with an error of its own; the field is its
    /// primary message.
    Database(String),
    /// A query that wanted at least one row found none.
    RowNotFound,
    /// No connection became free within the connect timeout.
    PoolTimedOut,
    /// Any other failure of the driver.
    Other,
}

/// The mathematical value of a [`DbKind`].
pub enum DbKindView {
    Database(Seq<char>),
    RowNotFound,
    PoolTimedOut,
    Other,
}

impl View for DbKind {
    type V = DbKindView;

    open spec fn view(&self) -> DbKindView {
        match self {
            DbKind::Database(message) => DbKindView::Database(message@),
            DbKind::RowNotFound => DbKindView::RowNotFound,
            DbKind::PoolTimedOut => DbKindView::PoolTimedOut,
            DbKind::Other => DbKindView::Other,
        }
    }
}

/// A failure of the database driver, held as plain values: its kind and the
/// text the driver itself renders for it.
#[derive(Clone, Debug, PartialEq, Eq)]
pub struct DbFault {
    pub kind: DbKind,
    pub text: String,
}

/// The mathematical value of a [`DbFault`].
pub struct DbFaultView {
    pub kind: DbKindView,
    pub text: Seq<char>,
}

impl View for DbFault {
    type V = DbFaultView;

    open spec fn view(&self) -> DbFaultView {
        DbFaultView { kind: self.kind@, text: self.text@ }
    }
}

/// The message a client is shown for a driver failure: the database's own
/// message where it gave one, a fixed sentence where no row was found, and
/// the driver's text otherwise.
pub open spec fn fault_message(fault: DbFaultView) -> Seq<char> {
    match fault.kind {
        DbKindView::Database(message) => message,
        DbKindView::RowNotFound => "数据不存在"@,
        DbKindView::PoolTimedOut => fault.text,
        DbKindView::Other => fault.text,
    }
}

/// What the driver's own text is known to be for a fault of each kind: the
/// fixed sentence of the driver where no row was found and where the pool
/// timed out, and a fixed beginning where the database itself answered with
/// an error.
pub open spec fn worded_by_driver(fault: DbFaultView) -> bool {
    match fault.kind {
        DbKindView::Database(_) => "error returned from database: "@.is_prefix_of(fault.text),
        DbKindView::RowNotFound => fault.text
            == "no rows returned by a query that expected to return at least one row"@,
        DbKindView::PoolTimedOut => fault.text
            == "pool timed out while waiting for an open connection"@,
        DbKindView::Other => true,
    }
}

/// Whether `message` is what a client is shown for a driver failure of the
/// given kind: the database's own message, the fixed sentence where no row
/// was found, the driver's sentence where the pool timed out, and otherwise
/// the driver's text, which is never empty.
pub open spec fn shown_for_kind(kind: DbKindView, message: Seq<char>) -> bool {
    match kind {
        DbKindView::Database(own) => message == own,
        DbKindView::RowNotFound => message == "数据不存在"@,
        DbKindView::PoolTimedOut => message
            == "pool timed out while waiting for an open connection"@,
        DbKindView::Other => message.len() > 0,
    }
}

/// Something that can describe itself as a message for a client.
pub trait ErrMsg {
    fn msg(&self) -> String;
}

impl ErrMsg for DbFault {
    fn msg(&self) -> (message: String)
        ensures
            message@ == fault_message(self@),
    {
        match &self.kind {
            DbKind::Database(message) => message.clone(),
            DbKind::RowNotFound => "数据不存在".to_owned(),
            DbKind::PoolTimedOut => self.text.clone(),
            DbKind::Other => self.text.clone(),
        }
    }
}

impl ErrMsg for sqlx::Error {
    /// The message of a driver error: that of the fault observed in it. It
    /// goes by the kind of the error: the database's own message, the fixed
    /// sentence where no row was found, and the driver's text, which is never
    /// empty, otherwise.
    fn msg(&self) -> (message: String)
        ensures
            shown_for_kind(driver_kind(*self), message@),
            exists|text: Seq<char>|
                #![trigger text.len()]
                text.len() > 0 && message@ == fault_message(
                    DbFaultView { kind: driver_kind(*self), text },
                ),
    {
        let fault = DbFault::observe(self);
        let message = fault.msg();
        proof {
            let text = fault@.text;
            assert(text.len() > 0 && message@ == fault_message(
                DbFaultView { kind: driver_kind(*self), text },
            ));
        }
        message
    }
}

impl DbFault {
    /// The driver error held as plain values: the kind of the error, and the
    /// text the driver renders for it. The text is never empty, and for some
    /// kinds it is known beforehand.
    pub fn observe(error: &sqlx::Error) -> (fault: DbFault)
        ensures
            fault@.kind == driver_kind(*error),
            fault@.text.len() > 0,
            worded_by_driver(fault@),
            shown_for_kind(driver_kind(*error), fault_message(fault@)),
    {
        driver_fault(error)
    }

    /// Whether the failure is the pool giving up on a free connection.
    pub fn is_timeout(&self) -> (yes: bool)
        ensures
            yes == (self@.kind is PoolTimedOut),
    {
        match &self.kind {
            DbKind::PoolTimedOut => true,
            _ => false,
        }
    }

    /// Whether the failure only says that a query found no row.
    pub fn is_row_not_found(&self) -> (yes: bool)
        ensures
            yes == (self@.kind is RowNotFound),
    {
        match &self.kind {
            DbKind::RowNotFound => true,
            _ => false,
        }
    }
}

/// A failure of one request.
#[derive(Clone, Debug, PartialEq, Eq)]
pub enum ServerError {
    /// The database driver failed.
    DB(DbFault),
    /// A fixed internal fault.
    Str(&'static str),
    /// The description of some other failure.
    String(String),
}

/// The mathematical value of a [`ServerError`].
pub enum ServerErrorView {
    DB(DbFaultView),
    Str(Seq<char>),
    String(Seq<char>),
}

impl View for ServerError {
    type V = ServerErrorView;

    open spec fn view(&self) -> ServerErrorView {
        match self {
            ServerError::DB(fault) => ServerErrorView::DB(fault@),
            ServerError::Str(text) => ServerErrorView::Str(text@),
            ServerError::String(text) => ServerErrorView::String(text@),
        }
    }
}

/// The message of a failure, as a client reads it.
pub open spec fn error_message(error: ServerErrorView) -> Seq<char> {
    match error {
        ServerErrorView::DB(fault) => fault_message(fault),
        ServerErrorView::Str(text) => text,
        ServerErrorView::String(text) => text,
    }
}

/// The description of a failure as its source words it: the driver's own
/// text for a driver failure, the message otherwise.
pub open spec fn error_source_text(error: ServerErrorView) -> Seq<char> {
    match error {
        ServerErrorView::DB(fault) => fault.text,
        ServerErrorView::Str(text) => text,
        ServerErrorView::String(text) => text,
    }
}

/// The answer to a request that failed.
#[derive(Clone, Debug, PartialEq, Eq)]
pub struct ErrorResponse {
    pub status: u16,
    pub content_type: &'static str,
    pub body: String,
    /// The line to write to the server's log, once, for this failure.
    pub log_line: String,
}

impl ErrorResponse {
    /// A JSON answer with the given status, body and log line.
    pub fn json(status: u16, body: String, log_line: String) -> (response: ErrorResponse)
        ensures
            response.status == status,
            response.content_type@ == "application/json"@,
            response.body@ == body@,
            response.log_line@ == log_line@,
    {
        ErrorResponse { status, content_type: "application/json", body, log_line }
    }
}

impl ServerError {
    /// The failure that a driver error stands for: a database failure that
    /// holds the fault observed in the error, of the error's kind and worded
    /// as the driver words it.
    pub fn from_driver(error: &sqlx::Error) -> (failure: ServerError)
        ensures
            failure@ is DB,
            failure@->DB_0.kind == driver_kind(*error),
            failure@->DB_0.text.len() > 0,
            worded_by_driver(failure@->DB_0),
            shown_for_kind(driver_kind(*error), error_message(failure@)),
    {
        ServerError::DB(DbFault::observe(error))
    }

    /// The message of the failure.
    pub fn message(&self) -> (message: String)
        ensures
            message@ == error_message(self@),
    {
        match self {
            ServerError::DB(fault) => fault.msg(),
            ServerError::Str(text) => (*text).to_owned(),
            ServerError::String(text) => text.clone(),
        }
    }

    /// The description of the failure as its source words it.
    pub fn source_text(&self) -> (text: String)
        ensures
            text@ == error_source_text(self@),
    {
        match self {
            ServerError::DB(fault) => fault.text.clone(),
            ServerError::Str(text) => (*text).to_owned(),
            ServerError::String(text) => text.clone(),
        }
    }

    /// Every failure is answered with the same status.
    pub fn status_code(&self) -> (status: u16)
        ensures
            status == FAILURE_STATUS,
    {
        FAILURE_STATUS
    }

    /// The answer a client gets for this failure: a JSON object whose one
    /// member `err` holds the message, which is also the line to log.
    pub fn error_response(&self) -> (response: ErrorResponse)
        ensures
            response.status == FAILURE_STATUS,
            response.content_type@ == "application/json"@,
            response.body@ == json_object_text("err"@, error_message(self@)),
            response.log_line@ == error_message(self@),
    {
        let message = self.message();
        let body = json_object("err", message.as_str());
        ErrorResponse::json(self.status_code(), body, message)
    }
}

/// The compact JSON text of an object with the one member `key`, whose value
/// is the string `value`.
pub uninterp spec fn json_object_text(key: Seq<char>, value: Seq<char>) -> Seq<char>;

/// Calls `serde_json::to_string` on a `serde_json::Value::Object` that holds
/// the one member `key` with the string `value`. Serialising such a value does
/// not fail; the text is what `serde_json` writes for it.
#[verifier::external_body]
fn json_object(key: &str, value: &str) -> (text: String)
    ensures
        text@ == json_object_text(key@, value@),
{
    let mut members = serde_json::Map::new();
    members.insert(key.to_string(), serde_json::Value::String(value.to_string()));
    match serde_json::to_string(&serde_json::Value::Object(members)) {
        Ok(text) => text,
        Err(_) => String::new(),
    }
}

/// The driver's error type; nothing inside it is visible here.
#[verifier::external_type_specification]
#[verifier::external_body]
pub struct ExDriverError(sqlx::Error);

/// The kind of a driver error: which variant of `sqlx::Error` it is, and for
/// `Database` the primary message of the error inside.
pub uninterp spec fn driver_kind(error: sqlx::Error) -> DbKindView;

/// Holds a `sqlx::Error` as plain values. The kind tells the variants of
/// `sqlx::Error` apart; for `Database` it holds what
/// `sqlx::error::DatabaseError::message` returns for the error inside. It
/// depends on the error alone. The text is what `sqlx::Error` renders for
/// itself through `Display`. Part of it may be worded by the platform, so it
/// has no name; what is claimed of it is what the driver fixes: every
/// variant's text holds words of the driver's own and so is never empty,
/// `RowNotFound` and `PoolTimedOut` have one whole sentence each, and
/// `Database` has a fixed beginning.
#[verifier::external_body]
fn driver_fault(error: &sqlx::Error) -> (fault: DbFault)
    ensures
        fault@.kind == driver_kind(*error),
        fault@.text.len() > 0,
        worded_by_driver(fault@),
{
    let text = error.to_string();
    let kind = match error {
        sqlx::Error::Database(inner) => DbKind::Database(inner.message().to_string()),
        sqlx::Error::RowNotFound => DbKind::RowNotFound,
        sqlx::Error::PoolTimedOut => DbKind::PoolTimedOut,
        _ => DbKind::Other,
    };
    DbFault { kind, text }
}

} // verus!
