use vstd::prelude::*;
use crate::api::ResponseStructureError;

verus! {

/// The errors of the panel's API.
pub enum CommonError {
    /// A failure of the system or the database, with its message.
    Error(String),
    /// An internal failure, with its message.
    InternalServerError(String),
    /// A request that cannot be served, with the reason.
    BadRequest(String),
    /// A request without valid credentials, with the reason.
    Unauthorized(String),
}

/// A failure reported by the database layer.
pub enum DbError {
    /// The database refused a value that must be unique; with its message
    /// and, when it gives them, its details.
    UniqueViolation { message: String, details: Option<String> },
    /// Another refusal of the database, with its message.
    Database { message: String },
    /// Any other failure, with its description.
    Other(String),
}

/// The HTTP status and the body with which an error is answered.
pub open spec fn error_status(e: CommonError) -> u16 {
    match e {
        CommonError::Error(_) | CommonError::InternalServerError(_) => 500,
        CommonError::BadRequest(_) => 400,
        CommonError::Unauthorized(_) => 401,
    }
}

/// The message that an error carries.
pub open spec fn error_message(e: CommonError) -> Seq<char> {
    match e {
        CommonError::Error(m) | CommonError::InternalServerError(m) | CommonError::BadRequest(m)
        | CommonError::Unauthorized(m) => m@,
    }
}

/// The text with which an error displays itself.
pub open spec fn error_display(e: CommonError) -> Seq<char> {
    match e {
        CommonError::Error(_) | CommonError::InternalServerError(_) => "Internal Server Error"@,
        CommonError::BadRequest(m) => "BadRequest: "@ + m@,
        CommonError::Unauthorized(_) => "Unauthorized"@,
    }
}

/// The API error that a database failure becomes: a unique violation is the
/// client's fault and is reported with its details (or else its message);
/// every other failure is internal.
pub open spec fn db_error_to_common(e: DbError) -> CommonError {
    match e {
        DbError::UniqueViolation { message, details } => CommonError::BadRequest(
            match details {
                Some(d) => d,
                None => message,
            },
        ),
        DbError::Database { message } => CommonError::InternalServerError(message),
        DbError::Other(text) => CommonError::InternalServerError(text),
    }
}

impl CommonError {
    /// The HTTP status and the JSON body that answer this error: 500 for
    /// system and internal errors, 400 for bad requests, 401 when
    /// unauthorized; the body repeats the status as its code and carries the message.
    pub fn error_response(&self) -> (r: (u16, ResponseStructureError))
        ensures
            r.0 == error_status(*self),
            !r.1.success,
            r.1.code == r.0,
            r.1.message@ == error_message(*self),
    {
        match self {
            CommonError::Error(m) => (500, ResponseStructureError { success: false, code: 500, message: m.clone() }),
            CommonError::InternalServerError(m) => (
                500,
                ResponseStructureError { success: false, code: 500, message: m.clone() },
            ),
            CommonError::BadRequest(m) => (400, ResponseStructureError { success: false, code: 400, message: m.clone() }),
            CommonError::Unauthorized(m) => (401, ResponseStructureError { success: false, code: 401, message: m.clone() }),
        }
    }

    /// The text with which the error displays itself.
    pub fn to_text(&self) -> (r: String)
        ensures
            r@ == error_display(*self),
    {
        match self {
            CommonError::Error(_) | CommonError::InternalServerError(_) => String::from_str("Internal Server Error"),
            CommonError::BadRequest(m) => crate::common::text::concat2("BadRequest: ", m.as_str()),
            CommonError::Unauthorized(_) => String::from_str("Unauthorized"),
        }
    }
}

impl From<DbError> for CommonError {
    fn from(error: DbError) -> (r: CommonError) {
        match error {
            DbError::UniqueViolation { message, details } => CommonError::BadRequest(
                match details {
                    Some(d) => d,
                    None => message,
                },
            ),
            DbError::Database { message } => CommonError::InternalServerError(message),
            DbError::Other(text) => CommonError::InternalServerError(text),
        }
    }
}

impl vstd::std_specs::convert::FromSpecImpl<DbError> for CommonError {
    open spec fn obeys_from_spec() -> bool {
        true
    }

    open spec fn from_spec(v: DbError) -> CommonError {
        db_error_to_common(v)
    }
}

/// Errors are answered by whose fault they are: a bad request with 400, an
/// unauthorized one with 401, and every system or internal error with 500;
/// the answer carries the error's own message.
pub proof fn lemma_error_statuses(e: CommonError)
    ensures
        e is BadRequest <==> error_status(e) == 400,
        e is Unauthorized <==> error_status(e) == 401,
        (e is Error || e is InternalServerError) <==> error_status(e) == 500,
        e matches CommonError::BadRequest(m) ==> error_message(e) == m@,
        e matches CommonError::Unauthorized(m) ==> error_message(e) == m@,
        e matches CommonError::Error(m) ==> error_message(e) == m@,
        e matches CommonError::InternalServerError(m) ==> error_message(e) == m@,
{
}

/// A database failure is the client's fault only when it is a unique
/// violation, which is reported as a bad request carrying its details, or
/// its message where there are none; any other failure is internal and
/// carries its own text.
pub proof fn lemma_db_errors(e: DbError)
    ensures
        db_error_to_common(e) is BadRequest <==> e is UniqueViolation,
        e matches DbError::UniqueViolation { message, details } ==> error_message(db_error_to_common(e)) == match details {
            Some(d) => d@,
            None => message@,
        },
        e matches DbError::Database { message } ==> (db_error_to_common(e) is InternalServerError && error_message(db_error_to_common(e)) == message@),
        e matches DbError::Other(text) ==> (db_error_to_common(e) is InternalServerError && error_message(db_error_to_common(e)) == text@),
{
}

} // verus!
