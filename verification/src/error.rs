//! The error taxonomy and its projection onto client-visible replies.
//!
//! Every failure of the pipeline is raised as a [`Rejection`] and recovered
//! once, by [`api_error_handler`], which answers with the uniform envelope.
//! A domain error is classified by a numeric code, and its status follows
//! from the code alone; the other failures have a fixed status, which is
//! also their code.

use crate::reply::{error_reply, Body, ErrorMessage, Reply, ReplyView};
use vstd::prelude::*;

verus! {

/// Status of a body that is over the size cap.
pub const BAD_REQUEST: u16 = 400;

/// Status sent for authentication errors.
pub const UNAUTHORIZED: u16 = 401;

/// Status sent for authorization errors.
pub const FORBIDDEN: u16 = 403;

/// Status of a request that no route matches.
pub const NOT_FOUND: u16 = 404;

/// Status sent for validation and format errors.
pub const UNPROCESSABLE_ENTITY: u16 = 422;

/// Status sent for every failure that has no class of its own.
pub const INTERNAL_SERVER_ERROR: u16 = 500;

/// Code of a value that does not have the expected format: an unrecognized
/// category, or a stored value that does not decode.
pub const DATA_FORMAT_CODE: u32 = 20001;

/// Code of a storage failure whose detail is kept from the client.
pub const STORAGE_CODE: u32 = 80000;

/// A failure of the store, as `sqlx` reports it.
#[verifier::external_type_specification]
#[verifier::external_body]
pub struct ExSqlxError(sqlx::Error);

/// A domain error, with the failure of the collaborator that caused it.
#[derive(Debug)]
pub enum ApiError {
    /// The store failed.
    DatabaseError(sqlx::Error),
    /// `target` names no category.
    DataFormatError { source: strum::ParseError, target: String },
}

/// A failure that left the pipeline unhandled. It has one cause.
#[derive(Debug)]
pub enum Rejection {
    /// No route matched the request.
    NotFound,
    /// The body did not decode into the expected shape.
    BodyMalformed,
    /// The body is over the size cap.
    BodyTooLarge,
    /// A handler raised a domain error.
    Domain(ApiError),
    /// Anything else.
    Unclassified,
}

/// What the error mapper reads of a storage failure: which variant of
/// `sqlx::Error` it is, as far as the mapper tells them apart, and the
/// description of those that it shows.
#[derive(Clone, Debug, PartialEq, Eq)]
pub enum StorageFailure {
    /// The variant `Decode`: a value did not decode. The string describes
    /// the failure.
    Decode(String),
    /// The variant `ColumnDecode`: the value of a column did not decode. The
    /// string describes the failure.
    ColumnDecode(String),
    /// Any other variant.
    Other,
}

/// What [`storage_failure`] reads off a given `sqlx::Error`. It depends on
/// the error alone.
pub uninterp spec fn storage_class(err: sqlx::Error) -> StorageFailure;

/// The taxonomy of failures, as mathematical values. A failure determines
/// its envelope and its status.
pub enum Failure {
    NotFound,
    BodyMalformed,
    BodyTooLarge,
    /// A stored value did not decode; the failure's description.
    StorageDecode(Seq<char>),
    StorageGeneric,
    /// An unrecognized category; the offending string.
    Validation(Seq<char>),
    Unclassified,
}

/// The HTTP status that a domain error code projects to: the code's
/// thousands select the class, 20..=29 validation, 30..=39 authentication,
/// 40..=49 authorization, and every other prefix an internal error.
pub open spec fn status_of_code(code: u32) -> u16 {
    let prefix = code / 1000;
    if 20 <= prefix <= 29 {
        UNPROCESSABLE_ENTITY
    } else if 30 <= prefix <= 39 {
        UNAUTHORIZED
    } else if 40 <= prefix <= 49 {
        FORBIDDEN
    } else {
        INTERNAL_SERVER_ERROR
    }
}

/// The message of a validation failure: the description of the failed
/// lookup, then the offending string.
pub open spec fn validation_message(target: Seq<char>) -> Seq<char> {
    "VariantNotFound"@ + ": "@ + target
}

impl Failure {
    /// Whether the failure is a domain error, classified by a code of its
    /// own.
    pub open spec fn is_domain(self) -> bool {
        self is StorageDecode || self is StorageGeneric || self is Validation
    }

    /// The code in the envelope. A failure that is no domain error has its
    /// status there.
    pub open spec fn code(self) -> u32 {
        match self {
            Failure::NotFound => 404,
            Failure::BodyMalformed => 422,
            Failure::BodyTooLarge => 400,
            Failure::StorageDecode(_) => DATA_FORMAT_CODE,
            Failure::StorageGeneric => STORAGE_CODE,
            Failure::Validation(_) => DATA_FORMAT_CODE,
            Failure::Unclassified => 500,
        }
    }

    /// The message in the envelope. A decode or validation failure shows
    /// its description; a generic storage failure does not.
    pub open spec fn message(self) -> Seq<char> {
        match self {
            Failure::NotFound => "not found"@,
            Failure::BodyMalformed => "failed to process request body"@,
            Failure::BodyTooLarge => "request body is too large"@,
            Failure::StorageDecode(description) => description,
            Failure::StorageGeneric => "internal server error"@,
            Failure::Validation(target) => validation_message(target),
            Failure::Unclassified => "internal server error"@,
        }
    }

    /// The HTTP status. That of a domain error is projected from its code.
    pub open spec fn status(self) -> u16 {
        if self.is_domain() {
            status_of_code(self.code())
        } else {
            match self {
                Failure::NotFound => NOT_FOUND,
                Failure::BodyMalformed => UNPROCESSABLE_ENTITY,
                Failure::BodyTooLarge => BAD_REQUEST,
                _ => INTERNAL_SERVER_ERROR,
            }
        }
    }

    /// The reply sent for the failure.
    pub open spec fn reply(self) -> ReplyView {
        error_reply(self.status(), self.code(), self.message())
    }
}

impl StorageFailure {
    /// The failure as a member of the taxonomy: the two decode variants are
    /// decode failures, with their description, and every other variant is
    /// a generic failure.
    pub open spec fn failure(self) -> Failure {
        match self {
            StorageFailure::Decode(description) => Failure::StorageDecode(description@),
            StorageFailure::ColumnDecode(description) => Failure::StorageDecode(description@),
            StorageFailure::Other => Failure::StorageGeneric,
        }
    }
}

impl Rejection {
    /// The member of the taxonomy that the rejection is. A failure of the
    /// store is classified by what is read off its error.
    pub open spec fn failure(self) -> Failure {
        match self {
            Rejection::NotFound => Failure::NotFound,
            Rejection::BodyMalformed => Failure::BodyMalformed,
            Rejection::BodyTooLarge => Failure::BodyTooLarge,
            Rejection::Domain(ApiError::DatabaseError(error)) => storage_class(error).failure(),
            Rejection::Domain(ApiError::DataFormatError { source: _, target }) => {
                Failure::Validation(target@)
            },
            Rejection::Unclassified => Failure::Unclassified,
        }
    }
}

/// Reads off a `sqlx::Error` which variant it is, `Decode`, `ColumnDecode`
/// or another, and for the two decode variants the error's `Debug` text as
/// the description. The error is opaque here, so the result is stated under
/// the name [`storage_class`]: the claim is that it depends on the error
/// alone.
#[verifier::external_body]
fn storage_failure(err: &sqlx::Error) -> (failure: StorageFailure)
    ensures
        failure == storage_class(*err),
{
    match err {
        sqlx::Error::Decode(_) => StorageFailure::Decode(format!("{:?}", err)),
        sqlx::Error::ColumnDecode { .. } => StorageFailure::ColumnDecode(format!("{:?}", err)),
        _ => StorageFailure::Other,
    }
}

/// The `Debug` text of a `strum::ParseError`. The type has the single unit
/// variant `VariantNotFound` and derives `Debug`, so the text is the
/// variant's name.
#[verifier::external_body]
fn parse_error_text(err: &strum::ParseError) -> (text: String)
    ensures
        text@ == "VariantNotFound"@,
{
    format!("{:?}", err)
}

/// Projects a domain error code onto its HTTP status. Every code has one.
pub fn api_code_to_http(code: u32) -> (status: Option<u16>)
    ensures
        status == Some(status_of_code(code)),
{
    let prefix: u32 = code / 1000;
    if 20 <= prefix && prefix <= 29 {
        Some(UNPROCESSABLE_ENTITY)
    } else if 30 <= prefix && prefix <= 39 {
        Some(UNAUTHORIZED)
    } else if 40 <= prefix && prefix <= 49 {
        Some(FORBIDDEN)
    } else {
        Some(INTERNAL_SERVER_ERROR)
    }
}

/// Code and message of a classified storage failure. Both decode variants
/// are format errors and show their description; the detail of any other
/// failure is suppressed.
pub fn storage_failure_handler(failure: &StorageFailure) -> (parsed: (u32, String))
    ensures
        parsed.0 == failure.failure().code(),
        parsed.1@ == failure.failure().message(),
{
    match failure {
        StorageFailure::Decode(description) => (DATA_FORMAT_CODE, description.clone()),
        StorageFailure::ColumnDecode(description) => (DATA_FORMAT_CODE, description.clone()),
        StorageFailure::Other => (STORAGE_CODE, "internal server error".to_owned()),
    }
}

/// Code and message of a failure of the store: those of the class that is
/// read off the error. A decode failure shows its description under the
/// code of format errors; any other failure shows no detail.
pub fn database_error_handler(err: &sqlx::Error) -> (parsed: (u32, String))
    ensures
        parsed.0 == storage_class(*err).failure().code(),
        parsed.1@ == storage_class(*err).failure().message(),
{
    let failure = storage_failure(err);
    storage_failure_handler(&failure)
}

/// Code and message of an unrecognized category: the description of the
/// failed lookup, followed by the string that was looked up.
pub fn data_format_error_handler(err: &strum::ParseError, target: &str) -> (parsed: (u32, String))
    ensures
        parsed.0 == Failure::Validation(target@).code(),
        parsed.1@ == Failure::Validation(target@).message(),
{
    let mut message = parse_error_text(err);
    message.append(": ");
    message.append(target);
    (DATA_FORMAT_CODE, message)
}

/// The single recovery point: turns any rejection into the reply that the
/// client sees. The reply always carries an envelope. Its status is fixed
/// for the failures that are no domain errors and projected from the code
/// for those that are.
pub fn api_error_handler(err: &Rejection) -> (reply: Reply)
    ensures
        reply@ == err.failure().reply(),
{
    let mut http_code: Option<u16> = None;
    let code: u32;
    let message: String;
    match err {
        Rejection::NotFound => {
            code = 404;
            message = "not found".to_owned();
        },
        Rejection::BodyMalformed => {
            code = 422;
            message = "failed to process request body".to_owned();
        },
        Rejection::BodyTooLarge => {
            code = 400;
            message = "request body is too large".to_owned();
        },
        Rejection::Domain(ApiError::DatabaseError(error)) => {
            let parsed = database_error_handler(error);
            code = parsed.0;
            message = parsed.1;
            http_code = api_code_to_http(code);
        },
        Rejection::Domain(ApiError::DataFormatError { source, target }) => {
            let parsed = data_format_error_handler(source, target.as_str());
            code = parsed.0;
            message = parsed.1;
            http_code = api_code_to_http(code);
        },
        Rejection::Unclassified => {
            code = 500;
            message = "internal server error".to_owned();
        },
    }
    let status: u16 = match http_code {
        Some(status) => status,
        None => fixed_status(code),
    };
    Reply { status, body: Body::Error(ErrorMessage { code, message }) }
}

/// The status of a failure that is no domain error: its code, where that is
/// a valid status, and an internal error otherwise.
fn fixed_status(code: u32) -> (status: u16)
    ensures
        status == if 100 <= code < 1000 {
            code as u16
        } else {
            INTERNAL_SERVER_ERROR
        },
{
    if 100 <= code && code < 1000 {
        code as u16
    } else {
        INTERNAL_SERVER_ERROR
    }
}

} // verus!
