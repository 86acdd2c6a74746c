//! The error taxonomy: a closed set of domain error kinds, and the
//! deterministic mapping from HTTP status codes (and, for rate limiting,
//! the response body) onto it.

use vstd::prelude::*;

verus! {

/// The closed set of domain errors. Only rate limiting carries a payload:
/// the number of seconds after which the caller may retry.
#[derive(Clone, Debug, PartialEq, Eq, Structural)]
pub enum Error {
    InternalServerError,
    NotFoundError,
    PermissionDeniedError,
    RateLimitedError { retry_after: i64 },
    UnprocessableEntityError,
    ValidationError,
    BadRequest,
    Unauthorized,
}

/// What the rate-limit body `{"retryAfter": n}` parses to, if anything.
/// Applied by the `parse_retry_after` wrapper below.
pub uninterp spec fn retry_after_of(body: Seq<u8>) -> Option<i64>;

/// The status-code to error-kind mapping. A 429 carries the retry delay
/// parsed from its body; a body that does not parse degrades the error to
/// `InternalServerError`. Every status outside the table maps to
/// `InternalServerError` as well.
pub open spec fn classify(status: u16, retry: Option<i64>) -> Error {
    if status == 400 {
        Error::BadRequest
    } else if status == 401 {
        Error::Unauthorized
    } else if status == 403 {
        Error::PermissionDeniedError
    } else if status == 404 {
        Error::NotFoundError
    } else if status == 422 {
        Error::UnprocessableEntityError
    } else if status == 429 {
        match retry {
            Some(seconds) => Error::RateLimitedError { retry_after: seconds },
            None => Error::InternalServerError,
        }
    } else {
        Error::InternalServerError
    }
}

/// True for every status the pipeline does not accept as success.
pub open spec fn spec_is_error_code(status: u16) -> bool {
    status != 200 && status != 201
}

/// The classification table, status by status, for every body: 400 is a
/// bad request, 401 unauthorized, 403 permission denied, 404 not found,
/// 422 unprocessable; a 429 whose body parsed carries the parsed delay
/// and one whose body did not parse degrades to an internal error; any
/// other status is an internal error. The accepted statuses 200 and 201
/// are never classified by the pipeline, which consults the taxonomy
/// only when `spec_is_error_code` holds.
pub proof fn lemma_classification_table(retry: Option<i64>, seconds: i64)
    ensures
        classify(400, retry) == Error::BadRequest,
        classify(401, retry) == Error::Unauthorized,
        classify(403, retry) == Error::PermissionDeniedError,
        classify(404, retry) == Error::NotFoundError,
        classify(422, retry) == Error::UnprocessableEntityError,
        classify(429, Some(seconds)) == (Error::RateLimitedError { retry_after: seconds }),
        classify(429, None) == Error::InternalServerError,
        classify(500, retry) == Error::InternalServerError,
        !spec_is_error_code(200) && !spec_is_error_code(201),
{
}

/// Relies on serde_json: parses the body as JSON and reads its
/// `retryAfter` field as a signed integer, if the body is an object
/// carrying one.
#[verifier::external_body]
fn parse_retry_after(body: &[u8]) -> (r: Option<i64>)
    ensures
        r == retry_after_of(body@),
{
    let value: serde_json::Value = serde_json::from_slice(body).ok()?;
    value.get("retryAfter")?.as_i64()
}

impl Error {
    /// The human-readable text of the error.
    pub open spec fn spec_message(&self) -> Seq<char> {
        match self {
            Error::InternalServerError => "Internal Server Error"@,
            Error::NotFoundError => "Not Found Error"@,
            Error::PermissionDeniedError => "Permission Denied Error"@,
            Error::RateLimitedError { retry_after } => "Rate Limited Error (retry after "@
                + crate::textfmt::dec_digits_signed(*retry_after as int) + " seconds)"@,
            Error::UnprocessableEntityError => "Unprocessable Entity Error"@,
            Error::ValidationError => "Validation Error"@,
            Error::BadRequest => "Bad Request"@,
            Error::Unauthorized => "Unauthorized. Invalid token."@,
        }
    }

    /// Renders the error for display.
    pub fn message(&self) -> (r: String)
        ensures
            r@ == self.spec_message(),
    {
        match self {
            Error::InternalServerError => "Internal Server Error".to_owned(),
            Error::NotFoundError => "Not Found Error".to_owned(),
            Error::PermissionDeniedError => "Permission Denied Error".to_owned(),
            Error::RateLimitedError { retry_after } => {
                let mut out = "Rate Limited Error (retry after ".to_owned();
                vstd::string::StringExecFns::append(
                    &mut out,
                    crate::textfmt::i64_to_string(*retry_after).as_str(),
                );
                vstd::string::StringExecFns::append(&mut out, " seconds)");
                out
            },
            Error::UnprocessableEntityError => "Unprocessable Entity Error".to_owned(),
            Error::ValidationError => "Validation Error".to_owned(),
            Error::BadRequest => "Bad Request".to_owned(),
            Error::Unauthorized => "Unauthorized. Invalid token.".to_owned(),
        }
    }

    /// Every status except 200 and 201 is an error.
    pub fn is_error_code(status_code: u16) -> (r: bool)
        ensures
            r == spec_is_error_code(status_code),
    {
        status_code != 200 && status_code != 201
    }

    /// Classifies an error response: the deterministic status-code table,
    /// with the body consulted (exactly once) only for rate limiting.
    pub fn to_error(status_code: u16, body: &[u8]) -> (r: Error)
        ensures
            r == classify(status_code, retry_after_of(body@)),
    {
        if status_code == 400 {
            Error::BadRequest
        } else if status_code == 401 {
            Error::Unauthorized
        } else if status_code == 403 {
            Error::PermissionDeniedError
        } else if status_code == 404 {
            Error::NotFoundError
        } else if status_code == 422 {
            Error::UnprocessableEntityError
        } else if status_code == 429 {
            match parse_retry_after(body) {
                Some(seconds) => Error::RateLimitedError { retry_after: seconds },
                None => Error::InternalServerError,
            }
        } else {
            Error::InternalServerError
        }
    }
}

} // verus!
