use vstd::prelude::*;
use vstd::string::StringExecFns;

use crate::text::dec_digits;
use crate::text::opt_str_view;
use crate::text::str_eq;
use crate::text::u64_to_dec;

verus! {

/// The canonical reason phrase of an HTTP status code, when the code has
/// one — a fixed table, a function of the code alone.
pub uninterp spec fn reason_of(code: u16) -> Option<Seq<char>>;

/// Relies on `StatusCode::from_u16` and `StatusCode::canonical_reason` of
/// the `http` crate (through reqwest's re-export): the canonical reason
/// phrase of a status code, `None` for codes outside `100..=999` and for
/// codes the table does not know.
#[verifier::external_body]
fn canonical_reason_of(code: u16) -> (r: Option<String>)
    ensures
        opt_str_view(r) == reason_of(code),
{
    match reqwest::StatusCode::from_u16(code) {
        Ok(status) => status.canonical_reason().map(str::to_owned),
        Err(_) => None,
    }
}

/// How a status code is rendered in an error message: the decimal code,
/// followed by its canonical reason when one is known.
pub open spec fn status_code_text(code: u16) -> Seq<char> {
    match reason_of(code) {
        Some(reason) => dec_digits(code as nat) + seq![' '] + reason,
        None => dec_digits(code as nat),
    }
}

/// Render a status code with its canonical reason, when it has one.
fn status_code_and_reason(code: u16) -> (r: String)
    ensures
        r@ == status_code_text(code),
{
    let mut s = u64_to_dec(code as u64);
    match canonical_reason_of(code) {
        Some(reason) => {
            s.append(" ");
            proof {
                reveal_strlit(" ");
                assert(" "@ =~= seq![' ']);
            }
            s.append(reason.as_str());
        },
        None => {},
    }
    s
}

/// The closed error taxonomy of the API client.
///
/// Transport, body-read, decode and local-file failures carry the underlying
/// error rendered as a string; the classified API-level failures are plain
/// variants; anything unrecognized carries the raw status code and, when one
/// was received, the upstream message.
#[derive(Clone, Debug, PartialEq, Eq)]
pub enum GazelleError {
    /// An error occurred creating or sending the request.
    Request(String),
    /// An error occurred extracting the body of the response.
    Response(String),
    /// An error occurred deserializing the body as JSON.
    Deserialization(String),
    /// An error occurred reading the torrent file to upload.
    Upload(String),
    /// 400 Bad Request: the resource was not found or a parameter was bad.
    BadRequest,
    /// 401 Unauthorized: the API key is invalid.
    Unauthorized,
    /// 404 Not Found: the requested resource does not exist.
    NotFound,
    /// 429 Too Many Requests: the rate limit has been hit.
    TooManyRequests,
    /// An unexpected status code together with the error message received.
    Unexpected(u16, String),
    /// An unexpected status code with no error message at all.
    Empty(u16),
}

/// The classification a raw HTTP status code falls under, if any.
pub open spec fn status_error(code: u16) -> Option<GazelleError> {
    if code == 400 {
        Some(GazelleError::BadRequest)
    } else if code == 401 {
        Some(GazelleError::Unauthorized)
    } else if code == 404 {
        Some(GazelleError::NotFound)
    } else if code == 429 {
        Some(GazelleError::TooManyRequests)
    } else {
        None
    }
}

/// The classification an upstream error message falls under, if any:
/// the fixed lexicon of known error phrases, matched verbatim.
pub open spec fn message_error(msg: Seq<char>) -> Option<GazelleError> {
    if msg == "bad id parameter"@ || msg == "bad parameters"@ || msg == "no such user"@ {
        Some(GazelleError::BadRequest)
    } else if msg == "This page is limited to API key usage only."@ || msg
        == "This page requires an api token"@ {
        Some(GazelleError::Unauthorized)
    } else if msg == "endpoint not found"@ || msg == "failure"@ || msg
        == "could not find torrent"@ {
        Some(GazelleError::NotFound)
    } else if msg == "Rate limit exceeded"@ {
        Some(GazelleError::TooManyRequests)
    } else {
        None
    }
}

/// The human-readable description of an error.
pub open spec fn spec_message(e: GazelleError) -> Seq<char> {
    match e {
        GazelleError::Request(m) => "Failed to send API request: "@ + m@,
        GazelleError::Response(m) => "Failed to read API response: "@ + m@,
        GazelleError::Deserialization(m) => "Failed to deserialize API response: "@ + m@,
        GazelleError::Upload(m) => "Failed to upload torrent file: "@ + m@,
        GazelleError::BadRequest => "Invalid parameters"@,
        GazelleError::Unauthorized => "Invalid API key"@,
        GazelleError::NotFound => "Resource does not exist"@,
        GazelleError::TooManyRequests => "Exceeded rate limit"@,
        GazelleError::Unexpected(code, m) => "Unexpected API response ("@ + status_code_text(code)
            + "): "@ + m@,
        GazelleError::Empty(code) => "Unexpected API response without error message ("@
            + status_code_text(code) + ")"@,
    }
}

impl GazelleError {
    /// Wrap a rendered transport error from sending the request.
    pub fn request(error: String) -> (r: GazelleError)
        ensures
            r == GazelleError::Request(error),
    {
        GazelleError::Request(error)
    }

    /// Wrap a rendered transport error from reading the response body.
    pub fn response(error: String) -> (r: GazelleError)
        ensures
            r == GazelleError::Response(error),
    {
        GazelleError::Response(error)
    }

    /// Wrap a rendered JSON decoding error.
    pub fn deserialization(error: String) -> (r: GazelleError)
        ensures
            r == GazelleError::Deserialization(error),
    {
        GazelleError::Deserialization(error)
    }

    /// Wrap a rendered local I/O error from reading a file to upload.
    pub fn upload(error: String) -> (r: GazelleError)
        ensures
            r == GazelleError::Upload(error),
    {
        GazelleError::Upload(error)
    }

    /// An unexpected status code together with an unrecognized message.
    pub fn unexpected(status_code: u16, error: String) -> (r: GazelleError)
        ensures
            r == GazelleError::Unexpected(status_code, error),
    {
        GazelleError::Unexpected(status_code, error)
    }

    /// An unexpected status code without any error message.
    pub fn empty(status_code: u16) -> (r: GazelleError)
        ensures
            r == GazelleError::Empty(status_code),
    {
        GazelleError::Empty(status_code)
    }

    /// Get a `GazelleError` if the status code indicates a known client
    /// error.
    pub fn match_client_error(status_code: u16) -> (r: Option<GazelleError>)
        ensures
            r == status_error(status_code),
    {
        if status_code == 400 {
            Some(GazelleError::BadRequest)
        } else if status_code == 401 {
            Some(GazelleError::Unauthorized)
        } else if status_code == 404 {
            Some(GazelleError::NotFound)
        } else if status_code == 429 {
            Some(GazelleError::TooManyRequests)
        } else {
            None
        }
    }

    /// Get a `GazelleError` if the response `error` string matches the
    /// lexicon of known upstream error phrases.
    pub fn match_response_error(value: &str) -> (r: Option<GazelleError>)
        ensures
            r == message_error(value@),
    {
        if str_eq(value, "bad id parameter") || str_eq(value, "bad parameters") || str_eq(
            value,
            "no such user",
        ) {
            Some(GazelleError::BadRequest)
        } else if str_eq(value, "This page is limited to API key usage only.") || str_eq(
            value,
            "This page requires an api token",
        ) {
            Some(GazelleError::Unauthorized)
        } else if str_eq(value, "endpoint not found") || str_eq(value, "failure") || str_eq(
            value,
            "could not find torrent",
        ) {
            Some(GazelleError::NotFound)
        } else if str_eq(value, "Rate limit exceeded") {
            Some(GazelleError::TooManyRequests)
        } else {
            None
        }
    }

    /// The human-readable description of this error.
    pub fn message(&self) -> (r: String)
        ensures
            r@ == spec_message(*self),
    {
        match self {
            GazelleError::Request(m) => {
                let mut s = "Failed to send API request: ".to_owned();
                s.append(m.as_str());
                s
            },
            GazelleError::Response(m) => {
                let mut s = "Failed to read API response: ".to_owned();
                s.append(m.as_str());
                s
            },
            GazelleError::Deserialization(m) => {
                let mut s = "Failed to deserialize API response: ".to_owned();
                s.append(m.as_str());
                s
            },
            GazelleError::Upload(m) => {
                let mut s = "Failed to upload torrent file: ".to_owned();
                s.append(m.as_str());
                s
            },
            GazelleError::BadRequest => "Invalid parameters".to_owned(),
            GazelleError::Unauthorized => "Invalid API key".to_owned(),
            GazelleError::NotFound => "Resource does not exist".to_owned(),
            GazelleError::TooManyRequests => "Exceeded rate limit".to_owned(),
            GazelleError::Unexpected(code, m) => {
                let mut s = "Unexpected API response (".to_owned();
                let rendered = status_code_and_reason(*code);
                s.append(rendered.as_str());
                s.append("): ");
                s.append(m.as_str());
                s
            },
            GazelleError::Empty(code) => {
                let mut s = "Unexpected API response without error message (".to_owned();
                let rendered = status_code_and_reason(*code);
                s.append(rendered.as_str());
                s.append(")");
                s
            },
        }
    }
}

} // verus!
