use vstd::prelude::*;
use vstd::string::StringExecFns;
use vstd::string::StringSliceAdditionalSpecFns;

use crate::error::GazelleError;
use crate::error::message_error;
use crate::error::status_error;
use crate::schema::ApiResponse;
use crate::search::contains_sub;
use crate::search::contains_sub_spec;
use crate::search::strip_sub;
use crate::search::strip_sub_spec;
use crate::text::opt_str_view;
use crate::text::u64_to_dec;
use crate::text::dec_digits;

verus! {

broadcast use vstd::string::group_string_axioms;

#[verifier::external_type_specification]
#[verifier::external_body]
pub struct ExValue(serde_json::Value);

/// Whether the bytes parse as a JSON envelope: a value carrying a `status`
/// string, so that the typed decode of the original shape would accept it.
pub uninterp spec fn envelope_wellformed(s: Seq<u8>) -> bool;

/// The `status` string of a well-formed envelope.
pub uninterp spec fn envelope_status(s: Seq<u8>) -> Seq<char>;

/// The `error` string of a well-formed envelope, when present.
pub uninterp spec fn envelope_error(s: Seq<u8>) -> Option<Seq<char>>;

/// Whether a well-formed envelope carries a `response` payload.
pub uninterp spec fn envelope_has_payload(s: Seq<u8>) -> bool;

/// The malformed fragment one deployment inserts into failure envelopes:
/// a spurious empty `response` array standing beside the real `error`
/// field, which would break structural decoding of the payload.
pub open spec fn empty_response_marker() -> Seq<u8> {
    "\"response\":[],".spec_bytes()
}

/// The body bytes after input sanitization: every occurrence of the known
/// malformed fragment is removed before structural decoding.
pub open spec fn normalized_body(body: Seq<u8>) -> Seq<u8> {
    strip_sub_spec(body, empty_response_marker())
}

/// Relies on `serde_json::from_slice` to parse the bytes into a
/// `serde_json::Value`, and on `Value::get` / `Value::as_str` /
/// `Value::is_null` to read the envelope's `status`, `error` and
/// `response` fields, as the typed decode of the envelope shape would:
/// `status` must be a string, a null or absent `error` or `response`
/// counts as absent, and a non-string `error` refuses the envelope.  The
/// outcome is a function of the input bytes alone, named by the
/// `envelope_*` spec functions.
#[verifier::external_body]
fn parse_envelope(json: &Vec<u8>) -> (r: Result<ApiResponse<serde_json::Value>, String>)
    ensures
        r is Ok <==> envelope_wellformed(json@),
        r matches Ok(env) ==> env.status@ == envelope_status(json@),
        r matches Ok(env) ==> opt_str_view(env.error) == envelope_error(json@),
        r matches Ok(env) ==> (env.response is Some) == envelope_has_payload(json@),
{
    let v: serde_json::Value = match serde_json::from_slice(json) {
        Ok(v) => v,
        Err(e) => return Err(e.to_string()),
    };
    let status = match v.get("status").and_then(serde_json::Value::as_str) {
        Some(s) => s.to_owned(),
        None => return Err("envelope carries no status string".to_owned()),
    };
    let error = match v.get("error").filter(|e| !e.is_null()).map(serde_json::Value::as_str) {
        None => None,
        Some(Some(s)) => Some(s.to_owned()),
        Some(None) => return Err("envelope error is not a string".to_owned()),
    };
    let response = v.get("response").filter(|p| !p.is_null()).cloned();
    Ok(ApiResponse { status, response, error })
}

/// Decode a response body into the envelope shape.
///
/// The known-malformed empty `response` array is stripped first, so that a
/// failure envelope carrying it still decodes instead of spuriously
/// failing with a deserialization error.
pub fn deserialize(json: &str) -> (r: Result<ApiResponse<serde_json::Value>, GazelleError>)
    ensures
        r is Ok <==> envelope_wellformed(normalized_body(json.spec_bytes())),
        r matches Ok(env) ==> env.status@ == envelope_status(normalized_body(json.spec_bytes())),
        r matches Ok(env) ==> opt_str_view(env.error) == envelope_error(
            normalized_body(json.spec_bytes()),
        ),
        r matches Ok(env) ==> (env.response is Some) == envelope_has_payload(
            normalized_body(json.spec_bytes()),
        ),
        r matches Err(e) ==> e matches GazelleError::Deserialization(_),
{
    let marker = "\"response\":[],";
    proof {
        reveal_strlit("\"response\":[],");
        assert(vstd::string::is_ascii(marker));
        vstd::utf8::is_ascii_chars_encode_utf8(marker@);
        assert(marker.spec_bytes().len() == 14);
    }
    let cleaned = strip_sub(json.as_bytes(), marker.as_bytes());
    match parse_envelope(&cleaned) {
        Ok(env) => Ok(env),
        Err(m) => Err(GazelleError::Deserialization(m)),
    }
}

/// The lexicon classification of an optional upstream error message.
pub open spec fn message_error_of(error: Option<String>) -> Option<GazelleError> {
    match error {
        Some(m) => message_error(m@),
        None => None,
    }
}

/// The outcome the classifier owes for a (status code, envelope) pair:
/// a recognized error message wins over the status-code fallback; when
/// both are silent, a present payload is success and an absent one is an
/// error in every case, never a default value.
pub open spec fn classified<T>(status_code: u16, response: ApiResponse<T>) -> Result<
    T,
    GazelleError,
> {
    match message_error_of(response.error) {
        Some(e) => Err(e),
        None => match status_error(status_code) {
            Some(e) => Err(e),
            None => match response.response {
                Some(payload) => Ok(payload),
                None => match response.error {
                    Some(m) => Err(GazelleError::Unexpected(status_code, m)),
                    None => Err(GazelleError::Empty(status_code)),
                },
            },
        },
    }
}

/// Classify a decoded envelope against the status code of its response.
pub fn get_result<T>(status_code: u16, response: ApiResponse<T>) -> (r: Result<T, GazelleError>)
    ensures
        r == classified(status_code, response),
{
    if let Some(message) = &response.error {
        if let Some(error) = GazelleError::match_response_error(message.as_str()) {
            return Err(error);
        }
    }
    if let Some(error) = GazelleError::match_client_error(status_code) {
        return Err(error);
    }
    match response.response {
        Some(payload) => Ok(payload),
        None => match response.error {
            Some(message) => Err(GazelleError::unexpected(status_code, message)),
            None => Err(GazelleError::empty(status_code)),
        },
    }
}

/// Law (classifier precedence): whenever the envelope's error message
/// matches the lexicon, the classification is the lexicon's, whatever the
/// status code says.
pub proof fn lemma_message_wins_over_status<T>(status_code: u16, response: ApiResponse<T>)
    requires
        message_error_of(response.error) is Some,
    ensures
        classified(status_code, response) == Err::<T, GazelleError>(
            message_error_of(response.error).unwrap(),
        ),
{
}

/// Law (status fallback): when the message lexicon is silent, a recognized
/// status code alone decides the classification.
pub proof fn lemma_status_fallback<T>(status_code: u16, response: ApiResponse<T>)
    requires
        message_error_of(response.error) is None,
        status_error(status_code) is Some,
    ensures
        classified(status_code, response) == Err::<T, GazelleError>(
            status_error(status_code).unwrap(),
        ),
{
}

/// Law (empty success envelope): an envelope without a payload never
/// classifies as success, whatever its status code and message; in
/// particular it is never a default value of the payload type.
pub proof fn lemma_empty_envelope_is_error<T>(status_code: u16, response: ApiResponse<T>)
    requires
        response.response is None,
    ensures
        classified(status_code, response) is Err,
{
}

/// Law (round trip): when the message lexicon and the status fallback are
/// both silent and the envelope carries a payload, the classification
/// returns exactly that payload, untouched.
pub proof fn lemma_silent_success_returns_payload<T>(status_code: u16, response: ApiResponse<T>)
    requires
        message_error_of(response.error) is None,
        status_error(status_code) is None,
        response.response is Some,
    ensures
        classified(status_code, response) == Ok::<T, GazelleError>(response.response.unwrap()),
{
}

/// The lexicon classification of the named envelope error, at spec level.
pub open spec fn lexicon_match(error: Option<Seq<char>>) -> Option<GazelleError> {
    match error {
        Some(m) => message_error(m),
        None => None,
    }
}

/// Neither the message lexicon nor the status-code fallback classifies
/// this response.
pub open spec fn both_silent(status_code: u16, error: Option<Seq<char>>) -> bool {
    lexicon_match(error) is None && status_error(status_code) is None
}

/// Handle the textual body of one response: sanitize, decode, classify.
///
/// This is the single choke point between the transport and the typed
/// payload: a body that does not decode is a deserialization error, and a
/// decoded envelope is classified exactly as [`classified`] prescribes.
pub fn classify_body(status_code: u16, body: &str) -> (r: Result<serde_json::Value, GazelleError>)
    ensures
        ({
            let norm = normalized_body(body.spec_bytes());
            let err = envelope_error(norm);
            &&& !envelope_wellformed(norm) ==> (r matches Err(GazelleError::Deserialization(_)))
            &&& envelope_wellformed(norm) && lexicon_match(err) is Some ==> r == Err::<
                serde_json::Value,
                GazelleError,
            >(lexicon_match(err).unwrap())
            &&& envelope_wellformed(norm) && lexicon_match(err) is None && status_error(
                status_code,
            ) is Some ==> r == Err::<serde_json::Value, GazelleError>(
                status_error(status_code).unwrap(),
            )
            &&& envelope_wellformed(norm) && both_silent(status_code, err) ==> (r is Ok
                <==> envelope_has_payload(norm))
            &&& envelope_wellformed(norm) && both_silent(status_code, err)
                && !envelope_has_payload(norm) ==> (match err {
                Some(m) => (r matches Err(GazelleError::Unexpected(c, ms)) && c == status_code
                    && ms@ == m),
                None => r == Err::<serde_json::Value, GazelleError>(
                    GazelleError::Empty(status_code),
                ),
            })
        }),
{
    match deserialize(body) {
        Err(e) => Err(e),
        Ok(env) => {
            let ghost norm = normalized_body(body.spec_bytes());
            proof {
                assert(message_error_of(env.error) == lexicon_match(envelope_error(norm)));
            }
            get_result(status_code, env)
        },
    }
}

/// Does a `Content-Type` header value announce a torrent-file body?
///
/// The download endpoint answers with either raw torrent bytes or a JSON
/// error envelope; this test decides which decoding path applies.
pub fn is_torrent_content_type(content_type: &str) -> (r: bool)
    ensures
        r == contains_sub_spec(
            content_type.spec_bytes(),
            "application/x-bittorrent".spec_bytes(),
        ),
{
    contains_sub(content_type.as_bytes(), "application/x-bittorrent".as_bytes())
}

/// Is this HTTP status code in the success class?
pub open spec fn spec_is_success(code: u16) -> bool {
    200 <= code < 300
}

/// Exec mirror of [`spec_is_success`]: the test the download paths use to
/// decide whether a torrent-typed body is really the file content.
pub fn is_success_code(code: u16) -> (r: bool)
    ensures
        r == spec_is_success(code),
{
    200 <= code && code < 300
}

/// The query string of an action-dispatch request: `action=<name>&id=<id>`.
pub fn action_query(action: &str, id: u32) -> (r: String)
    ensures
        r@ == "action="@ + action@ + "&id="@ + dec_digits(id as nat),
{
    let mut s = "action=".to_owned();
    s.append(action);
    s.append("&id=");
    let digits = u64_to_dec(id as u64);
    s.append(digits.as_str());
    s
}

/// The request path for a query against the JSON dispatch endpoint.
pub fn ajax_path(query: &str) -> (r: String)
    ensures
        r@ == "/ajax.php?"@ + query@,
{
    let mut s = "/ajax.php?".to_owned();
    s.append(query);
    s
}

} // verus!
