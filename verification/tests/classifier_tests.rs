use gazelle_api::{ApiResponse, GazelleError};

fn envelope(status: &str, response: Option<i32>, error: Option<&str>) -> ApiResponse<i32> {
    ApiResponse { status: status.to_owned(), response, error: error.map(str::to_owned) }
}

#[test]
fn message_match_wins_over_status_fallback() {
    // Status 400 alone would say BadRequest; the message must win.
    let env = envelope("failure", None, Some("Rate limit exceeded"));
    let result = gazelle_api::get_result(400, env);
    assert_eq!(result, Err(GazelleError::TooManyRequests));
}

#[test]
fn status_fallback_applies_on_unrecognized_message() {
    let env = envelope("failure", None, Some("some novel error"));
    let result = gazelle_api::get_result(400, env);
    assert_eq!(result, Err(GazelleError::BadRequest));
}

#[test]
fn status_fallback_applies_on_absent_message() {
    let env = envelope("failure", None, None);
    let result = gazelle_api::get_result(400, env);
    assert_eq!(result, Err(GazelleError::BadRequest));
}

#[test]
fn empty_success_envelope_is_an_error() {
    // Status 200, status "success", no payload: an error, never a default.
    let env = envelope("success", None, None);
    let result = gazelle_api::get_result(200, env);
    assert_eq!(result, Err(GazelleError::Empty(200)));
}

#[test]
fn success_with_payload_returns_payload() {
    let env = envelope("success", Some(42), None);
    let result = gazelle_api::get_result(200, env);
    assert_eq!(result, Ok(42));
}

#[test]
fn unrecognized_message_without_payload_is_unexpected() {
    let env = envelope("failure", None, Some("some novel error"));
    let result = gazelle_api::get_result(200, env);
    assert_eq!(result, Err(GazelleError::Unexpected(200, "some novel error".to_owned())));
}

#[test]
fn match_response_error_knows_the_lexicon() {
    let cases: Vec<(&str, GazelleError)> = vec![
        ("bad id parameter", GazelleError::BadRequest),
        ("bad parameters", GazelleError::BadRequest),
        ("no such user", GazelleError::BadRequest),
        (
            "This page is limited to API key usage only.",
            GazelleError::Unauthorized,
        ),
        ("This page requires an api token", GazelleError::Unauthorized),
        ("endpoint not found", GazelleError::NotFound),
        ("failure", GazelleError::NotFound),
        ("could not find torrent", GazelleError::NotFound),
        ("Rate limit exceeded", GazelleError::TooManyRequests),
    ];
    for (message, expected) in cases {
        assert_eq!(GazelleError::match_response_error(message), Some(expected));
    }
    assert_eq!(GazelleError::match_response_error("Rate Limit Exceeded"), None);
    assert_eq!(GazelleError::match_response_error(""), None);
}

#[test]
fn match_client_error_knows_the_status_codes() {
    assert_eq!(GazelleError::match_client_error(400), Some(GazelleError::BadRequest));
    assert_eq!(GazelleError::match_client_error(401), Some(GazelleError::Unauthorized));
    assert_eq!(GazelleError::match_client_error(404), Some(GazelleError::NotFound));
    assert_eq!(GazelleError::match_client_error(429), Some(GazelleError::TooManyRequests));
    assert_eq!(GazelleError::match_client_error(200), None);
    assert_eq!(GazelleError::match_client_error(500), None);
}

#[test]
fn messages_describe_each_kind() {
    assert_eq!(
        GazelleError::request("boom".to_owned()).message(),
        "Failed to send API request: boom"
    );
    assert_eq!(
        GazelleError::response("gone".to_owned()).message(),
        "Failed to read API response: gone"
    );
    assert_eq!(
        GazelleError::deserialization("bad json".to_owned()).message(),
        "Failed to deserialize API response: bad json"
    );
    assert_eq!(
        GazelleError::upload("no file".to_owned()).message(),
        "Failed to upload torrent file: no file"
    );
    assert_eq!(GazelleError::BadRequest.message(), "Invalid parameters");
    assert_eq!(GazelleError::Unauthorized.message(), "Invalid API key");
    assert_eq!(GazelleError::NotFound.message(), "Resource does not exist");
    assert_eq!(GazelleError::TooManyRequests.message(), "Exceeded rate limit");
    assert_eq!(
        GazelleError::unexpected(418, "odd".to_owned()).message(),
        "Unexpected API response (418 I'm a teapot): odd"
    );
    assert_eq!(
        GazelleError::empty(502).message(),
        "Unexpected API response without error message (502 Bad Gateway)"
    );
}

#[test]
fn messages_render_the_canonical_reason_when_known() {
    assert_eq!(
        GazelleError::empty(404).message(),
        "Unexpected API response without error message (404 Not Found)"
    );
    assert_eq!(
        GazelleError::unexpected(500, "boom".to_owned()).message(),
        "Unexpected API response (500 Internal Server Error): boom"
    );
    // A code without a canonical reason, and one outside the valid range,
    // render as the bare number.
    assert_eq!(
        GazelleError::empty(599).message(),
        "Unexpected API response without error message (599)"
    );
    assert_eq!(
        GazelleError::unexpected(99, "low".to_owned()).message(),
        "Unexpected API response (99): low"
    );
}
