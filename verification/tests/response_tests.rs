use gazelle_api::GazelleError;

#[test]
fn malformed_empty_array_envelope_decodes_and_classifies() {
    // The known malformed shape must decode and classify as BadRequest,
    // not fail with a deserialization error.
    let body = "{\"status\":\"failure\",\"response\":[],\"error\":\"bad id parameter\"}";
    let envelope = gazelle_api::deserialize(body).expect("the malformed envelope must decode");
    assert_eq!(envelope.status, "failure");
    assert!(envelope.response.is_none());
    assert_eq!(envelope.error.as_deref(), Some("bad id parameter"));
    let result = gazelle_api::classify_body(200, body);
    assert_eq!(result.unwrap_err(), GazelleError::BadRequest);
}

#[test]
fn round_trip_success_returns_typed_payload() {
    // A stub transport answer for item 12345 yields a payload with that id.
    let body = "{\"status\":\"success\",\"response\":{\"id\":12345,\"media\":\"WEB\"}}";
    let payload = gazelle_api::classify_body(200, body).expect("the call must succeed");
    assert_eq!(payload.get("id").and_then(|v| v.as_u64()), Some(12345));
    assert_eq!(payload.get("media").and_then(|v| v.as_str()), Some("WEB"));
}

#[test]
fn unparseable_body_is_a_deserialization_error() {
    let result = gazelle_api::classify_body(200, "this is not json");
    assert!(matches!(result, Err(GazelleError::Deserialization(_))));
}

#[test]
fn envelope_without_status_is_a_deserialization_error() {
    let result = gazelle_api::classify_body(200, "{\"response\":{\"id\":1}}");
    assert!(matches!(result, Err(GazelleError::Deserialization(_))));
}

#[test]
fn well_formed_failure_keeps_its_payload_free_shape() {
    let body = "{\"status\":\"failure\",\"error\":\"could not find torrent\"}";
    let result = gazelle_api::classify_body(200, body);
    assert_eq!(result.unwrap_err(), GazelleError::NotFound);
}

#[test]
fn marker_is_stripped_everywhere_but_real_payloads_survive() {
    // A payload placed after the malformed fragment is still decoded.
    let body = "{\"status\":\"success\",\"response\":[],\"error\":null,\"x\":1}";
    let envelope = gazelle_api::deserialize(body).expect("should decode");
    assert!(envelope.response.is_none());
    // Without the fragment, an array payload stays a payload.
    let body = "{\"status\":\"success\",\"response\":[1,2]}";
    let envelope = gazelle_api::deserialize(body).expect("should decode");
    assert!(envelope.response.is_some());
}

#[test]
fn null_response_field_counts_as_absent() {
    // A null payload is no payload: the empty-success rule applies.
    let body = "{\"status\":\"success\",\"response\":null}";
    let envelope = gazelle_api::deserialize(body).expect("should decode");
    assert!(envelope.response.is_none());
    let result = gazelle_api::classify_body(200, body);
    assert_eq!(result.unwrap_err(), GazelleError::Empty(200));
}

#[test]
fn null_error_field_counts_as_absent() {
    let body = "{\"status\":\"success\",\"response\":{\"id\":7},\"error\":null}";
    let payload = gazelle_api::classify_body(200, body).expect("should succeed");
    assert_eq!(payload.get("id").and_then(|v| v.as_u64()), Some(7));
}

#[test]
fn non_string_error_field_refuses_the_envelope() {
    let body = "{\"status\":\"failure\",\"error\":42}";
    let result = gazelle_api::classify_body(200, body);
    assert!(matches!(result, Err(GazelleError::Deserialization(_))));
}

#[test]
fn success_codes_are_the_two_hundreds() {
    assert!(gazelle_api::is_success_code(200));
    assert!(gazelle_api::is_success_code(204));
    assert!(gazelle_api::is_success_code(299));
    assert!(!gazelle_api::is_success_code(199));
    assert!(!gazelle_api::is_success_code(300));
    assert!(!gazelle_api::is_success_code(404));
}

#[test]
fn rate_limited_answer_beats_its_status_code() {
    let body = "{\"status\":\"failure\",\"error\":\"Rate limit exceeded\"}";
    let result = gazelle_api::classify_body(400, body);
    assert_eq!(result.unwrap_err(), GazelleError::TooManyRequests);
}

#[test]
fn torrent_content_type_is_recognized() {
    assert!(gazelle_api::is_torrent_content_type("application/x-bittorrent"));
    assert!(gazelle_api::is_torrent_content_type(
        "application/x-bittorrent; charset=utf-8"
    ));
    assert!(!gazelle_api::is_torrent_content_type("application/json"));
    assert!(!gazelle_api::is_torrent_content_type(""));
}

#[test]
fn action_queries_are_formatted() {
    assert_eq!(gazelle_api::action_query("torrent", 12345), "action=torrent&id=12345");
    assert_eq!(gazelle_api::action_query("download", 0), "action=download&id=0");
    assert_eq!(
        gazelle_api::action_query("user", u32::MAX),
        "action=user&id=4294967295"
    );
    assert_eq!(
        gazelle_api::ajax_path("action=torrent&id=1"),
        "/ajax.php?action=torrent&id=1"
    );
}
