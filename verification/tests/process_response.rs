use celestia_search::celestia_search_tool::{CelestiaSearchError, CelestiaSearchTool};

fn full_body(fee: &str, tx_count: &str) -> String {
    let mut body = String::from("{");
    body.push_str(&format!("\"fee\": \"{}\", \"tx_count\": \"{}\", ", fee, tx_count));
    for key in [
        "block_time",
        "gas_limit",
        "gas_used",
        "square_size",
        "bytes_in_block",
        "events_count",
        "blobs_count",
        "blobs_size",
        "supply_change",
        "inflation_rate",
        "fill_rate",
        "rewards",
    ] {
        body.push_str(&format!("\"{}\": \"0\", ", key));
    }
    body.push_str("\"commissions\": \"0\"}");
    body
}

#[test]
fn success_renders_fee_line() {
    let body = full_body("1234", "5");
    let out = CelestiaSearchTool::process_response(200, &body).unwrap();
    assert_eq!(out, "    The gas fee is: 1234");
}

#[test]
fn success_on_every_2xx_status() {
    let body = full_body("8", "1");
    for status in [200u16, 201, 204, 299] {
        let out = CelestiaSearchTool::process_response(status, &body).unwrap();
        assert_eq!(out, "    The gas fee is: 8");
    }
}

#[test]
fn bad_status_is_api_error_with_code_and_body() {
    let err = CelestiaSearchTool::process_response(404, "not found").unwrap_err();
    match err {
        CelestiaSearchError::ApiError(d) => {
            assert!(d.contains("404"));
            assert!(d.contains("not found"));
            assert_eq!(d, "Status: 404, Response: not found");
        }
        other => panic!("expected ApiError, got {:?}", other),
    }
}

#[test]
fn statuses_outside_success_range_fail() {
    let body = full_body("1", "1");
    for status in [100u16, 199, 300, 301, 500, 503] {
        let err = CelestiaSearchTool::process_response(status, &body).unwrap_err();
        assert!(matches!(err, CelestiaSearchError::ApiError(_)));
    }
}

#[test]
fn invalid_json_is_http_request_failed() {
    let err = CelestiaSearchTool::process_response(200, "not json {").unwrap_err();
    assert!(matches!(err, CelestiaSearchError::HttpRequestFailed(_)));
}

#[test]
fn empty_body_is_http_request_failed() {
    let err = CelestiaSearchTool::process_response(200, "").unwrap_err();
    assert!(matches!(err, CelestiaSearchError::HttpRequestFailed(_)));
}

#[test]
fn error_object_message_is_api_error() {
    let body = "{\"error\": {\"message\": \"block not indexed\"}}";
    let err = CelestiaSearchTool::process_response(200, body).unwrap_err();
    match err {
        CelestiaSearchError::ApiError(d) => assert_eq!(d, "block not indexed"),
        other => panic!("expected ApiError, got {:?}", other),
    }
}

#[test]
fn error_object_without_message_is_unknown_error() {
    let body = "{\"error\": {}}";
    let err = CelestiaSearchTool::process_response(200, body).unwrap_err();
    match err {
        CelestiaSearchError::ApiError(d) => assert_eq!(d, "Unknown error"),
        other => panic!("expected ApiError, got {:?}", other),
    }
}

#[test]
fn error_member_with_non_string_message_is_unknown_error() {
    let body = "{\"error\": {\"message\": 7}}";
    let err = CelestiaSearchTool::process_response(200, body).unwrap_err();
    match err {
        CelestiaSearchError::ApiError(d) => assert_eq!(d, "Unknown error"),
        other => panic!("expected ApiError, got {:?}", other),
    }
}

#[test]
fn null_error_member_is_unknown_error() {
    let body = "{\"error\": null}";
    let err = CelestiaSearchTool::process_response(200, body).unwrap_err();
    match err {
        CelestiaSearchError::ApiError(d) => assert_eq!(d, "Unknown error"),
        other => panic!("expected ApiError, got {:?}", other),
    }
}

#[test]
fn missing_fee_defaults_to_zero_in_output() {
    let out = CelestiaSearchTool::process_response(200, "{}").unwrap();
    assert_eq!(out, "    The gas fee is: 0");
}

#[test]
fn error_message_rendering() {
    let e = CelestiaSearchError::HttpRequestFailed(String::from("boom"));
    assert_eq!(e.message(), "HTTP request failed: boom");
    let e = CelestiaSearchError::ApiError(String::from("bad block"));
    assert_eq!(e.message(), "API error: bad block");
}
