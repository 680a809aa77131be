use spartan_zkp::response::OperationResponse;

fn check_round_trip(resp: &OperationResponse) {
    let text = resp.to_json();
    let v: serde_json::Value = serde_json::from_str(&text).unwrap();
    let obj = v.as_object().unwrap();
    assert_eq!(obj.len(), 6);
    assert_eq!(v["success"].as_bool(), Some(resp.success));
    assert_eq!(v["proof"].as_str().map(|s| s.to_string()), resp.proof);
    let signals = v["public_signals"].as_array().map(|a| {
        a.iter().map(|s| s.as_str().unwrap().to_string()).collect::<Vec<String>>()
    });
    assert_eq!(signals, resp.public_signals);
    assert_eq!(v["verification_result"].as_bool(), resp.verification_result);
    assert_eq!(v["error"].as_str().map(|s| s.to_string()), resp.error);
    assert_eq!(v["processing_time_ms"].as_u64(), resp.processing_time_ms);
}

#[test]
fn proved_response_round_trips() {
    let r = OperationResponse::proved("{\"a\":\"x\\\"y\"}".to_string(), 105);
    check_round_trip(&r);
    assert_eq!(
        r.to_json(),
        "{\"success\":true,\"proof\":\"{\\\"a\\\":\\\"x\\\\\\\"y\\\"}\",\"public_signals\":[\"1\"],\"verification_result\":null,\"error\":null,\"processing_time_ms\":105}"
    );
}

#[test]
fn verified_response_round_trips() {
    let r = OperationResponse::verified(false, u64::MAX);
    check_round_trip(&r);
    assert_eq!(
        r.to_json(),
        "{\"success\":true,\"proof\":null,\"public_signals\":null,\"verification_result\":false,\"error\":null,\"processing_time_ms\":18446744073709551615}"
    );
    check_round_trip(&OperationResponse::verified(true, 0));
}

#[test]
fn failed_response_round_trips() {
    let r = OperationResponse::failed("Unknown operation: a\"b\\c\nd\te\u{1}f\u{7f}é".to_string());
    check_round_trip(&r);
    assert_eq!(
        r.to_json(),
        "{\"success\":false,\"proof\":null,\"public_signals\":null,\"verification_result\":null,\"error\":\"Unknown operation: a\\\"b\\\\c\\nd\\te\\u0001f\u{7f}é\",\"processing_time_ms\":null}"
    );
}

#[test]
fn escapes_every_short_form() {
    let r = OperationResponse::failed("\u{8}\u{c}\r\u{1f}".to_string());
    check_round_trip(&r);
    assert!(r.to_json().contains("\"error\":\"\\b\\f\\r\\u001f\""));
}

#[test]
fn arbitrary_response_round_trips() {
    let r = OperationResponse {
        success: true,
        proof: Some(String::new()),
        public_signals: Some(vec![]),
        verification_result: None,
        error: None,
        processing_time_ms: Some(1),
    };
    check_round_trip(&r);
    let r = OperationResponse {
        success: false,
        proof: None,
        public_signals: Some(vec!["a".to_string(), "b,c".to_string(), "".to_string()]),
        verification_result: Some(true),
        error: Some(String::new()),
        processing_time_ms: None,
    };
    check_round_trip(&r);
}

#[test]
fn status_follows_success() {
    assert_eq!(OperationResponse::verified(false, 1).status_code(), 200);
    assert_eq!(OperationResponse::failed("x".to_string()).status_code(), 400);
}
