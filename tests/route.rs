use spartan_zkp::route::{
    headers, health_body, not_found_body, preflight_body, resolve, Route,
};

fn has_cors(h: &[(String, String)]) {
    let find = |n: &str| h.iter().find(|(k, _)| k == n).map(|(_, v)| v.clone());
    assert_eq!(find("Access-Control-Allow-Origin").as_deref(), Some("*"));
    assert_eq!(find("Access-Control-Allow-Methods").as_deref(), Some("GET, POST, OPTIONS"));
    assert_eq!(
        find("Access-Control-Allow-Headers").as_deref(),
        Some("Content-Type, Authorization")
    );
    assert_eq!(find("Content-Type").as_deref(), Some("application/json"));
}

#[test]
fn options_on_zkp_is_preflight() {
    let r = resolve("OPTIONS", "/zkp");
    assert_eq!(r, Route::Preflight);
    assert_eq!(r.fixed_status(), Some(200));
    let h = headers(r);
    has_cors(&h);
    assert_eq!(h.len(), 5);
    assert!(h.contains(&("Access-Control-Max-Age".to_string(), "86400".to_string())));
    assert_eq!(
        preflight_body(),
        "{\"allowed_headers\":[\"Content-Type\",\"Authorization\"],\"allowed_methods\":[\"GET\",\"POST\",\"OPTIONS\"],\"message\":\"CORS preflight successful\"}"
    );
}

#[test]
fn unknown_path_is_not_found() {
    let r = resolve("GET", "/unknown-path");
    assert_eq!(r, Route::NotFound);
    assert_eq!(r.fixed_status(), Some(404));
    let h = headers(r);
    has_cors(&h);
    assert_eq!(h.len(), 4);
    assert_eq!(
        not_found_body("2024-05-06T07:08:09+00:00"),
        "{\"success\":false,\"error\":\"Endpoint not found. Available endpoints: GET /, GET /health, POST /zkp, OPTIONS /zkp\",\"timestamp\":\"2024-05-06T07:08:09+00:00\"}"
    );
}

#[test]
fn other_methods_and_paths_are_not_found() {
    assert_eq!(resolve("GET", "/zkp"), Route::NotFound);
    assert_eq!(resolve("DELETE", "/"), Route::NotFound);
    assert_eq!(resolve("POST", "/zkp/"), Route::NotFound);
    assert_eq!(resolve("get", "/"), Route::NotFound);
}

#[test]
fn known_routes() {
    assert_eq!(resolve("GET", "/"), Route::Root);
    assert_eq!(resolve("GET", "/health"), Route::Health);
    assert_eq!(resolve("POST", "/zkp"), Route::Operations);
    assert_eq!(Route::Operations.fixed_status(), None);
    assert_eq!(Route::Health.fixed_status(), Some(200));
}

#[test]
fn health_envelope() {
    assert_eq!(
        health_body("t"),
        "{\"status\":\"healthy\",\"service\":\"spartan-zkp\",\"version\":\"0.1.0\",\"timestamp\":\"t\",\"uptime\":\"online\",\"endpoints\":[\"GET /\",\"GET /health\",\"POST /zkp\",\"OPTIONS /zkp\"]}"
    );
}
