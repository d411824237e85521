use defacto_backend::message::{Method, Request, Response};
use defacto_backend::respond::{
    error_response, handle_default, internal_error, method_not_allowed, not_found,
    response_from_text, settle,
};

fn json_headers() -> Vec<(String, String)> {
    vec![(String::from("Content-Type"), String::from("application/json"))]
}

#[test]
fn greeting_is_exact() {
    let response = handle_default(&Request::new(Method::Get, "/"));
    assert_eq!(
        response,
        Response {
            status: 200,
            headers: json_headers(),
            body: br#"{"message":"Hello from Defacto Backend!","status":"ok"}"#.to_vec(),
        }
    );
}

#[test]
fn greeting_ignores_the_request() {
    let get = handle_default(&Request::new(Method::Get, "/a"));
    let post = handle_default(&Request::new(Method::Post, "/b"));
    assert_eq!(get, post);
}

#[test]
fn not_found_is_exact() {
    assert_eq!(
        not_found(),
        Response {
            status: 404,
            headers: json_headers(),
            body: br#"{"error":"Not Found","status":404}"#.to_vec(),
        }
    );
}

#[test]
fn method_not_allowed_is_exact() {
    assert_eq!(
        method_not_allowed(),
        Response {
            status: 405,
            headers: json_headers(),
            body: br#"{"error":"Method Not Allowed","status":405}"#.to_vec(),
        }
    );
}

#[test]
fn error_response_carries_status_and_reason() {
    let response = error_response(500, "Internal Server Error");
    assert_eq!(response.status, 500);
    assert_eq!(response.headers, json_headers());
    assert_eq!(response.body, br#"{"error":"Internal Server Error","status":500}"#);
}

#[test]
fn error_response_escapes_the_reason() {
    let response = error_response(400, "bad \"path\"\n");
    assert_eq!(response.body, br#"{"error":"bad \"path\"\n","status":400}"#);
}

#[test]
fn error_response_keeps_the_largest_status() {
    let response = error_response(65535, "");
    assert_eq!(response.status, 65535);
    assert_eq!(response.body, br#"{"error":"","status":65535}"#);
}

#[test]
fn response_from_text_takes_the_text_as_body() {
    let response = response_from_text(202, "{\"ok\":true}");
    assert_eq!(response.status, 202);
    assert_eq!(response.headers, json_headers());
    assert_eq!(response.body, b"{\"ok\":true}");
}

#[test]
fn response_from_text_writes_utf8() {
    let response = response_from_text(200, "\"caf\u{e9}\"");
    assert_eq!(response.body, vec![b'"', b'c', b'a', b'f', 0xc3, 0xa9, b'"']);
    assert_eq!(response_from_text(204, "").body, Vec::<u8>::new());
}

#[test]
fn error_response_keeps_text_beyond_ascii() {
    let response = error_response(404, "nicht da: \u{e4}");
    assert_eq!(response.body, "{\"error\":\"nicht da: \u{e4}\",\"status\":404}".as_bytes());
}

#[test]
fn internal_error_is_exact() {
    assert_eq!(
        internal_error(),
        Response {
            status: 500,
            headers: json_headers(),
            body: br#"{"error":"Internal Server Error","status":500}"#.to_vec(),
        }
    );
}

#[test]
fn settle_passes_an_answer_through() {
    let answer = Response {
        status: 201,
        headers: vec![
            (String::from("Content-Type"), String::from("image/png")),
            (String::from("Cache-Control"), String::from("no-store")),
        ],
        body: vec![0x89, 0x50, 0x4e, 0x47, 0xff, 0x00],
    };
    assert_eq!(settle(Some(answer.clone())), answer);
}

#[test]
fn settle_reports_a_missing_answer() {
    assert_eq!(settle(None), internal_error());
}

#[test]
fn bodies_are_json_objects() {
    let greeting: serde_json::Value =
        serde_json::from_slice(&handle_default(&Request::new(Method::Get, "/")).body).unwrap();
    assert_eq!(greeting.as_object().map(|object| object.len()), Some(2));
    assert_eq!(
        greeting.get("message").and_then(|value| value.as_str()),
        Some("Hello from Defacto Backend!")
    );
    assert_eq!(greeting.get("status").and_then(|value| value.as_str()), Some("ok"));

    let missing: serde_json::Value = serde_json::from_slice(&not_found().body).unwrap();
    assert_eq!(missing.as_object().map(|object| object.len()), Some(2));
    assert_eq!(missing.get("error").and_then(|value| value.as_str()), Some("Not Found"));
    assert_eq!(missing.get("status").and_then(|value| value.as_u64()), Some(404));

    let refused: serde_json::Value = serde_json::from_slice(&method_not_allowed().body).unwrap();
    assert_eq!(refused.get("error").and_then(|value| value.as_str()), Some("Method Not Allowed"));
    assert_eq!(refused.get("status").and_then(|value| value.as_u64()), Some(405));
}
