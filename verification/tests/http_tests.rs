use payments_api::application::http::http::{HeaderValue, HttpMethod, HttpRequest, HttpResponse, Status};
use payments_api::infrastructure::result::Error;
use payments_api::infrastructure::utils::is_unit_type;
use payments_api::infrastructure::reqwest::HttpReqwest;
use std::collections::HashMap;
use std::sync::Arc;
use std::time::Duration;

#[test]
fn status_classes_at_their_bounds() {
    let cases: [(u16, bool, bool, bool); 10] = [
        (100, false, false, false),
        (199, false, false, false),
        (200, true, false, false),
        (299, true, false, false),
        (300, false, false, false),
        (399, false, false, false),
        (400, false, true, false),
        (499, false, true, false),
        (500, false, false, true),
        (599, false, false, true),
    ];
    for (code, success, client, server) in cases {
        let status = Status::new(code);
        assert_eq!(status.is_success(), success, "success class of {}", code);
        assert_eq!(status.is_client_error(), client, "client class of {}", code);
        assert_eq!(status.is_server_error(), server, "server class of {}", code);
    }
    let beyond = Status::new(600);
    assert!(!beyond.is_success() && !beyond.is_client_error() && !beyond.is_server_error());
}

#[test]
fn status_code_is_in_at_most_one_class() {
    for code in 0..=u16::MAX {
        let status = Status::new(code);
        let classes = [status.is_success(), status.is_client_error(), status.is_server_error()];
        assert!(classes.iter().filter(|c| **c).count() <= 1, "code {}", code);
    }
}

#[test]
fn header_value_keeps_its_text() {
    let value = HeaderValue::new(String::from("application/json"));
    assert_eq!(value.as_str(), "application/json");
    assert_eq!(value.into_string(), String::from("application/json"));
}

#[test]
fn request_keeps_what_it_was_given() {
    let mut params = HashMap::new();
    params.insert(String::from("page"), String::from("2"));
    let mut headers = HashMap::new();
    headers.insert(String::from("x-id"), HeaderValue::new(String::from("7")));
    let request = HttpRequest::new(
        HttpMethod::PUT,
        String::from("http://host/items"),
        Some(headers),
        Some(params),
        Some(41u32),
        Some(Duration::from_secs(3)),
    );
    assert_eq!(request.method, HttpMethod::PUT);
    assert_eq!(request.url, "http://host/items");
    assert_eq!(request.headers.as_ref().unwrap()["x-id"].as_str(), "7");
    assert_eq!(request.params.as_ref().unwrap()["page"], "2");
    assert_eq!(request.body, Some(41));
    assert_eq!(request.timeout, Some(Duration::from_secs(3)));
}

#[test]
fn response_keeps_what_it_was_given() {
    let mut headers = HashMap::new();
    headers.insert(String::from("content-type"), HeaderValue::new(String::from("text/plain")));
    let response: HttpResponse<String> =
        HttpResponse::new(Status::new(404), headers, Some(String::from("missing")));
    assert!(response.status.is_client_error());
    assert_eq!(response.headers["content-type"].as_str(), "text/plain");
    assert_eq!(response.body.as_deref(), Some("missing"));
}

#[test]
fn unit_type_detection() {
    assert!(is_unit_type::<()>());
    assert!(!is_unit_type::<u8>());
    assert!(!is_unit_type::<String>());
}

#[test]
fn error_keeps_its_message() {
    let error = Error::new("Payment processor error.");
    assert_eq!(error.message(), "Payment processor error.");
}

#[test]
fn methods_order_as_declared() {
    assert!(HttpMethod::GET < HttpMethod::POST);
    assert!(HttpMethod::PATCH < HttpMethod::OPTIONS);
    assert_ne!(HttpMethod::PUT, HttpMethod::DELETE);
}

#[test]
fn requester_holds_the_client_it_was_given() {
    let client = Arc::new(reqwest::Client::new());
    let requester = HttpReqwest::new(client.clone());
    assert!(Arc::ptr_eq(requester.client(), &client));
}
