use ollama::api::{
    bearer_token, chat_request, check_status, endpoint_uri, is_success, models_request, plan_request,
    show_request, ApiError, ApiMethod,
};
use ollama::body::{frame_from_read, FRAME_BUFFER_SIZE};

fn headers(pairs: &[(&str, &str)]) -> Vec<(String, String)> {
    pairs.iter().map(|(a, b)| (a.to_string(), b.to_string())).collect()
}

#[test]
fn chat_request_without_key() {
    let r = chat_request("http://localhost:11434", None, "{}".to_string()).unwrap();
    assert_eq!(r.method, ApiMethod::Post);
    assert_eq!(r.uri, "http://localhost:11434/api/chat");
    assert_eq!(r.headers, headers(&[("Content-Type", "application/json")]));
    assert_eq!(r.body, Some("{}".to_string()));
}

#[test]
fn chat_request_with_key() {
    let r = chat_request("http://h:1", Some("sk-1"), "x".to_string()).unwrap();
    assert_eq!(
        r.headers,
        headers(&[("Content-Type", "application/json"), ("Authorization", "Bearer sk-1")])
    );
}

#[test]
fn models_request_is_a_get_without_body() {
    let r = models_request("http://localhost:11434", Some("k")).unwrap();
    assert_eq!(r.method, ApiMethod::Get);
    assert_eq!(r.uri, "http://localhost:11434/api/tags");
    assert_eq!(r.headers, headers(&[("Accept", "application/json"), ("Authorization", "Bearer k")]));
    assert_eq!(r.body, None);
}

#[test]
fn show_request_names_the_model() {
    let r = show_request("http://localhost:11434", None, "llama3:latest").unwrap();
    assert_eq!(r.method, ApiMethod::Post);
    assert_eq!(r.uri, "http://localhost:11434/api/show");
    assert_eq!(r.body, Some("{\"model\":\"llama3:latest\"}".to_string()));
}

#[test]
fn show_request_escapes_the_model_name() {
    let r = show_request("http://localhost:11434", None, "a\"b\\c\nd\u{1}é").unwrap();
    assert_eq!(r.body, Some("{\"model\":\"a\\\"b\\\\c\\nd\\u0001é\"}".to_string()));
    let r = show_request("http://localhost:11434", None, "\u{8}\t\u{c}\r\u{1f}\u{7f}").unwrap();
    assert_eq!(r.body, Some("{\"model\":\"\\b\\t\\f\\r\\u001f\u{7f}\"}".to_string()));
}

#[test]
fn invalid_address_is_refused() {
    assert_eq!(chat_request("http://local host", None, String::new()), Err(ApiError::InvalidUri));
    assert_eq!(models_request("http://local host", None), Err(ApiError::InvalidUri));
    assert_eq!(show_request("http://[::1", Some("bad\nkey"), "m"), Err(ApiError::InvalidUri));
}

#[test]
fn invalid_key_is_refused() {
    assert_eq!(models_request("http://localhost:11434", Some("a\nb")), Err(ApiError::InvalidHeader));
    assert_eq!(chat_request("http://localhost:11434", Some("\u{7f}"), String::new()), Err(ApiError::InvalidHeader));
    assert!(models_request("http://localhost:11434", Some("tab\tand ünïcode")).is_ok());
}

#[test]
fn plan_request_follows_the_given_verdict() {
    assert_eq!(
        plan_request(ApiMethod::Get, "anything".to_string(), false, "Accept", "x", None, None),
        Err(ApiError::InvalidUri)
    );
    let r = plan_request(ApiMethod::Get, "u".to_string(), true, "Accept", "x", None, None).unwrap();
    assert_eq!(r.uri, "u");
    assert_eq!(r.headers, headers(&[("Accept", "x")]));
}

#[test]
fn endpoint_and_token() {
    assert_eq!(endpoint_uri("http://a", "/api/tags"), "http://a/api/tags");
    assert_eq!(bearer_token("abc"), "Bearer abc");
    assert_eq!(bearer_token(""), "Bearer ");
}

#[test]
fn success_statuses() {
    assert!(!is_success(199));
    assert!(is_success(200));
    assert!(is_success(204));
    assert!(is_success(299));
    assert!(!is_success(300));
    assert!(!is_success(404));
}

#[test]
fn check_status_keeps_the_body() {
    assert_eq!(check_status(200, "ok".to_string()), Ok("ok".to_string()));
    assert_eq!(
        check_status(500, "boom".to_string()),
        Err(ApiError::Status { code: 500, body: "boom".to_string() })
    );
}

#[test]
fn frames_from_reads() {
    let buf = vec![1u8, 2, 3, 4];
    assert_eq!(frame_from_read(&buf, 0), None);
    assert_eq!(frame_from_read(&buf, 2), Some(vec![1, 2]));
    assert_eq!(frame_from_read(&buf, 4), Some(vec![1, 2, 3, 4]));
    assert_eq!(FRAME_BUFFER_SIZE, 8192);
}
