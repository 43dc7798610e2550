use auth_core::default_client_type;
use auth_core::request::{
    build_authenticated_request, build_login_request, build_logout_request, parse_method, Method,
};

#[test]
fn parse_method_accepts_five_verbs_any_case() {
    assert_eq!(parse_method("GET").unwrap(), Method::Get);
    assert_eq!(parse_method("get").unwrap(), Method::Get);
    assert_eq!(parse_method("PoSt").unwrap(), Method::Post);
    assert_eq!(parse_method("put").unwrap(), Method::Put);
    assert_eq!(parse_method("DELETE").unwrap(), Method::Delete);
    assert_eq!(parse_method("patch").unwrap(), Method::Patch);
}

#[test]
fn parse_method_rejects_others() {
    assert_eq!(parse_method("HEAD").unwrap_err(), "Unsupported HTTP method: HEAD");
    assert_eq!(parse_method("OPTIONS").unwrap_err(), "Unsupported HTTP method: OPTIONS");
    assert_eq!(parse_method("").unwrap_err(), "Unsupported HTTP method: ");
}

#[test]
fn login_request_shape() {
    let r = build_login_request("http://127.0.0.1:8000", "a@b.c", "hunter2");
    assert_eq!(r.url, "http://127.0.0.1:8000/auth/login");
    assert_eq!(r.method, Method::Post);
    assert_eq!(r.headers.len(), 2);
    assert_eq!(r.headers[0].name, "X-Client-Type");
    assert_eq!(r.headers[0].value, "desktop");
    assert_eq!(r.headers[1].name, "Content-Type");
    assert_eq!(r.headers[1].value, "application/json");
    assert_eq!(
        r.body.as_deref(),
        Some("{\"email_or_username\":\"a@b.c\",\"password\":\"hunter2\",\"client_type\":\"desktop\"}")
    );
}

#[test]
fn login_request_escapes_credentials() {
    let r = build_login_request("http://h", "al\"ice", "p\\q\nr");
    assert_eq!(
        r.body.as_deref(),
        Some("{\"email_or_username\":\"al\\\"ice\",\"password\":\"p\\\\q\\nr\",\"client_type\":\"desktop\"}")
    );
}

#[test]
fn authenticated_request_shape() {
    let r = build_authenticated_request(
        "http://h/api/x",
        "get",
        "tok123",
        Some(String::from("{\"k\":1}")),
    )
    .unwrap();
    assert_eq!(r.url, "http://h/api/x");
    assert_eq!(r.method, Method::Get);
    assert_eq!(r.headers.len(), 3);
    assert_eq!(r.headers[0].name, "Authorization");
    assert_eq!(r.headers[0].value, "Bearer tok123");
    assert_eq!(r.headers[1].name, "X-Client-Type");
    assert_eq!(r.headers[1].value, "desktop");
    assert_eq!(r.headers[2].name, "Content-Type");
    assert_eq!(r.headers[2].value, "application/json");
    assert_eq!(r.body.as_deref(), Some("{\"k\":1}"));
}

#[test]
fn authenticated_request_rejects_head_before_any_transport() {
    let r = build_authenticated_request("http://h", "HEAD", "tok", None);
    assert_eq!(r.unwrap_err(), "Unsupported HTTP method: HEAD");
}

#[test]
fn logout_request_shape() {
    let r = build_logout_request("http://127.0.0.1:8000", "tok");
    assert_eq!(r.url, "http://127.0.0.1:8000/auth/logout");
    assert_eq!(r.method, Method::Post);
    assert_eq!(r.headers.len(), 2);
    assert_eq!(r.headers[0].name, "Authorization");
    assert_eq!(r.headers[0].value, "Bearer tok");
    assert_eq!(r.headers[1].name, "X-Client-Type");
    assert_eq!(r.headers[1].value, "desktop");
    assert!(r.body.is_none());
}

#[test]
fn client_type_marker() {
    assert_eq!(default_client_type(), "desktop");
}
