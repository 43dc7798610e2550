use auth_core::facade::{
    complete_login, complete_logout, complete_request, login_transport_error,
    logout_transport_error, process_login_response, process_logout_response,
    process_request_response, request_transport_error, TransportOutcome,
};
use auth_core::numfmt::u16_to_string;

#[test]
fn login_success_with_token_normalizes() {
    let r = process_login_response(true, 200, "{\"access_token\":\"abc\",\"username\":\"alice\"}")
        .unwrap();
    assert!(r.success);
    assert_eq!(r.token.as_deref(), Some("abc"));
    assert_eq!(r.username.as_deref(), Some("alice"));
    assert_eq!(r.message, "Login successful");
    assert_eq!(r.refresh_token, None);
    assert_eq!(r.email, None);
    assert_eq!(r.user_role, None);
}

#[test]
fn login_failure_classifies_error_body() {
    let r = process_login_response(false, 401, "{\"error\":\"Account not found\"}");
    assert_eq!(r.unwrap_err(), "Account not found. Please check your email address.");
}

#[test]
fn login_success_without_token_is_an_error() {
    let r = process_login_response(true, 200, "{\"username\":\"alice\"}");
    assert_eq!(r.unwrap_err(), "No access token in response");
}

#[test]
fn login_success_with_malformed_body_is_an_error() {
    let m = process_login_response(true, 200, "garbage").unwrap_err();
    assert!(m.starts_with("Failed to parse JSON: "));
    assert!(m.ends_with(". Response was: garbage"));
}

#[test]
fn request_response_passthrough_and_failure() {
    let ok = process_request_response(true, 200, String::from("payload"));
    assert_eq!(ok.unwrap(), "payload");
    let err = process_request_response(false, 404, String::from("nope"));
    assert_eq!(err.unwrap_err(), "Request failed (404): nope");
}

#[test]
fn logout_responses_are_fixed_strings() {
    assert_eq!(process_logout_response(true).unwrap(), "Logged out successfully");
    assert_eq!(process_logout_response(false).unwrap_err(), "Logout failed");
}

#[test]
fn transport_failure_messages() {
    assert_eq!(
        login_transport_error("connection refused", "http://127.0.0.1:8000"),
        "Connection failed: connection refused. Make sure backend is running on http://127.0.0.1:8000"
    );
    assert_eq!(request_transport_error("dns error"), "Connection failed: dns error");
    assert_eq!(logout_transport_error("timed out"), "Request failed: timed out");
}

#[test]
fn login_scenario_success_with_token() {
    let outcome = TransportOutcome::Response {
        success: true,
        status: 200,
        body: String::from("{\"access_token\":\"abc\",\"username\":\"alice\"}"),
    };
    let r = complete_login(outcome, "http://127.0.0.1:8000").unwrap();
    assert!(r.success);
    assert_eq!(r.token.as_deref(), Some("abc"));
    assert_eq!(r.username.as_deref(), Some("alice"));
    assert_eq!(r.refresh_token, None);
    assert_eq!(r.email, None);
}

#[test]
fn login_scenario_account_not_found() {
    let outcome = TransportOutcome::Response {
        success: false,
        status: 401,
        body: String::from("{\"error\":\"Account not found\"}"),
    };
    let r = complete_login(outcome, "http://127.0.0.1:8000");
    assert_eq!(r.unwrap_err(), "Account not found. Please check your email address.");
}

#[test]
fn login_scenario_connection_refused() {
    let outcome = TransportOutcome::Failure {
        cause: String::from("tcp connect error: Connection refused"),
    };
    let r = complete_login(outcome, "http://127.0.0.1:8000");
    let m = r.unwrap_err();
    assert!(m.contains("Connection refused"));
    assert_eq!(
        m,
        "Connection failed: tcp connect error: Connection refused. \
         Make sure backend is running on http://127.0.0.1:8000"
    );
}

#[test]
fn request_scenario_transport_failure() {
    let outcome = TransportOutcome::Failure {
        cause: String::from("dns error"),
    };
    assert_eq!(complete_request(outcome).unwrap_err(), "Connection failed: dns error");
}

#[test]
fn logout_scenario_discards_server_detail() {
    let outcome = TransportOutcome::Response {
        success: false,
        status: 500,
        body: String::from("{\"error\":\"session gone\"}"),
    };
    assert_eq!(complete_logout(outcome).unwrap_err(), "Logout failed");
    let ok = TransportOutcome::Response {
        success: true,
        status: 200,
        body: String::new(),
    };
    assert_eq!(complete_logout(ok).unwrap(), "Logged out successfully");
}

#[test]
fn status_codes_format_in_decimal() {
    assert_eq!(u16_to_string(0), "0");
    assert_eq!(u16_to_string(7), "7");
    assert_eq!(u16_to_string(401), "401");
    assert_eq!(u16_to_string(65535), "65535");
}
