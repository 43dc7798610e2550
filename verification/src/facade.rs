//! The command facade's decision logic: given a transport outcome (success
//! flag, status code, body text, or a transport failure's cause), produce
//! exactly what each command returns to the caller. The transport layer
//! itself lives outside this crate; these functions are total on whatever
//! it hands back.

use vstd::prelude::*;
use crate::classify::{classify, classify_spec};
use crate::json::{is_json, parse_error_of};
use crate::normalize::{normalize, outcome_of, token_ok};
use crate::numfmt::{dec_str, u16_to_string};
use crate::outcome::{LoginOutcome, NormalizationError};

verus! {

/// The login error string for a body that was not JSON.
pub open spec fn invalid_json_message(detail: Seq<char>, raw: Seq<char>) -> Seq<char> {
    "Failed to parse JSON: "@ + detail + ". Response was: "@ + raw
}

/// What `authenticate` returns once the transport has produced a response:
/// a normalized outcome for an HTTP success carrying a usable token, and
/// otherwise exactly one message string — from normalization for a success
/// without one, from classification for an HTTP failure.
pub fn process_login_response(success: bool, status: u16, body: &str) -> (r: Result<
    LoginOutcome,
    String,
>)
    ensures
        success && is_json(body@) && token_ok(body@) ==> (r matches Ok(o) && o@ == outcome_of(
            body@,
        ) && o@.wf()),
        success && !is_json(body@) ==> (r matches Err(m) && m@ == invalid_json_message(
            parse_error_of(body@),
            body@,
        )),
        success && is_json(body@) && !token_ok(body@) ==> (r matches Err(m) && m@
            == "No access token in response"@),
        !success ==> (r matches Err(m) && m@ == classify_spec(status, body@)),
{
    if success {
        match normalize(body) {
            Ok(outcome) => Ok(outcome),
            Err(NormalizationError::InvalidJson { detail, raw }) => {
                let mut m = String::from_str("Failed to parse JSON: ");
                m.append(detail.as_str());
                m.append(". Response was: ");
                m.append(raw.as_str());
                proof {
                    assert(m@ =~= invalid_json_message(parse_error_of(body@), body@));
                }
                Err(m)
            },
            Err(NormalizationError::MissingToken) => Err(
                String::from_str("No access token in response"),
            ),
        }
    } else {
        Err(classify(status, body))
    }
}

/// The error string for a passthrough request the backend answered with a
/// non-success status.
pub open spec fn request_failed_message(status: u16, body: Seq<char>) -> Seq<char> {
    "Request failed ("@ + dec_str(status as int) + "): "@ + body
}

/// What `authenticated_request` returns once the transport has produced a
/// response: the raw body on HTTP success, a formatted failure message
/// otherwise.
pub fn process_request_response(success: bool, status: u16, body: String) -> (r: Result<
    String,
    String,
>)
    ensures
        success ==> r == Result::<String, String>::Ok(body),
        !success ==> (r matches Err(m) && m@ == request_failed_message(status, body@)),
{
    if success {
        Ok(body)
    } else {
        let mut m = String::from_str("Request failed (");
        m.append(u16_to_string(status).as_str());
        m.append("): ");
        m.append(body.as_str());
        proof {
            assert(m@ =~= request_failed_message(status, body@));
        }
        Err(m)
    }
}

/// What `logout` returns once the transport has produced a response: fixed
/// strings either way — server-provided detail is deliberately discarded on
/// this path.
pub fn process_logout_response(success: bool) -> (r: Result<String, String>)
    ensures
        success ==> (r matches Ok(m) && m@ == "Logged out successfully"@),
        !success ==> (r matches Err(m) && m@ == "Logout failed"@),
{
    if success {
        Ok(String::from_str("Logged out successfully"))
    } else {
        Err(String::from_str("Logout failed"))
    }
}

/// The message `authenticate` returns on a transport failure: the cause,
/// followed by a hint that the backend must be reachable at the configured
/// address.
pub open spec fn login_transport_message(cause: Seq<char>, base_url: Seq<char>) -> Seq<char> {
    "Connection failed: "@ + cause + ". Make sure backend is running on "@ + base_url
}

/// Format the transport-failure message for a login attempt.
pub fn login_transport_error(cause: &str, base_url: &str) -> (r: String)
    ensures
        r@ == login_transport_message(cause@, base_url@),
{
    let mut m = String::from_str("Connection failed: ");
    m.append(cause);
    m.append(". Make sure backend is running on ");
    m.append(base_url);
    proof {
        assert(m@ =~= login_transport_message(cause@, base_url@));
    }
    m
}

/// Format the transport-failure message for a passthrough request.
pub fn request_transport_error(cause: &str) -> (r: String)
    ensures
        r@ == "Connection failed: "@ + cause@,
{
    String::from_str("Connection failed: ").concat(cause)
}

/// Format the transport-failure message for a logout.
pub fn logout_transport_error(cause: &str) -> (r: String)
    ensures
        r@ == "Request failed: "@ + cause@,
{
    String::from_str("Request failed: ").concat(cause)
}

/// What the transport layer's one call produced: an HTTP response, or a
/// transport-level failure carrying its cause.
#[derive(Debug)]
pub enum TransportOutcome {
    Response { success: bool, status: u16, body: String },
    Failure { cause: String },
}

/// The complete decision `authenticate` makes once the transport layer has
/// made its one call: a transport failure becomes the connection-failed
/// message with the reachability hint; an HTTP success is normalized; an
/// HTTP failure is classified.
pub fn complete_login(outcome: TransportOutcome, base_url: &str) -> (r: Result<
    LoginOutcome,
    String,
>)
    ensures
        outcome matches TransportOutcome::Failure { cause } ==> (r matches Err(m) && m@
            == login_transport_message(cause@, base_url@)),
        outcome matches TransportOutcome::Response { success, status, body } ==> {
            &&& success && is_json(body@) && token_ok(body@) ==> (r matches Ok(o) && o@
                == outcome_of(body@) && o@.wf())
            &&& success && !is_json(body@) ==> (r matches Err(m) && m@ == invalid_json_message(
                parse_error_of(body@),
                body@,
            ))
            &&& success && is_json(body@) && !token_ok(body@) ==> (r matches Err(m) && m@
                == "No access token in response"@)
            &&& !success ==> (r matches Err(m) && m@ == classify_spec(status, body@))
        },
{
    match outcome {
        TransportOutcome::Response { success, status, body } => process_login_response(
            success,
            status,
            body.as_str(),
        ),
        TransportOutcome::Failure { cause } => Err(
            login_transport_error(cause.as_str(), base_url),
        ),
    }
}

/// The complete decision `authenticated_request` makes once the transport
/// layer has made its one call: the raw body on HTTP success, a formatted
/// failure message on HTTP failure, the connection-failed message on a
/// transport failure.
pub fn complete_request(outcome: TransportOutcome) -> (r: Result<String, String>)
    ensures
        outcome matches TransportOutcome::Failure { cause } ==> (r matches Err(m) && m@
            == "Connection failed: "@ + cause@),
        outcome matches TransportOutcome::Response { success, status, body } ==> {
            &&& success ==> r == Result::<String, String>::Ok(body)
            &&& !success ==> (r matches Err(m) && m@ == request_failed_message(status, body@))
        },
{
    match outcome {
        TransportOutcome::Response { success, status, body } => process_request_response(
            success,
            status,
            body,
        ),
        TransportOutcome::Failure { cause } => Err(request_transport_error(cause.as_str())),
    }
}

/// The complete decision `logout` makes once the transport layer has made
/// its one call: fixed strings for an HTTP response either way, the
/// request-failed message on a transport failure.
pub fn complete_logout(outcome: TransportOutcome) -> (r: Result<String, String>)
    ensures
        outcome matches TransportOutcome::Failure { cause } ==> (r matches Err(m) && m@
            == "Request failed: "@ + cause@),
        outcome matches TransportOutcome::Response { success, status, body } ==> {
            &&& success ==> (r matches Ok(m) && m@ == "Logged out successfully"@)
            &&& !success ==> (r matches Err(m) && m@ == "Logout failed"@)
        },
{
    match outcome {
        TransportOutcome::Response { success, status: _, body: _ } => process_logout_response(
            success,
        ),
        TransportOutcome::Failure { cause } => Err(logout_transport_error(cause.as_str())),
    }
}

} // verus!
