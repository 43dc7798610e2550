//! Error classification: maps a failed login response (HTTP status plus
//! body text) to exactly one stable, user-presentable message. Backend
//! detail is preserved when the body offers it; otherwise the status code
//! decides. Classification is total — it never fails.

use vstd::prelude::*;
use crate::json::{is_json, str_field, parse_json, doc_str_field};

verus! {

/// The display text for a backend-provided `error` string: three known
/// phrases map to friendlier wording, anything else passes through
/// verbatim.
pub open spec fn mapped_error(e: Seq<char>) -> Seq<char> {
    if e == "Account not found"@ {
        "Account not found. Please check your email address."@
    } else if e == "Invalid password"@ {
        "Invalid password. Please try again."@
    } else if e == "Invalid credentials"@ {
        "Invalid email or password. Please try again."@
    } else {
        e
    }
}

/// The generic message chosen from the HTTP status code alone, used when
/// the body offers no `error` or `message` string.
pub open spec fn status_message(status: u16) -> Seq<char> {
    if status == 401 {
        "Invalid email or password. Please try again."@
    } else if status == 403 {
        "Access denied. Your account may not have permission to use this application."@
    } else if status == 404 {
        "Account not found. Please check your email address."@
    } else if status == 500 {
        "Server error. Please try again later."@
    } else {
        "Login failed. Please try again."@
    }
}

/// The full classification decision, first match wins: a string `error`
/// member (mapped through the lookup table), then a string `message` member
/// (verbatim), then the status-code table.
pub open spec fn classify_spec(status: u16, body: Seq<char>) -> Seq<char> {
    if is_json(body) && str_field(body, "error"@) is Some {
        mapped_error(str_field(body, "error"@)->0)
    } else if is_json(body) && str_field(body, "message"@) is Some {
        str_field(body, "message"@)->0
    } else {
        status_message(status)
    }
}

/// String equality by contents.
fn str_eq(a: &str, b: &str) -> (r: bool)
    ensures
        r == (a@ == b@),
{
    let s1: String = a.to_owned();
    let s2: String = b.to_owned();
    s1 == s2
}

/// The display text for a backend-provided `error` string.
pub fn map_error_message(e: &str) -> (r: String)
    ensures
        r@ == mapped_error(e@),
{
    if str_eq(e, "Account not found") {
        String::from_str("Account not found. Please check your email address.")
    } else if str_eq(e, "Invalid password") {
        String::from_str("Invalid password. Please try again.")
    } else if str_eq(e, "Invalid credentials") {
        String::from_str("Invalid email or password. Please try again.")
    } else {
        e.to_owned()
    }
}

/// The generic message for a status code whose body said nothing usable.
pub fn fallback_message(status: u16) -> (r: String)
    ensures
        r@ == status_message(status),
{
    if status == 401 {
        String::from_str("Invalid email or password. Please try again.")
    } else if status == 403 {
        String::from_str("Access denied. Your account may not have permission to use this application.")
    } else if status == 404 {
        String::from_str("Account not found. Please check your email address.")
    } else if status == 500 {
        String::from_str("Server error. Please try again later.")
    } else {
        String::from_str("Login failed. Please try again.")
    }
}

/// Classify a failed login response into one user-presentable message.
pub fn classify(status: u16, body: &str) -> (r: String)
    ensures
        r@ == classify_spec(status, body@),
{
    match parse_json(body) {
        Ok(doc) => {
            match doc_str_field(&doc, "error") {
                Some(e) => map_error_message(e.as_str()),
                None => {
                    match doc_str_field(&doc, "message") {
                        Some(m) => m,
                        None => fallback_message(status),
                    }
                },
            }
        },
        Err(_) => fallback_message(status),
    }
}

/// For a status of 401 and any body offering no string `error` and no
/// string `message` member, classification yields exactly the generic
/// invalid-credentials message.
pub proof fn lemma_classify_401_generic(body: Seq<char>)
    requires
        !(is_json(body) && str_field(body, "error"@) is Some),
        !(is_json(body) && str_field(body, "message"@) is Some),
    ensures
        classify_spec(401, body) == "Invalid email or password. Please try again."@,
{
}

/// For any status, a body whose `error` member is the string
/// `Invalid password` classifies to exactly the mapped wording — the status
/// code never overrides backend-provided detail.
pub proof fn lemma_classify_error_field_wins(status: u16, body: Seq<char>)
    requires
        is_json(body),
        str_field(body, "error"@) == Some("Invalid password"@),
    ensures
        classify_spec(status, body) == "Invalid password. Please try again."@,
{
    reveal_strlit("Invalid password");
    reveal_strlit("Account not found");
    assert("Invalid password"@.len() == 16);
    assert("Account not found"@.len() == 17);
}

} // verus!
