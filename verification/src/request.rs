//! Request construction: the supported HTTP verbs, the request shape handed
//! to the transport layer, and the builders for the login, authenticated
//! passthrough, and logout calls. No endpoint is hardcoded here — the
//! backend's base address is injected by the caller.

use vstd::prelude::*;
use crate::json::{json_quoted, json_quote};

verus! {

/// The HTTP verbs this client supports; anything else is rejected before
/// any network activity.
#[derive(Clone, Copy, Debug, PartialEq, Eq, Structural)]
pub enum Method {
    Get,
    Post,
    Put,
    Delete,
    Patch,
}

/// One HTTP header, name and value.
#[derive(Debug)]
pub struct Header {
    pub name: String,
    pub value: String,
}

/// Everything the transport layer needs for one outbound HTTP call.
#[derive(Debug)]
pub struct RequestSpec {
    pub url: String,
    pub method: Method,
    pub headers: Vec<Header>,
    pub body: Option<String>,
}

/// The character's code point, with an ASCII lowercase letter folded to its
/// uppercase counterpart.
pub open spec fn upper_code_of(c: char) -> u32 {
    if 97 <= c as u32 <= 122 {
        (c as u32 - 32) as u32
    } else {
        c as u32
    }
}

/// Equality up to ASCII case.
pub open spec fn eq_ignore_ascii_case(a: Seq<char>, b: Seq<char>) -> bool {
    a.len() == b.len() && (forall|i: int|
        0 <= i < a.len() ==> upper_code_of(a[i]) == upper_code_of(b[i]))
}

/// The verb a method string names, compared case-insensitively; `None` for
/// an unsupported method.
pub open spec fn method_of(s: Seq<char>) -> Option<Method> {
    if eq_ignore_ascii_case(s, "GET"@) {
        Some(Method::Get)
    } else if eq_ignore_ascii_case(s, "POST"@) {
        Some(Method::Post)
    } else if eq_ignore_ascii_case(s, "PUT"@) {
        Some(Method::Put)
    } else if eq_ignore_ascii_case(s, "DELETE"@) {
        Some(Method::Delete)
    } else if eq_ignore_ascii_case(s, "PATCH"@) {
        Some(Method::Patch)
    } else {
        None
    }
}

fn upper_code(c: char) -> (r: u32)
    ensures
        r == upper_code_of(c),
{
    let u = c as u32;
    if 97 <= u && u <= 122 {
        u - 32
    } else {
        u
    }
}

fn str_eq_ignore_case(a: &str, b: &str) -> (r: bool)
    ensures
        r == eq_ignore_ascii_case(a@, b@),
{
    let alen = a.unicode_len();
    if alen != b.unicode_len() {
        return false;
    }
    let mut i: usize = 0;
    while i < alen
        invariant
            alen == a@.len(),
            a@.len() == b@.len(),
            i <= alen,
            forall|j: int| 0 <= j < i ==> upper_code_of(a@[j]) == upper_code_of(b@[j]),
        decreases alen - i,
    {
        if upper_code(a.get_char(i)) != upper_code(b.get_char(i)) {
            return false;
        }
        i += 1;
    }
    true
}

/// Parse a method string into a supported verb, or report it unsupported.
pub fn parse_method(method: &str) -> (r: Result<Method, String>)
    ensures
        (r is Ok) == (method_of(method@) is Some),
        r matches Ok(m) ==> Some(m) == method_of(method@),
        r matches Err(e) ==> e@ == "Unsupported HTTP method: "@ + method@,
{
    if str_eq_ignore_case(method, "GET") {
        Ok(Method::Get)
    } else if str_eq_ignore_case(method, "POST") {
        Ok(Method::Post)
    } else if str_eq_ignore_case(method, "PUT") {
        Ok(Method::Put)
    } else if str_eq_ignore_case(method, "DELETE") {
        Ok(Method::Delete)
    } else if str_eq_ignore_case(method, "PATCH") {
        Ok(Method::Patch)
    } else {
        Err(String::from_str("Unsupported HTTP method: ").concat(method))
    }
}

/// The login request body: a JSON object with the credentials and the fixed
/// desktop client-type marker, each string encoded as a JSON literal.
pub open spec fn login_body(email: Seq<char>, password: Seq<char>) -> Seq<char> {
    "{\"email_or_username\":"@ + json_quoted(email) + ",\"password\":"@ + json_quoted(password)
        + ",\"client_type\":\"desktop\"}"@
}

/// The value of an `Authorization` header carrying `token`.
pub open spec fn bearer_value(token: Seq<char>) -> Seq<char> {
    "Bearer "@ + token
}

pub open spec fn header_is(h: Header, name: Seq<char>, value: Seq<char>) -> bool {
    h.name@ == name && h.value@ == value
}

fn make_header(name: &str, value: String) -> (h: Header)
    ensures
        header_is(h, name@, value@),
{
    Header { name: name.to_owned(), value }
}

/// Build the login request: a POST to `/auth/login` under the given base
/// address, marked as coming from the desktop client, with the credentials
/// JSON-encoded in the body.
pub fn build_login_request(base_url: &str, email: &str, password: &str) -> (r: RequestSpec)
    ensures
        r.url@ == base_url@ + "/auth/login"@,
        r.method == Method::Post,
        r.headers@.len() == 2,
        header_is(r.headers@[0], "X-Client-Type"@, "desktop"@),
        header_is(r.headers@[1], "Content-Type"@, "application/json"@),
        r.body matches Some(b) && b@ == login_body(email@, password@),
{
    let mut body = String::from_str("{\"email_or_username\":");
    body.append(json_quote(email).as_str());
    body.append(",\"password\":");
    body.append(json_quote(password).as_str());
    body.append(",\"client_type\":\"desktop\"}");
    proof {
        assert(body@ =~= login_body(email@, password@));
    }
    let mut headers: Vec<Header> = Vec::new();
    headers.push(make_header("X-Client-Type", String::from_str("desktop")));
    headers.push(make_header("Content-Type", String::from_str("application/json")));
    RequestSpec {
        url: base_url.to_owned().concat("/auth/login"),
        method: Method::Post,
        headers,
        body: Some(body),
    }
}

/// Build an authenticated passthrough request: any supported verb and URL,
/// with the bearer token and the desktop client marker attached. An
/// unsupported verb is rejected here, before any network activity.
pub fn build_authenticated_request(url: &str, method: &str, token: &str, body: Option<String>) -> (r:
    Result<RequestSpec, String>)
    ensures
        (r is Ok) == (method_of(method@) is Some),
        r matches Ok(spec) ==> ({
            &&& spec.url@ == url@
            &&& Some(spec.method) == method_of(method@)
            &&& spec.headers@.len() == 3
            &&& header_is(spec.headers@[0], "Authorization"@, bearer_value(token@))
            &&& header_is(spec.headers@[1], "X-Client-Type"@, "desktop"@)
            &&& header_is(spec.headers@[2], "Content-Type"@, "application/json"@)
            &&& spec.body == body
        }),
        r matches Err(e) ==> e@ == "Unsupported HTTP method: "@ + method@,
{
    let m = match parse_method(method) {
        Ok(m) => m,
        Err(e) => {
            return Err(e);
        },
    };
    let mut headers: Vec<Header> = Vec::new();
    headers.push(make_header("Authorization", String::from_str("Bearer ").concat(token)));
    headers.push(make_header("X-Client-Type", String::from_str("desktop")));
    headers.push(make_header("Content-Type", String::from_str("application/json")));
    Ok(RequestSpec { url: url.to_owned(), method: m, headers, body })
}

/// Build the logout request: a POST to `/auth/logout` under the given base
/// address, with the bearer token and the desktop client marker, no body.
pub fn build_logout_request(base_url: &str, token: &str) -> (r: RequestSpec)
    ensures
        r.url@ == base_url@ + "/auth/logout"@,
        r.method == Method::Post,
        r.headers@.len() == 2,
        header_is(r.headers@[0], "Authorization"@, bearer_value(token@)),
        header_is(r.headers@[1], "X-Client-Type"@, "desktop"@),
        r.body is None,
{
    let mut headers: Vec<Header> = Vec::new();
    headers.push(make_header("Authorization", String::from_str("Bearer ").concat(token)));
    headers.push(make_header("X-Client-Type", String::from_str("desktop")));
    RequestSpec {
        url: base_url.to_owned().concat("/auth/logout"),
        method: Method::Post,
        headers,
        body: None,
    }
}

/// A method string that names none of the five supported verbs — `HEAD`
/// among them — is rejected by `parse_method` and so by
/// `build_authenticated_request`, whose contracts say the rejection happens
/// with no request built at all.
pub proof fn lemma_head_unsupported()
    ensures
        method_of("HEAD"@) is None,
{
    reveal_strlit("HEAD");
    reveal_strlit("GET");
    reveal_strlit("POST");
    reveal_strlit("PUT");
    reveal_strlit("DELETE");
    reveal_strlit("PATCH");
    assert("HEAD"@.len() == 4);
    assert("GET"@.len() == 3);
    assert("POST"@.len() == 4);
    assert("PUT"@.len() == 3);
    assert("DELETE"@.len() == 6);
    assert("PATCH"@.len() == 5);
    assert(upper_code_of("HEAD"@[0]) != upper_code_of("POST"@[0]));
    assert(upper_code_of("HEAD"@[0]) != upper_code_of("PATCH"@[0]));
}

} // verus!
