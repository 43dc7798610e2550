//! Response normalization: turns the raw JSON text of a login response into
//! a `LoginOutcome`, extracting each canonical field tolerantly (absence is
//! never an error) and demanding only a non-empty access token.

use vstd::prelude::*;
use crate::json::{is_json, parse_error_of, raw_field, str_field, parse_json, doc_str_field,
    doc_raw_field, JsonDoc};
use crate::outcome::{LoginOutcome, LoginOutcomeView, NormalizationError};

verus! {

/// Whether the document parsed from `s` carries a non-empty string at
/// `access_token` — the one load-bearing field of a login response.
pub open spec fn token_ok(s: Seq<char>) -> bool {
    str_field(s, "access_token"@) matches Some(t) && t.len() > 0
}

/// The field value, or `d` when the field is absent.
pub open spec fn field_or(f: Option<Seq<char>>, d: Seq<char>) -> Seq<char> {
    if f is Some {
        f->0
    } else {
        d
    }
}

/// The outcome normalization builds from a login response text whose token
/// is present and non-empty: each canonical field is the same-named string
/// member of the document when present, `message` defaults, and `user_role`
/// is kept as raw JSON text.
pub open spec fn outcome_of(s: Seq<char>) -> LoginOutcomeView {
    LoginOutcomeView {
        success: true,
        token: str_field(s, "access_token"@),
        refresh_token: str_field(s, "refresh_token"@),
        message: field_or(str_field(s, "message"@), "Login successful"@),
        username: str_field(s, "username"@),
        email: str_field(s, "email"@),
        profile_pic_url: str_field(s, "profile_pic_url"@),
        logo_url: str_field(s, "logo_url"@),
        organization_name: str_field(s, "organization_name"@),
        user_role: raw_field(s, "user_role"@),
        organization_type: str_field(s, "organization_type"@),
        tax_identification_number: str_field(s, "tax_identification_number"@),
        staff_role: str_field(s, "staff_role"@),
        department: str_field(s, "department"@),
    }
}

/// Normalize the raw text of a login response: parse it as JSON, extract
/// the canonical fields, and succeed exactly when a non-empty access token
/// is present.
pub fn normalize(body: &str) -> (r: Result<LoginOutcome, NormalizationError>)
    ensures
        (r is Ok) == (is_json(body@) && token_ok(body@)),
        r matches Ok(o) ==> o@ == outcome_of(body@) && o@.wf(),
        !is_json(body@) ==> (r matches Err(NormalizationError::InvalidJson { detail, raw })
            && detail@ == parse_error_of(body@) && raw@ == body@),
        is_json(body@) && !token_ok(body@) ==> r matches Err(NormalizationError::MissingToken),
{
    let doc: JsonDoc = match parse_json(body) {
        Ok(d) => d,
        Err(e) => {
            return Err(NormalizationError::InvalidJson { detail: e, raw: body.to_owned() });
        },
    };
    let token: String = match doc_str_field(&doc, "access_token") {
        Some(t) => t,
        None => {
            return Err(NormalizationError::MissingToken);
        },
    };
    if token.as_str().unicode_len() == 0 {
        return Err(NormalizationError::MissingToken);
    }
    let message: String = match doc_str_field(&doc, "message") {
        Some(m) => m,
        None => String::from_str("Login successful"),
    };
    let outcome = LoginOutcome {
        success: true,
        token: Some(token),
        refresh_token: doc_str_field(&doc, "refresh_token"),
        message,
        username: doc_str_field(&doc, "username"),
        email: doc_str_field(&doc, "email"),
        profile_pic_url: doc_str_field(&doc, "profile_pic_url"),
        logo_url: doc_str_field(&doc, "logo_url"),
        organization_name: doc_str_field(&doc, "organization_name"),
        user_role: doc_raw_field(&doc, "user_role"),
        organization_type: doc_str_field(&doc, "organization_type"),
        tax_identification_number: doc_str_field(&doc, "tax_identification_number"),
        staff_role: doc_str_field(&doc, "staff_role"),
        department: doc_str_field(&doc, "department"),
    };
    proof {
        assert(outcome@ =~= outcome_of(body@));
    }
    Ok(outcome)
}

/// For any JSON document whose `access_token` member is a non-empty string,
/// normalization succeeds — `normalize` returns `Ok` — and the outcome is
/// marked successful and carries exactly that token.
pub proof fn lemma_normalize_nonempty_token(s: Seq<char>, t: Seq<char>)
    requires
        is_json(s),
        str_field(s, "access_token"@) == Some(t),
        t.len() > 0,
    ensures
        token_ok(s),
        outcome_of(s).success,
        outcome_of(s).token == Some(t),
{
}

/// For any JSON document whose `access_token` member is absent or the empty
/// string, the token check fails whatever other members are present — so
/// `normalize` returns `Err(MissingToken)` by its contract.
pub proof fn lemma_normalize_missing_token(s: Seq<char>)
    requires
        is_json(s),
        str_field(s, "access_token"@) is None || str_field(s, "access_token"@)->0.len() == 0,
    ensures
        !token_ok(s),
{
}

} // verus!
