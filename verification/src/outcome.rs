//! The canonical result of a login attempt, and the errors normalization
//! can report.

use vstd::prelude::*;

verus! {

/// The canonical, caller-facing result of a login attempt. Every field but
/// `success`, `token` and `message` is optional and independently absent;
/// `user_role` carries an arbitrary JSON value, kept as its compact JSON
/// text.
#[derive(Debug)]
pub struct LoginOutcome {
    pub success: bool,
    pub token: Option<String>,
    pub refresh_token: Option<String>,
    pub message: String,
    pub username: Option<String>,
    pub email: Option<String>,
    pub profile_pic_url: Option<String>,
    pub logo_url: Option<String>,
    pub organization_name: Option<String>,
    pub user_role: Option<String>,
    pub organization_type: Option<String>,
    pub tax_identification_number: Option<String>,
    pub staff_role: Option<String>,
    pub department: Option<String>,
}

/// Spec-level mirror of `LoginOutcome`, with every string as a `Seq<char>`.
#[verifier::ext_equal]
pub struct LoginOutcomeView {
    pub success: bool,
    pub token: Option<Seq<char>>,
    pub refresh_token: Option<Seq<char>>,
    pub message: Seq<char>,
    pub username: Option<Seq<char>>,
    pub email: Option<Seq<char>>,
    pub profile_pic_url: Option<Seq<char>>,
    pub logo_url: Option<Seq<char>>,
    pub organization_name: Option<Seq<char>>,
    pub user_role: Option<Seq<char>>,
    pub organization_type: Option<Seq<char>>,
    pub tax_identification_number: Option<Seq<char>>,
    pub staff_role: Option<Seq<char>>,
    pub department: Option<Seq<char>>,
}

impl View for LoginOutcome {
    type V = LoginOutcomeView;

    open spec fn view(&self) -> LoginOutcomeView {
        LoginOutcomeView {
            success: self.success,
            token: self.token.deep_view(),
            refresh_token: self.refresh_token.deep_view(),
            message: self.message@,
            username: self.username.deep_view(),
            email: self.email.deep_view(),
            profile_pic_url: self.profile_pic_url.deep_view(),
            logo_url: self.logo_url.deep_view(),
            organization_name: self.organization_name.deep_view(),
            user_role: self.user_role.deep_view(),
            organization_type: self.organization_type.deep_view(),
            tax_identification_number: self.tax_identification_number.deep_view(),
            staff_role: self.staff_role.deep_view(),
            department: self.department.deep_view(),
        }
    }
}

impl LoginOutcomeView {
    /// A login counts as successful exactly when it carries a non-empty
    /// access token.
    pub open spec fn wf(self) -> bool {
        self.success <==> (self.token matches Some(t) && t.len() > 0)
    }
}

/// Why a login response could not be normalized: the body was not JSON at
/// all, or it parsed but held no usable access token.
#[derive(Debug)]
pub enum NormalizationError {
    /// The body failed to parse; carries the parser's message and the raw
    /// text, for diagnostics.
    InvalidJson { detail: String, raw: String },
    /// The body parsed, but the access token was absent or empty.
    MissingToken,
}

} // verus!
