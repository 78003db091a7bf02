//! The backend gateway interface: the endpoint path of each action, the
//! request bodies the client sends, the response bodies it reads, and the
//! transport outcomes it acts on. Wire field names are camelCase; the layer
//! that serializes maps them.

use vstd::prelude::*;
use vstd::string::StringExecFns;
use crate::errors::ApiError;

verus! {

/// The backend actions the client performs.
#[derive(PartialEq, Eq, Structural, Clone, Copy, Debug)]
pub enum Action {
    Login,
    GenerateOtp,
    VerifyOtp,
    ValidateOtp,
    ListCodes,
    CreateCodes,
    DisableCodes,
}

/// The path suffix of each action.
pub open spec fn path_of(a: Action) -> Seq<char> {
    match a {
        Action::Login => "/auth/login"@,
        Action::GenerateOtp => "/auth/otp/generate"@,
        Action::VerifyOtp => "/auth/otp/verify"@,
        Action::ValidateOtp => "/auth/otp/validate"@,
        Action::ListCodes => "/invite-codes"@,
        Action::CreateCodes => "/create-invite-codes"@,
        Action::DisableCodes => "/disable-invite-codes"@,
    }
}

/// The path suffix of each action, executable.
pub fn action_path(a: Action) -> (r: &'static str)
    ensures
        r@ == path_of(a),
{
    match a {
        Action::Login => "/auth/login",
        Action::GenerateOtp => "/auth/otp/generate",
        Action::VerifyOtp => "/auth/otp/verify",
        Action::ValidateOtp => "/auth/otp/validate",
        Action::ListCodes => "/invite-codes",
        Action::CreateCodes => "/create-invite-codes",
        Action::DisableCodes => "/disable-invite-codes",
    }
}

/// The full URL of an action: the configured base endpoint followed by the
/// action's path suffix.
pub fn endpoint_url(base: &str, a: Action) -> (r: String)
    ensures
        r@ == base@ + path_of(a),
{
    let mut url = base.to_owned();
    url.append(action_path(a));
    url
}

/// A successful HTTP status: the 2xx range.
pub open spec fn status_ok(s: u16) -> bool {
    200 <= s < 300
}

/// Tests a status for success, executable.
pub fn is_status_ok(s: u16) -> (r: bool)
    ensures
        r == status_ok(s),
{
    200 <= s && s < 300
}

/// Outcome of a request whose response body the client ignores: either the
/// transport failed, or a status arrived.
#[derive(PartialEq, Eq, Structural, Clone, Copy, Debug)]
pub enum HttpOutcome {
    Failed,
    Status(u16),
}

/// Outcome of a request whose successful response carries a body: either
/// the transport failed, or a status arrived, with the decoded body where
/// one could be read.
pub enum ResponseEvent<T> {
    Failed,
    Status(u16, Option<T>),
}

/// Maps a bodyless outcome to the action's result: success for any 2xx
/// status, the transport or server error otherwise.
pub fn response_result(e: &HttpOutcome) -> (r: Result<(), ApiError>)
    ensures
        *e == HttpOutcome::Failed ==> r == Err::<(), ApiError>(ApiError::Network),
        *e matches HttpOutcome::Status(s) ==> r == (if status_ok(s) {
            Ok::<(), ApiError>(())
        } else {
            Err::<(), ApiError>(ApiError::Server(s))
        }),
{
    match e {
        HttpOutcome::Failed => Err(ApiError::Network),
        HttpOutcome::Status(s) => {
            if is_status_ok(*s) {
                Ok(())
            } else {
                Err(ApiError::Server(*s))
            }
        },
    }
}

/// Body of the login request.
#[derive(Debug)]
pub struct LoginRequest {
    pub username: String,
    pub password: String,
}

/// Body of the OTP verify request, confirming a first-time enrollment.
#[derive(Debug)]
pub struct VerifyRequest {
    pub token: String,
}

/// Body of the OTP validate request, answering a challenge.
#[derive(Debug)]
pub struct ValidateRequest {
    pub token: String,
}

/// Body of the create-codes request.
#[derive(Debug)]
pub struct CreateInviteCodeBody {
    pub code_count: i32,
    pub use_count: i32,
}

/// Body of the disable-codes request.
#[derive(Debug)]
pub struct DisableInviteCodesRequest {
    pub codes: Vec<String>,
    pub accounts: Vec<String>,
}

/// Body of the OTP generate response: the fresh secret and its otpauth URL.
#[derive(Debug)]
pub struct GenerateOtpResponse {
    pub base32: String,
    pub otpauth_url: String,
}

} // verus!
