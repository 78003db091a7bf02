//! The authentication flow: a state machine from login through first-time
//! TOTP enrollment, or the TOTP challenge, to an authenticated session.
//! Validation failures never issue a request, and every stage transition
//! happens on the transport outcome the caller reports back; an error leaves
//! the stage unchanged so the user may resubmit.

use vstd::prelude::*;
use crate::errors::{ApiError, Field};
use crate::gateway::{
    HttpOutcome, ResponseEvent, LoginRequest, VerifyRequest, ValidateRequest, GenerateOtpResponse,
    status_ok, is_status_ok,
};
use crate::qr::{QrCodeBase, qr_png_of, qr_renders, build_qr, OTP_LABEL};

verus! {

/// Where the session stands.
#[derive(PartialEq, Eq, Structural, Clone, Copy, Debug)]
pub enum AuthStage {
    /// No credentials accepted yet.
    LoggedOut,
    /// Login accepted for a first-time account: a secret must be generated.
    AwaitingOtpSetup,
    /// A secret was generated: one valid code confirms the enrollment.
    AwaitingOtpConfirmation,
    /// The account already has a secret: a current code is asked for.
    AwaitingOtpChallenge,
    /// Fully authenticated.
    Authenticated,
}

/// The client's side of the session: the stage, and the QR code to scan
/// while an enrollment is pending. The session cookie lives in the transport
/// layer's cookie jar, not here.
pub struct Session {
    pub stage: AuthStage,
    pub qr: Option<QrCodeBase>,
}

impl Session {
    /// A fresh, logged-out session.
    pub fn new() -> (r: Self)
        ensures
            r.stage == AuthStage::LoggedOut,
            r.qr is None,
    {
        Session { stage: AuthStage::LoggedOut, qr: None }
    }

    /// Checks the login inputs. With any of them empty this fails, in the
    /// order endpoint, username, password, and nothing is sent; otherwise it
    /// hands back the request body to send. The stage moves only on the
    /// response.
    pub fn submit_login(&self, endpoint: &String, username: &String, password: &String) -> (r:
        Result<LoginRequest, ApiError>)
        requires
            self.stage == AuthStage::LoggedOut,
        ensures
            endpoint@.len() == 0 ==> r == Err::<LoginRequest, ApiError>(
                ApiError::Validation(Field::Endpoint),
            ),
            endpoint@.len() > 0 && username@.len() == 0 ==> r == Err::<LoginRequest, ApiError>(
                ApiError::Validation(Field::Username),
            ),
            endpoint@.len() > 0 && username@.len() > 0 && password@.len() == 0 ==> r == Err::<
                LoginRequest,
                ApiError,
            >(ApiError::Validation(Field::Password)),
            endpoint@.len() > 0 && username@.len() > 0 && password@.len() > 0 ==> r == Ok::<
                LoginRequest,
                ApiError,
            >((LoginRequest { username: *username, password: *password })),
    {
        if endpoint.as_str().is_empty() {
            Err(ApiError::Validation(Field::Endpoint))
        } else if username.as_str().is_empty() {
            Err(ApiError::Validation(Field::Username))
        } else if password.as_str().is_empty() {
            Err(ApiError::Validation(Field::Password))
        } else {
            Ok(LoginRequest { username: username.clone(), password: password.clone() })
        }
    }

    /// Applies the login response. HTTP 200 means the account already has a
    /// secret: on to the challenge. HTTP 201 means a first-time account: on
    /// to setup. Any other outcome leaves the session logged out, with the
    /// transport or server error.
    pub fn on_login_response(&mut self, e: &HttpOutcome) -> (r: Result<(), ApiError>)
        requires
            old(self).stage == AuthStage::LoggedOut,
        ensures
            final(self).qr == old(self).qr,
            *e == HttpOutcome::Failed ==> r == Err::<(), ApiError>(ApiError::Network) && final(self).stage == AuthStage::LoggedOut,
            *e matches HttpOutcome::Status(s) ==> {
                &&& s == 200 ==> r == Ok::<(), ApiError>(()) && final(self).stage
                    == AuthStage::AwaitingOtpChallenge
                &&& s == 201 ==> r == Ok::<(), ApiError>(()) && final(self).stage
                    == AuthStage::AwaitingOtpSetup
                &&& s != 200 && s != 201 ==> r == Err::<(), ApiError>(ApiError::Server(s)) && final(self).stage == AuthStage::LoggedOut
            },
    {
        match e {
            HttpOutcome::Failed => Err(ApiError::Network),
            HttpOutcome::Status(s) => {
                if *s == 200 {
                    self.stage = AuthStage::AwaitingOtpChallenge;
                    Ok(())
                } else if *s == 201 {
                    self.stage = AuthStage::AwaitingOtpSetup;
                    Ok(())
                } else {
                    Err(ApiError::Server(*s))
                }
            },
        }
    }

    /// Applies the OTP-generate response: a decoded secret the renderer
    /// accepts — exactly those it accepts — yields the QR code to scan and
    /// moves the session to confirmation; any failure leaves the setup
    /// pending and the session unchanged.
    pub fn receive_otp_secret(&mut self, e: ResponseEvent<GenerateOtpResponse>) -> (r: Result<
        (),
        ApiError,
    >)
        requires
            old(self).stage == AuthStage::AwaitingOtpSetup,
        ensures
            e matches ResponseEvent::Failed ==> r == Err::<(), ApiError>(ApiError::Network)
                && *final(self) == *old(self),
            e matches ResponseEvent::Status(s, body) ==> {
                &&& !status_ok(s) ==> r == Err::<(), ApiError>(ApiError::Server(s)) && *final(self)
                    == *old(self)
                &&& status_ok(s) && body is None ==> r == Err::<(), ApiError>(ApiError::Decode)
                    && *final(self) == *old(self)
                &&& body matches Some(sec) ==> (status_ok(s) ==> {
                    &&& r is Ok <==> qr_renders(sec.base32@, OTP_LABEL@, OTP_LABEL@)
                    &&& r is Ok ==> (final(self).qr matches Some(q) && final(self).stage
                        == AuthStage::AwaitingOtpConfirmation && q@.image == qr_png_of(
                        sec.base32@,
                        OTP_LABEL@,
                        OTP_LABEL@,
                    ) && q@.url == sec.otpauth_url@)
                    &&& r is Err ==> r == Err::<(), ApiError>(ApiError::Decode) && *final(self)
                        == *old(self)
                })
            },
    {
        match e {
            ResponseEvent::Failed => Err(ApiError::Network),
            ResponseEvent::Status(s, body) => {
                if !is_status_ok(s) {
                    Err(ApiError::Server(s))
                } else {
                    match body {
                        None => Err(ApiError::Decode),
                        Some(sec) => {
                            match build_qr(&sec.base32, &sec.otpauth_url) {
                                Ok(q) => {
                                    self.stage = AuthStage::AwaitingOtpConfirmation;
                                    self.qr = Some(q);
                                    Ok(())
                                },
                                Err(err) => Err(err),
                            }
                        },
                    }
                }
            },
        }
    }

    /// Checks the enrollment confirmation code. An empty code fails and
    /// nothing is sent; otherwise the verify request is handed back.
    pub fn confirm_otp_enrollment(&self, code: &String) -> (r: Result<VerifyRequest, ApiError>)
        requires
            self.stage == AuthStage::AwaitingOtpConfirmation,
        ensures
            code@.len() == 0 ==> r == Err::<VerifyRequest, ApiError>(
                ApiError::Validation(Field::OtpCode),
            ),
            code@.len() > 0 ==> r == Ok::<VerifyRequest, ApiError>(
                (VerifyRequest { token: *code }),
            ),
    {
        if code.as_str().is_empty() {
            Err(ApiError::Validation(Field::OtpCode))
        } else {
            Ok(VerifyRequest { token: code.clone() })
        }
    }

    /// Applies the verify response: any 2xx status authenticates; any other
    /// outcome keeps the confirmation pending so the user may resubmit.
    pub fn on_enrollment_response(&mut self, e: &HttpOutcome) -> (r: Result<(), ApiError>)
        requires
            old(self).stage == AuthStage::AwaitingOtpConfirmation,
        ensures
            final(self).qr == old(self).qr,
            *e == HttpOutcome::Failed ==> r == Err::<(), ApiError>(ApiError::Network) && final(self).stage == AuthStage::AwaitingOtpConfirmation,
            *e matches HttpOutcome::Status(s) ==> {
                &&& status_ok(s) ==> r == Ok::<(), ApiError>(()) && final(self).stage
                    == AuthStage::Authenticated
                &&& !status_ok(s) ==> r == Err::<(), ApiError>(ApiError::Server(s)) && final(self).stage == AuthStage::AwaitingOtpConfirmation
            },
    {
        match e {
            HttpOutcome::Failed => Err(ApiError::Network),
            HttpOutcome::Status(s) => {
                if is_status_ok(*s) {
                    self.stage = AuthStage::Authenticated;
                    Ok(())
                } else {
                    Err(ApiError::Server(*s))
                }
            },
        }
    }

    /// Checks the challenge code. An empty code fails and nothing is sent;
    /// otherwise the validate request is handed back.
    pub fn submit_otp_challenge(&self, code: &String) -> (r: Result<ValidateRequest, ApiError>)
        requires
            self.stage == AuthStage::AwaitingOtpChallenge,
        ensures
            code@.len() == 0 ==> r == Err::<ValidateRequest, ApiError>(
                ApiError::Validation(Field::OtpCode),
            ),
            code@.len() > 0 ==> r == Ok::<ValidateRequest, ApiError>(
                (ValidateRequest { token: *code }),
            ),
    {
        if code.as_str().is_empty() {
            Err(ApiError::Validation(Field::OtpCode))
        } else {
            Ok(ValidateRequest { token: code.clone() })
        }
    }

    /// Applies the validate response: any 2xx status authenticates; any
    /// other outcome keeps the challenge pending so the user may resubmit.
    pub fn on_challenge_response(&mut self, e: &HttpOutcome) -> (r: Result<(), ApiError>)
        requires
            old(self).stage == AuthStage::AwaitingOtpChallenge,
        ensures
            final(self).qr == old(self).qr,
            *e == HttpOutcome::Failed ==> r == Err::<(), ApiError>(ApiError::Network) && final(self).stage == AuthStage::AwaitingOtpChallenge,
            *e matches HttpOutcome::Status(s) ==> {
                &&& status_ok(s) ==> r == Ok::<(), ApiError>(()) && final(self).stage
                    == AuthStage::Authenticated
                &&& !status_ok(s) ==> r == Err::<(), ApiError>(ApiError::Server(s)) && final(self).stage == AuthStage::AwaitingOtpChallenge
            },
    {
        match e {
            HttpOutcome::Failed => Err(ApiError::Network),
            HttpOutcome::Status(s) => {
                if is_status_ok(*s) {
                    self.stage = AuthStage::Authenticated;
                    Ok(())
                } else {
                    Err(ApiError::Server(*s))
                }
            },
        }
    }
}

} // verus!
