use invite_code_manager::auth::{AuthStage, Session};
use invite_code_manager::codes::{Code, FilterStatus, InviteCodes};
use invite_code_manager::errors::{ApiError, Field};
use invite_code_manager::gateway::{
    action_path, endpoint_url, response_result, Action, GenerateOtpResponse, HttpOutcome,
    ResponseEvent,
};
use invite_code_manager::store::{
    create_codes_request, disable_codes_request, export_selection, parse_code_count, InviteStore,
};

// A base32 secret of twenty bytes: long enough for an enrollment.
const GOOD_SECRET: &str = "JBSWY3DPEHPK3PXPJBSWY3DPEHPK3PXP";

fn secret_event(status: u16, base32: &str) -> ResponseEvent<GenerateOtpResponse> {
    ResponseEvent::Status(
        status,
        Some(GenerateOtpResponse {
            base32: base32.to_string(),
            otpauth_url: format!("otpauth://totp/Northsky:Northsky?secret={base32}&issuer=Northsky"),
        }),
    )
}

#[test]
fn login_with_empty_fields_is_rejected_in_order() {
    let s = Session::new();
    let empty = String::new();
    let endpoint = "https://invites.example".to_string();
    let user = "admin".to_string();
    let pass = "hunter2".to_string();
    assert_eq!(
        s.submit_login(&empty, &user, &pass).unwrap_err(),
        ApiError::Validation(Field::Endpoint)
    );
    assert_eq!(
        s.submit_login(&endpoint, &empty, &pass).unwrap_err(),
        ApiError::Validation(Field::Username)
    );
    assert_eq!(
        s.submit_login(&endpoint, &user, &empty).unwrap_err(),
        ApiError::Validation(Field::Password)
    );
}

#[test]
fn login_with_filled_fields_builds_the_request() {
    let s = Session::new();
    let req = s
        .submit_login(&"https://x".to_string(), &"admin".to_string(), &"pw".to_string())
        .unwrap();
    assert_eq!(req.username, "admin");
    assert_eq!(req.password, "pw");
    assert_eq!(s.stage, AuthStage::LoggedOut);
}

#[test]
fn login_response_200_moves_to_challenge() {
    let mut s = Session::new();
    assert!(s.on_login_response(&HttpOutcome::Status(200)).is_ok());
    assert_eq!(s.stage, AuthStage::AwaitingOtpChallenge);
}

#[test]
fn login_response_201_moves_to_setup() {
    let mut s = Session::new();
    assert!(s.on_login_response(&HttpOutcome::Status(201)).is_ok());
    assert_eq!(s.stage, AuthStage::AwaitingOtpSetup);
}

#[test]
fn login_response_other_statuses_stay_logged_out() {
    let mut s = Session::new();
    assert_eq!(
        s.on_login_response(&HttpOutcome::Status(401)).unwrap_err(),
        ApiError::Server(401)
    );
    assert_eq!(s.stage, AuthStage::LoggedOut);
    assert_eq!(
        s.on_login_response(&HttpOutcome::Status(204)).unwrap_err(),
        ApiError::Server(204)
    );
    assert_eq!(s.stage, AuthStage::LoggedOut);
    assert_eq!(s.on_login_response(&HttpOutcome::Failed).unwrap_err(), ApiError::Network);
    assert_eq!(s.stage, AuthStage::LoggedOut);
}

#[test]
fn otp_secret_yields_a_png_qr_code() {
    let mut s = Session::new();
    s.on_login_response(&HttpOutcome::Status(201)).unwrap();
    assert!(s.receive_otp_secret(secret_event(200, GOOD_SECRET)).is_ok());
    assert_eq!(s.stage, AuthStage::AwaitingOtpConfirmation);
    let qr = s.qr.as_ref().unwrap();
    assert_eq!(&qr.image()[0..4], &[0x89u8, b'P', b'N', b'G']);
    assert!(qr.url().starts_with("otpauth://totp/"));
}

#[test]
fn otp_secret_failures_leave_setup_pending() {
    let mut s = Session::new();
    s.on_login_response(&HttpOutcome::Status(201)).unwrap();
    assert_eq!(
        s.receive_otp_secret(ResponseEvent::Failed).unwrap_err(),
        ApiError::Network
    );
    assert_eq!(
        s.receive_otp_secret(ResponseEvent::Status(500, None)).unwrap_err(),
        ApiError::Server(500)
    );
    assert_eq!(
        s.receive_otp_secret(ResponseEvent::Status(200, None)).unwrap_err(),
        ApiError::Decode
    );
    // Too short for a TOTP secret: the renderer rejects it.
    assert_eq!(
        s.receive_otp_secret(secret_event(200, "JBSWY3DP")).unwrap_err(),
        ApiError::Decode
    );
    // Not base32 at all.
    assert_eq!(
        s.receive_otp_secret(secret_event(200, "0189!!")).unwrap_err(),
        ApiError::Decode
    );
    assert_eq!(s.stage, AuthStage::AwaitingOtpSetup);
    assert!(s.qr.is_none());
}

#[test]
fn empty_otp_codes_are_rejected_without_a_request() {
    let mut enrolling = Session::new();
    enrolling.on_login_response(&HttpOutcome::Status(201)).unwrap();
    enrolling.receive_otp_secret(secret_event(200, GOOD_SECRET)).unwrap();
    assert_eq!(
        enrolling.confirm_otp_enrollment(&String::new()).unwrap_err(),
        ApiError::Validation(Field::OtpCode)
    );

    let mut challenged = Session::new();
    challenged.on_login_response(&HttpOutcome::Status(200)).unwrap();
    assert_eq!(
        challenged.submit_otp_challenge(&String::new()).unwrap_err(),
        ApiError::Validation(Field::OtpCode)
    );
}

#[test]
fn enrollment_confirmation_authenticates_on_success() {
    let mut s = Session::new();
    s.on_login_response(&HttpOutcome::Status(201)).unwrap();
    s.receive_otp_secret(secret_event(200, GOOD_SECRET)).unwrap();
    let req = s.confirm_otp_enrollment(&"123456".to_string()).unwrap();
    assert_eq!(req.token, "123456");
    assert_eq!(
        s.on_enrollment_response(&HttpOutcome::Status(400)).unwrap_err(),
        ApiError::Server(400)
    );
    assert_eq!(s.stage, AuthStage::AwaitingOtpConfirmation);
    assert!(s.on_enrollment_response(&HttpOutcome::Status(200)).is_ok());
    assert_eq!(s.stage, AuthStage::Authenticated);
}

#[test]
fn challenge_authenticates_on_success() {
    let mut s = Session::new();
    s.on_login_response(&HttpOutcome::Status(200)).unwrap();
    let req = s.submit_otp_challenge(&"654321".to_string()).unwrap();
    assert_eq!(req.token, "654321");
    assert_eq!(
        s.on_challenge_response(&HttpOutcome::Failed).unwrap_err(),
        ApiError::Network
    );
    assert_eq!(s.stage, AuthStage::AwaitingOtpChallenge);
    assert!(s.on_challenge_response(&HttpOutcome::Status(204)).is_ok());
    assert_eq!(s.stage, AuthStage::Authenticated);
}

#[test]
fn endpoint_urls_follow_the_gateway_table() {
    assert_eq!(action_path(Action::Login), "/auth/login");
    assert_eq!(action_path(Action::GenerateOtp), "/auth/otp/generate");
    assert_eq!(action_path(Action::VerifyOtp), "/auth/otp/verify");
    assert_eq!(action_path(Action::ValidateOtp), "/auth/otp/validate");
    assert_eq!(action_path(Action::ListCodes), "/invite-codes");
    assert_eq!(action_path(Action::CreateCodes), "/create-invite-codes");
    assert_eq!(action_path(Action::DisableCodes), "/disable-invite-codes");
    assert_eq!(
        endpoint_url("https://invites.example", Action::Login),
        "https://invites.example/auth/login"
    );
}

#[test]
fn response_result_maps_outcomes() {
    assert_eq!(response_result(&HttpOutcome::Failed), Err(ApiError::Network));
    assert_eq!(response_result(&HttpOutcome::Status(204)), Ok(()));
    assert_eq!(response_result(&HttpOutcome::Status(500)), Err(ApiError::Server(500)));
    assert_eq!(response_result(&HttpOutcome::Status(199)), Err(ApiError::Server(199)));
    assert_eq!(response_result(&HttpOutcome::Status(299)), Ok(()));
    assert_eq!(response_result(&HttpOutcome::Status(300)), Err(ApiError::Server(300)));
}

#[test]
fn error_messages_are_human_readable() {
    assert_eq!(
        ApiError::Validation(Field::Username).message(),
        "Please enter a valid username."
    );
    assert_eq!(ApiError::Validation(Field::OtpCode).message(), "Please enter a 2FA code.");
    assert_eq!(ApiError::Server(404).message(), "Received HTTP Status: 404");
    assert_eq!(ApiError::Server(5).message(), "Received HTTP Status: 5");
    assert_eq!(
        ApiError::Decode.message(),
        "The server response could not be decoded."
    );
}

fn sample_listing() -> InviteCodes {
    InviteCodes {
        cursor: String::new(),
        codes: vec![
            Code {
                code: "ABC123".to_string(),
                available: 0,
                disabled: false,
                for_account: String::new(),
                created_by: "admin".to_string(),
                created_at: "2024-01-01T00:00:00Z".to_string(),
                uses: vec![],
            },
            Code {
                code: "XYZ789".to_string(),
                available: 2,
                disabled: true,
                for_account: String::new(),
                created_by: "admin".to_string(),
                created_at: "2024-01-02T00:00:00Z".to_string(),
                uses: vec![],
            },
        ],
    }
}

#[test]
fn store_replaces_codes_on_a_decoded_listing() {
    let mut store = InviteStore::new();
    assert!(store.codes().is_empty());
    assert!(store.receive_codes(ResponseEvent::Status(200, Some(sample_listing()))).is_ok());
    assert_eq!(store.codes().len(), 2);
    assert_eq!(store.filtered().len(), 2);
    assert_eq!(store.filtered()[0].code, "ABC123");
}

#[test]
fn store_keeps_its_state_on_failures() {
    let mut store = InviteStore::new();
    store.receive_codes(ResponseEvent::Status(200, Some(sample_listing()))).unwrap();
    assert_eq!(
        store.receive_codes(ResponseEvent::Failed).unwrap_err(),
        ApiError::Network
    );
    assert_eq!(
        store.receive_codes(ResponseEvent::Status(503, None)).unwrap_err(),
        ApiError::Server(503)
    );
    assert_eq!(
        store.receive_codes(ResponseEvent::Status(200, None)).unwrap_err(),
        ApiError::Decode
    );
    assert_eq!(store.codes().len(), 2);
}

#[test]
fn store_recomputes_the_view_on_new_criteria() {
    let mut store = InviteStore::new();
    store.receive_codes(ResponseEvent::Status(200, Some(sample_listing()))).unwrap();
    store.set_search_term("xyz".to_string());
    assert_eq!(store.filtered().len(), 1);
    assert_eq!(store.filtered()[0].code, "XYZ789");
    store.set_search_term(String::new());
    store.set_status_filter(FilterStatus::Disabled);
    assert_eq!(store.filtered().len(), 1);
    assert_eq!(store.filtered()[0].code, "XYZ789");
    assert_eq!(store.status_filter(), FilterStatus::Disabled);
    assert_eq!(store.search_term(), "");
}

#[test]
fn create_codes_request_validates_the_count() {
    assert_eq!(
        create_codes_request(0, 1).unwrap_err(),
        ApiError::Validation(Field::CodeCount)
    );
    assert_eq!(
        create_codes_request(-3, 1).unwrap_err(),
        ApiError::Validation(Field::CodeCount)
    );
    let body = create_codes_request(5, 2).unwrap();
    assert_eq!(body.code_count, 5);
    assert_eq!(body.use_count, 2);
}

#[test]
fn parse_code_count_reads_numerals_and_tolerates_junk() {
    assert_eq!(parse_code_count("3"), 3);
    assert_eq!(parse_code_count("0"), 0);
    assert_eq!(parse_code_count("007"), 7);
    assert_eq!(parse_code_count("-2"), -2);
    assert_eq!(parse_code_count(""), 1);
    assert_eq!(parse_code_count("abc"), 1);
    assert_eq!(parse_code_count("1x"), 1);
    assert_eq!(parse_code_count("-"), 1);
    assert_eq!(parse_code_count("99999999999999999999"), i32::MAX);
    assert_eq!(parse_code_count("-99999999999999999999"), i32::MIN);
}

#[test]
fn disable_request_names_exactly_one_code() {
    let req = disable_codes_request(&"ABC123".to_string());
    assert_eq!(req.codes, vec!["ABC123".to_string()]);
    assert!(req.accounts.is_empty());
}

#[test]
fn export_joins_codes_with_newlines() {
    assert_eq!(
        export_selection(&vec!["A".to_string(), "B".to_string()]),
        "A\nB"
    );
    assert_eq!(export_selection(&vec![]), "");
    assert_eq!(export_selection(&vec!["ONLY".to_string()]), "ONLY");
    assert_eq!(
        export_selection(&vec!["a".to_string(), "b".to_string(), "c".to_string()]),
        "a\nb\nc"
    );
}
