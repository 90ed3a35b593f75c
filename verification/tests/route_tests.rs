use auth_service::AuthAPIError;
use auth_service::data_stores::{BannedTokenStore, TwoFACodeStore, UserStore};
use auth_service::email::Email;
use auth_service::email_client::{EmailClient, MockEmailClient};
use auth_service::hashmap_two_fa_code_store::HashmapTwoFACodeStore;
use auth_service::hashmap_user_store::HashmapUserStore;
use auth_service::hashset_banned_token_store::HashsetBannedTokenStore;
use auth_service::routes::login::{LoginResponse, login};
use auth_service::routes::logout::logout;
use auth_service::routes::signup::signup;
use auth_service::routes::verify_2fa::{Verify2FARequest, verify_2fa};
use auth_service::routes::verify_token::{VerifyTokenRequest, verify_token};

const SECRET: &str = "test-signing-key";
const NOW: u64 = 1_700_000_000;

struct FailingEmailClient;

impl EmailClient for FailingEmailClient {
    fn send_email(&self, _recipient: &Email, _subject: &str, _content: &str) -> Result<(), ()> {
        Err(())
    }
}

#[test]
fn should_return_201_if_valid_input() {
    let mut users = HashmapUserStore::default();
    let response = signup(
        &mut users,
        "test_user@email.com".to_string(),
        "12341234".to_string(),
        false,
    )
    .unwrap();
    assert_eq!("User created successfully!", response.message);
}

#[test]
fn signup_should_return_422_if_malformed_input() {
    // a missing or mistyped field is rejected by the transport layer before
    // the orchestrator runs; an identity that does not parse is the nearest
    // library-level equivalent
    let mut users = HashmapUserStore::default();
    let r = signup(&mut users, "pwd".to_string(), "password123".to_string(), true);
    assert_eq!(Err(AuthAPIError::InvalidCredentials), r.map(|_| ()));
}

#[test]
fn signup_rejects_short_password() {
    let mut users = HashmapUserStore::default();
    let r = signup(&mut users, "test@email.com".to_string(), "pwd".to_string(), false);
    assert_eq!(Err(AuthAPIError::InvalidCredentials), r.map(|_| ()));
}

#[test]
fn signup_twice_yields_already_exists() {
    let mut users = HashmapUserStore::default();
    signup(&mut users, "a@x.com".to_string(), "pass1234".to_string(), false).unwrap();
    let second = signup(&mut users, "a@x.com".to_string(), "pass5678".to_string(), true);
    assert_eq!(Err(AuthAPIError::UserAlreadyExists), second.map(|_| ()));
    // the stored record is unchanged from the first signup
    let stored = users
        .get_user(&Email::parse("a@x.com".to_string()).unwrap())
        .unwrap();
    assert_eq!("pass1234", stored.password.as_ref());
    assert!(!stored.requires_2fa);
}

#[test]
fn should_return_200_if_valid_credentials_and_2fa_disabled() {
    let mut users = HashmapUserStore::default();
    let mut codes = HashmapTwoFACodeStore::default();
    signup(&mut users, "a@x.com".to_string(), "pass1234".to_string(), false).unwrap();

    let (cookie, result) = login(
        &users,
        &mut codes,
        &MockEmailClient,
        SECRET,
        NOW,
        "a@x.com".to_string(),
        "pass1234".to_string(),
    );
    assert_eq!(Ok(LoginResponse::RegularAuth), result);
    assert!(cookie.is_some(), "No auth cookie found");
}

#[test]
fn should_return_206_if_valid_credentials_and_2fa_enabled() {
    let mut users = HashmapUserStore::default();
    let mut codes = HashmapTwoFACodeStore::default();
    signup(&mut users, "b@x.com".to_string(), "pass1234".to_string(), true).unwrap();

    let (cookie, result) = login(
        &users,
        &mut codes,
        &MockEmailClient,
        SECRET,
        NOW,
        "b@x.com".to_string(),
        "pass1234".to_string(),
    );
    assert!(cookie.is_none());
    let response = result.unwrap();
    let attempt_id = match response {
        LoginResponse::TwoFactorAuth(tfa) => {
            assert_eq!("2FA required", tfa.message);
            tfa.login_attempt_id
        }
        LoginResponse::RegularAuth => panic!("expected a two-factor response"),
    };
    // the attempt id returned to the caller is the one stored for the identity
    let email = Email::parse("b@x.com".to_string()).unwrap();
    let (stored_id, _stored_code) = codes.get_code(&email).unwrap();
    assert_eq!(stored_id.as_ref(), attempt_id);
}

#[test]
fn should_return_400_if_invalid() {
    let mut users = HashmapUserStore::default();
    let mut codes = HashmapTwoFACodeStore::default();
    let (cookie, result) = login(
        &users,
        &mut codes,
        &MockEmailClient,
        SECRET,
        NOW,
        "admin@email.com".to_string(),
        "1234".to_string(),
    );
    assert!(cookie.is_none());
    assert_eq!(Err(AuthAPIError::InvalidCredentials), result);
}

#[test]
fn login_rejects_malformed_email() {
    // a malformed identity is the client's fault, rejected before any store
    // is consulted
    let mut users = HashmapUserStore::default();
    let mut codes = HashmapTwoFACodeStore::default();
    let (cookie, result) = login(
        &users,
        &mut codes,
        &MockEmailClient,
        SECRET,
        NOW,
        "not-an-email".to_string(),
        "pass1234".to_string(),
    );
    assert!(cookie.is_none());
    assert_eq!(Err(AuthAPIError::InvalidCredentials), result);
}

#[test]
fn login_should_return_401_if_incorrect_credentials() {
    let mut users = HashmapUserStore::default();
    let mut codes = HashmapTwoFACodeStore::default();
    signup(&mut users, "test@email.com".to_string(), "12341234".to_string(), false).unwrap();

    let (cookie, result) = login(
        &users,
        &mut codes,
        &MockEmailClient,
        SECRET,
        NOW,
        "test@email.com".to_string(),
        "pwds1234".to_string(),
    );
    assert!(cookie.is_none());
    assert_eq!(Err(AuthAPIError::IncorrectCredentials), result);

    // a login for a nonexistent identity is indistinguishable
    let (cookie2, result2) = login(
        &users,
        &mut codes,
        &MockEmailClient,
        SECRET,
        NOW,
        "nobody@email.com".to_string(),
        "pwds1234".to_string(),
    );
    assert!(cookie2.is_none());
    assert_eq!(Err(AuthAPIError::IncorrectCredentials), result2);
}

#[test]
fn login_returns_unexpected_error_if_code_delivery_fails() {
    let mut users = HashmapUserStore::default();
    let mut codes = HashmapTwoFACodeStore::default();
    signup(&mut users, "b@x.com".to_string(), "pass1234".to_string(), true).unwrap();

    let (cookie, result) = login(
        &users,
        &mut codes,
        &FailingEmailClient,
        SECRET,
        NOW,
        "b@x.com".to_string(),
        "pass1234".to_string(),
    );
    assert!(cookie.is_none());
    assert_eq!(Err(AuthAPIError::UnexpectedError), result);
}

#[test]
fn should_return_200_if_correct_code() {
    let mut users = HashmapUserStore::default();
    let mut codes = HashmapTwoFACodeStore::default();
    signup(&mut users, "b@x.com".to_string(), "pass1234".to_string(), true).unwrap();
    let (_, result) = login(
        &users,
        &mut codes,
        &MockEmailClient,
        SECRET,
        NOW,
        "b@x.com".to_string(),
        "pass1234".to_string(),
    );
    result.unwrap();

    let email = Email::parse("b@x.com".to_string()).unwrap();
    let (id, code) = codes.get_code(&email).unwrap();
    let (cookie, outcome) = verify_2fa(
        &mut codes,
        SECRET,
        NOW,
        Verify2FARequest {
            email: "b@x.com".to_string(),
            login_attempt_id: id.as_ref().to_string(),
            two_fa_code: code.as_ref().to_string(),
        },
    );
    assert_eq!(Ok(()), outcome);
    assert!(cookie.is_some(), "No auth cookie found");

    // the issued cookie is a currently-valid session token
    let banned = HashsetBannedTokenStore::default();
    let check = verify_token(
        &banned,
        SECRET,
        NOW,
        VerifyTokenRequest { token: cookie.unwrap() },
    );
    assert_eq!(Ok(()), check);
}

#[test]
fn should_return_400_if_invalid_input() {
    let mut codes = HashmapTwoFACodeStore::default();
    let (cookie, outcome) = verify_2fa(
        &mut codes,
        SECRET,
        NOW,
        Verify2FARequest {
            email: "test".to_string(),
            login_attempt_id: "123123".to_string(),
            two_fa_code: "123456".to_string(),
        },
    );
    assert!(cookie.is_none());
    assert_eq!(Err(AuthAPIError::InvalidCredentials), outcome);
}

#[test]
fn verify_2fa_should_return_401_if_incorrect_credentials() {
    let mut users = HashmapUserStore::default();
    let mut codes = HashmapTwoFACodeStore::default();
    signup(&mut users, "b@x.com".to_string(), "pass1234".to_string(), true).unwrap();
    let (_, result) = login(
        &users,
        &mut codes,
        &MockEmailClient,
        SECRET,
        NOW,
        "b@x.com".to_string(),
        "pass1234".to_string(),
    );
    result.unwrap();

    let email = Email::parse("b@x.com".to_string()).unwrap();
    let (_, code) = codes.get_code(&email).unwrap();
    let (cookie, outcome) = verify_2fa(
        &mut codes,
        SECRET,
        NOW,
        Verify2FARequest {
            email: "b@x.com".to_string(),
            login_attempt_id: "123123".to_string(),
            two_fa_code: code.as_ref().to_string(),
        },
    );
    assert!(cookie.is_none());
    assert_eq!(Err(AuthAPIError::IncorrectCredentials), outcome);
}

#[test]
fn should_return_401_if_same_code_twice() {
    let mut users = HashmapUserStore::default();
    let mut codes = HashmapTwoFACodeStore::default();
    signup(&mut users, "b@x.com".to_string(), "pass1234".to_string(), true).unwrap();
    let (_, result) = login(
        &users,
        &mut codes,
        &MockEmailClient,
        SECRET,
        NOW,
        "b@x.com".to_string(),
        "pass1234".to_string(),
    );
    result.unwrap();

    let email = Email::parse("b@x.com".to_string()).unwrap();
    let (id, code) = codes.get_code(&email).unwrap();
    let request = Verify2FARequest {
        email: "b@x.com".to_string(),
        login_attempt_id: id.as_ref().to_string(),
        two_fa_code: code.as_ref().to_string(),
    };
    let (cookie, outcome) = verify_2fa(&mut codes, SECRET, NOW, request);
    assert_eq!(Ok(()), outcome);
    assert!(cookie.is_some(), "No auth cookie found");

    let repeat = Verify2FARequest {
        email: "b@x.com".to_string(),
        login_attempt_id: id.as_ref().to_string(),
        two_fa_code: code.as_ref().to_string(),
    };
    let (cookie2, outcome2) = verify_2fa(&mut codes, SECRET, NOW, repeat);
    assert!(cookie2.is_none());
    assert_eq!(Err(AuthAPIError::IncorrectCredentials), outcome2);
    // the success consumed the challenge
    assert!(codes.get_code(&email).is_err());
}

#[test]
fn should_return_401_if_old_code() {
    let mut users = HashmapUserStore::default();
    let mut codes = HashmapTwoFACodeStore::default();
    signup(&mut users, "b@x.com".to_string(), "pass1234".to_string(), true).unwrap();

    let (_, first) = login(
        &users,
        &mut codes,
        &MockEmailClient,
        SECRET,
        NOW,
        "b@x.com".to_string(),
        "pass1234".to_string(),
    );
    first.unwrap();
    let email = Email::parse("b@x.com".to_string()).unwrap();
    let (first_id, first_code) = codes.get_code(&email).unwrap();

    // a second login overwrites the pending attempt
    let (_, second) = login(
        &users,
        &mut codes,
        &MockEmailClient,
        SECRET,
        NOW,
        "b@x.com".to_string(),
        "pass1234".to_string(),
    );
    second.unwrap();
    let (second_id, _) = codes.get_code(&email).unwrap();
    assert_ne!(first_id.as_ref(), second_id.as_ref());

    let (cookie, outcome) = verify_2fa(
        &mut codes,
        SECRET,
        NOW,
        Verify2FARequest {
            email: "b@x.com".to_string(),
            login_attempt_id: first_id.as_ref().to_string(),
            two_fa_code: first_code.as_ref().to_string(),
        },
    );
    assert!(cookie.is_none());
    assert_eq!(Err(AuthAPIError::IncorrectCredentials), outcome);
}

#[test]
fn verify_2fa_should_return_422_if_malformed_input() {
    // a body with a missing field is rejected by the transport layer before
    // the orchestrator runs; an empty code against an empty challenge store
    // is the nearest library-level input, and no challenge matches it
    let mut codes = HashmapTwoFACodeStore::default();
    let (cookie, outcome) = verify_2fa(
        &mut codes,
        SECRET,
        NOW,
        Verify2FARequest {
            email: "test@email.com".to_string(),
            login_attempt_id: "123123".to_string(),
            two_fa_code: "".to_string(),
        },
    );
    assert!(cookie.is_none());
    assert_eq!(Err(AuthAPIError::IncorrectCredentials), outcome);
}
