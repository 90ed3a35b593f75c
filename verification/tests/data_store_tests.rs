use auth_service::data_stores::{
    BannedTokenStore, LoginAttemptId, TwoFACode, TwoFACodeStore, UserStore, UserStoreError,
};
use auth_service::email::Email;
use auth_service::hashmap_two_fa_code_store::HashmapTwoFACodeStore;
use auth_service::hashmap_user_store::HashmapUserStore;
use auth_service::hashset_banned_token_store::HashsetBannedTokenStore;
use auth_service::password::Password;
use auth_service::user::User;

#[test]
fn test_add_user() {
    let mut user_store = HashmapUserStore::default();
    let new_user = User {
        email: Email::parse("test@email.com".to_string()).unwrap(),
        password: Password::parse("12341234".to_string()).unwrap(),
        requires_2fa: false,
    };
    let result = user_store.add_user(new_user.clone());
    assert!(result.is_ok());

    let second_result = user_store.add_user(new_user);
    assert_eq!(Err(UserStoreError::UserAlreadyExists), second_result)
}

#[test]
fn test_get_user() {
    let user_map = HashmapUserStore::default();

    let user_result = user_map
        .get_user(&Email::parse("admin@email.com".to_string()).unwrap())
        .unwrap();
    assert_eq!("admin@email.com", user_result.email.as_ref());
}

#[test]
fn test_validate_user() {
    let user_map = HashmapUserStore::default();
    assert!(user_map
        .validate_user(
            &Email::parse("admin@email.com".to_string()).unwrap(),
            &Password::parse("12341234".to_string()).unwrap()
        )
        .is_ok());
}

#[test]
fn test_validate_user_wrong_password() {
    let user_map = HashmapUserStore::default();
    assert_eq!(
        Err(UserStoreError::InvalidCredentials),
        user_map.validate_user(
            &Email::parse("admin@email.com".to_string()).unwrap(),
            &Password::parse("wrong-password".to_string()).unwrap()
        )
    );
}

#[test]
fn test_validate_user_unknown_identity() {
    let user_map = HashmapUserStore::default();
    assert_eq!(
        Err(UserStoreError::UserNotFound),
        user_map.validate_user(
            &Email::parse("nobody@email.com".to_string()).unwrap(),
            &Password::parse("12341234".to_string()).unwrap()
        )
    );
}

#[test]
fn test_add_token() {
    let mut store = HashsetBannedTokenStore::default();
    let token = "test".to_string();

    let result = store.store_token(token.clone());

    assert!(result.is_ok());
    assert!(store.contains_token(&token).is_ok());
    assert_eq!(Ok(true), store.contains_token(&token));
}

#[test]
fn test_contains_token() {
    let mut store = HashsetBannedTokenStore::default();
    let token = "test".to_string();
    store.store_token(token.clone()).unwrap();

    let result = store.contains_token(&token);
    assert!(result.is_ok());
    assert_eq!(Ok(()), store.get_token(&token));
    assert_eq!(Ok(false), store.contains_token("other"));
}

#[test]
fn tests_add_code() {
    let mut store = HashmapTwoFACodeStore::default();
    let email = Email::parse("test@email.com".to_string()).unwrap();
    let login_attempt_id = LoginAttemptId::default();
    let code = TwoFACode::default();

    let response = store.add_code(email.clone(), login_attempt_id, code);
    assert!(response.is_ok());
    assert!(store.get_code(&email).is_ok());
}

#[test]
fn test_add_code_overwrites_pending_attempt() {
    let mut store = HashmapTwoFACodeStore::default();
    let email = Email::parse("test@email.com".to_string()).unwrap();

    let first_id = LoginAttemptId::parse("11111111-2222-3333-4444-555555555555".to_string()).unwrap();
    let first_code = TwoFACode::parse("111111".to_string()).unwrap();
    store.add_code(email.clone(), first_id, first_code).unwrap();

    let second_id = LoginAttemptId::parse("99999999-8888-7777-6666-555555555555".to_string()).unwrap();
    let second_code = TwoFACode::parse("222222".to_string()).unwrap();
    store.add_code(email.clone(), second_id, second_code).unwrap();

    let (stored_id, stored_code) = store.get_code(&email).unwrap();
    assert_eq!("99999999-8888-7777-6666-555555555555", stored_id.as_ref());
    assert_eq!("222222", stored_code.as_ref());
}

#[test]
fn test_remove_code_consumes_attempt() {
    let mut store = HashmapTwoFACodeStore::default();
    let email = Email::parse("test@email.com".to_string()).unwrap();
    store
        .add_code(email.clone(), LoginAttemptId::default(), TwoFACode::default())
        .unwrap();

    assert!(store.remove_code(&email).is_ok());
    assert!(store.get_code(&email).is_err());
    // removing a nonexistent attempt is not an error
    assert!(store.remove_code(&email).is_ok());
}

#[test]
fn test_login_attempt_id_is_uuid_text() {
    let id = LoginAttemptId::default();
    let text = id.as_ref();
    assert_eq!(36, text.len());
    let chars: Vec<char> = text.chars().collect();
    for (i, c) in chars.iter().enumerate() {
        if i == 8 || i == 13 || i == 18 || i == 23 {
            assert_eq!('-', *c);
        } else {
            assert!(c.is_ascii_hexdigit() && !c.is_ascii_uppercase());
        }
    }
    assert!(LoginAttemptId::parse(text.to_string()).is_ok());
}

#[test]
fn test_login_attempt_id_parse_rejects_malformed() {
    assert!(LoginAttemptId::parse("123".to_string()).is_err());
    assert!(LoginAttemptId::parse("1111111122223333444455555555555555555".to_string()).is_err());
    assert!(LoginAttemptId::parse("11111111x2222-3333-4444-555555555555".to_string()).is_err());
}

#[test]
fn test_two_fa_code_is_six_digits() {
    let code = TwoFACode::default();
    let text = code.as_ref();
    assert_eq!(6, text.len());
    assert!(text.chars().all(|c| c.is_ascii_digit()));
    assert!(!text.starts_with('0'));
    assert!(TwoFACode::parse(text.to_string()).is_ok());
}

#[test]
fn test_two_fa_code_parse_rejects_malformed() {
    assert!(TwoFACode::parse("123456".to_string()).is_ok());
    assert!(TwoFACode::parse("12345".to_string()).is_err());
    assert!(TwoFACode::parse("012345".to_string()).is_err());
    assert!(TwoFACode::parse("123a56".to_string()).is_err());
    assert!(TwoFACode::parse("1234567".to_string()).is_err());
}
