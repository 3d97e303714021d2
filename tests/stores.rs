use auth_service::domain::data_stores::{
    BannedTokenStore, LoginAttemptId, TwoFACode, TwoFACodeStore, TwoFACodeStoreError, UserStore,
    UserStoreError,
};
use auth_service::domain::email::Email;
use auth_service::domain::password::Password;
use auth_service::domain::user::User;
use auth_service::services::hashmap_two_fa_code_store::HashmapTwoFACodeStore;
use auth_service::services::hashmap_user_store::HashmapUserStore;
use auth_service::services::hashset_banned_token_store::HashsetBannedTokenStore;
use auth_service::services::postgres_user_store::{
    compute_password_hash, has_bounded_costs, new_user_row, user_from_row, validate_stored_hash,
    verify_password_hash, UserRow,
};
use auth_service::services::redis_banned_token_store;
use auth_service::services::redis_two_fa_code_store;

fn toto() -> User {
    User::new("toto@foo.com".to_string(), "password123".to_string(), true).unwrap()
}

#[test]
fn hashmap_user_store_test_add_user() {
    let mut store = HashmapUserStore::default();
    let user = toto();
    assert!(store.add_user(user.clone()).is_ok());
    let res = store.add_user(user.clone());
    assert!(res.is_err());
    assert_eq!(res.unwrap_err(), UserStoreError::UserAlreadyExists);
    assert!(store.len() == 1);
    assert!(store.get_user(&user.email).unwrap() == user);
}

#[test]
fn hashmap_user_store_test_get_user() {
    let mut store = HashmapUserStore::default();
    let user = toto();
    assert!(store.add_user(user.clone()).is_ok());
    assert!(store.get_user(&user.email).is_ok());
    assert!(store.get_user(&user.email).unwrap() == user);
}

#[test]
fn hashmap_user_store_test_validate_user() {
    let mut store = HashmapUserStore::default();
    let user = toto();
    assert!(store.add_user(user.clone()).is_ok());
    assert!(store.validate_user(&user.email, &user.password).is_ok());
    let res = store.validate_user(
        &user.email,
        &Password::parse("wrongpassword123".to_string()).unwrap(),
    );
    assert!(res.is_err());
    assert_eq!(res.unwrap_err(), UserStoreError::InvalidCredentials);
    let res = store.validate_user(
        &Email("non_existent_email".to_string()),
        &Password::parse("password123".to_string()).unwrap(),
    );
    assert!(res.is_err());
    assert_eq!(res.unwrap_err(), UserStoreError::UserNotFound);
}

#[test]
fn requires_2fa_round_trips_through_the_store() {
    for flag in [true, false] {
        let mut store = HashmapUserStore::new();
        let user = User::new("a@b.com".to_string(), "password123".to_string(), flag).unwrap();
        store.add_user(user.clone()).unwrap();
        let back = store.get_user(&Email::parse("a@b.com").unwrap()).unwrap();
        assert_eq!(back.requires_2fa, flag);
        assert!(back == user);
    }
}

#[test]
fn adding_same_email_twice_keeps_the_first() {
    let mut store = HashmapUserStore::new();
    let first = User::new("a@b.com".to_string(), "password123".to_string(), false).unwrap();
    let second = User::new("a@b.com".to_string(), "otherpass456".to_string(), true).unwrap();
    let results = [store.add_user(first.clone()), store.add_user(second)];
    assert_eq!(results.iter().filter(|r| r.is_ok()).count(), 1);
    assert_eq!(results[1], Err(UserStoreError::UserAlreadyExists));
    assert!(store.get_user(&first.email).unwrap() == first);
    assert!(store.validate_user(&first.email, &first.password).is_ok());
}

#[test]
fn missing_user_is_not_found() {
    let store = HashmapUserStore::default();
    let res = store.get_user(&Email::parse("nobody@x.org").unwrap());
    assert!(matches!(res, Err(UserStoreError::UserNotFound)));
}

#[test]
fn hashset_banned_token_store_test_store_banned_token() {
    let mut store = HashsetBannedTokenStore::default();
    let token = "token1";
    store.add_banned_token(token).unwrap();
    assert!(store.is_token_banned(token).unwrap());
    assert!(!store.is_token_banned("token2").unwrap());
    store.remove_banned_token(token).unwrap();
    assert!(!store.is_token_banned(token).unwrap());
}

#[test]
fn revoked_token_stays_revoked_until_removed() {
    let mut store = HashsetBannedTokenStore::new();
    assert!(store.remove_banned_token("never-added").is_ok());
    assert!(!store.is_token_banned("never-added").unwrap());
    store.add_banned_token("t1").unwrap();
    store.add_banned_token("t1").unwrap();
    store.add_banned_token("t2").unwrap();
    store.remove_banned_token("t2").unwrap();
    assert!(store.is_token_banned("t1").unwrap());
    store.remove_banned_token("t1").unwrap();
    assert!(!store.is_token_banned("t1").unwrap());
}

#[test]
fn test_hashmap_two_fa_code_store() {
    let mut store = HashmapTwoFACodeStore::default();
    let email = Email::parse("foo@bar.com").unwrap();
    let code = TwoFACode::default();
    let login_attempt_id = LoginAttemptId::default();
    assert!(store.add_code(&email, code.clone(), login_attempt_id.clone()).is_ok());
    let retrieved_code = store.get_code(&email);
    assert!(retrieved_code.is_ok());
    assert!(retrieved_code.unwrap() == (code, login_attempt_id));
    assert!(store.remove_code(&email).is_ok());
    let retrieved_code = store.get_code(&email);
    assert!(retrieved_code.is_err());
}

#[test]
fn second_put_overwrites_the_first() {
    let mut store = HashmapTwoFACodeStore::new();
    let email = Email::parse("foo@bar.com").unwrap();
    let (c1, i1) = (TwoFACode::from_number(111111), LoginAttemptId::new());
    let (c2, i2) = (TwoFACode::from_number(222222), LoginAttemptId::new());
    store.add_code(&email, c1, i1).unwrap();
    store.add_code(&email, c2.clone(), i2.clone()).unwrap();
    let (code, id) = store.get_code(&email).unwrap();
    assert!(code == c2);
    assert!(id == i2);
    assert!(matches!(
        store.get_code(&Email::parse("other@bar.com").unwrap()),
        Err(TwoFACodeStoreError::LoginAttemptIdNotFound)
    ));
}

#[test]
fn password_hash_verifies_only_its_password() {
    let password = Password::parse("password123".to_string()).unwrap();
    let hash = compute_password_hash(&password).unwrap();
    assert!(hash.starts_with("$argon2id$"));
    assert!(verify_password_hash(&hash, &password));
    let other = Password::parse("password124".to_string()).unwrap();
    assert!(!verify_password_hash(&hash, &other));
    assert!(!verify_password_hash("not a hash", &password));
    assert!(validate_stored_hash(Some(hash.clone()), &password).is_ok());
    assert_eq!(
        validate_stored_hash(Some(hash), &other),
        Err(UserStoreError::InvalidCredentials)
    );
    assert_eq!(validate_stored_hash(None, &password), Err(UserStoreError::UserNotFound));
}

#[test]
fn new_user_row_hashes_the_password() {
    let user = toto();
    assert_eq!(new_user_row(&user, true).unwrap_err(), UserStoreError::UserAlreadyExists);
    let row = new_user_row(&user, false).unwrap();
    assert_eq!(row.email, "toto@foo.com");
    assert!(row.requires_2fa);
    assert_ne!(row.password_hash, "password123");
    assert!(verify_password_hash(&row.password_hash, &user.password));
    let back = user_from_row(row.clone()).unwrap();
    assert!(back.email == user.email);
    assert!(back.requires_2fa);
    let broken = UserRow { email: "broken".to_string(), ..row };
    assert!(matches!(user_from_row(broken), Err(UserStoreError::UnexpectedError(_))));
}

#[test]
fn cache_keys_are_prefixed() {
    assert_eq!(redis_banned_token_store::get_key("abc"), "banned_token:abc");
    let email = Email::parse("foo@bar.com").unwrap();
    assert_eq!(redis_two_fa_code_store::get_key(&email), "two_fa_code:foo@bar.com");
}

#[test]
fn cached_challenge_round_trips() {
    let code = TwoFACode::from_number(7);
    let id = LoginAttemptId::new();
    let json = redis_two_fa_code_store::encode_challenge(&code, &id).unwrap();
    assert_eq!(json, format!("[\"000007\",\"{}\"]", id.as_ref()));
    let (back_code, back_id) = redis_two_fa_code_store::decode_challenge(&json).unwrap();
    assert!(back_code == code);
    assert!(back_id == id);
    assert!(redis_two_fa_code_store::decode_challenge("not json").is_err());
    assert!(redis_two_fa_code_store::decode_challenge("[\"12\",\"x\"]").is_err());
}

#[test]
fn hashes_with_oversized_costs_are_refused() {
    let password = Password::parse("password123".to_string()).unwrap();
    let hash = compute_password_hash(&password).unwrap();
    assert!(has_bounded_costs(&hash));
    let tail = &hash[hash.find(",p=1$").unwrap() + 4..];
    let huge_lanes = format!("$argon2id$v=19$m=65536,t=2,p=600000000{}", tail);
    assert!(!has_bounded_costs(&huge_lanes));
    assert!(!verify_password_hash(&huge_lanes, &password));
    assert_eq!(
        validate_stored_hash(Some(huge_lanes), &password),
        Err(UserStoreError::InvalidCredentials)
    );
    let huge_memory = format!("$argon2id$v=19$m=4294967295,t=2,p=1{}", tail);
    assert!(!has_bounded_costs(&huge_memory));
    assert!(has_bounded_costs("$argon2id$v=19$m=15000,t=2,p=1$x"));
    assert!(!has_bounded_costs("$argon2i$v=19$m=15000,t=2,p=1$x"));
    assert!(!has_bounded_costs("$argon2id$v=19$m=15000,t=2,p=1"));
    assert!(!has_bounded_costs("$argon2id$v=19$m=,t=2,p=1$x"));
    assert!(!has_bounded_costs(""));
}
