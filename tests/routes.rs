use auth_service::domain::data_stores::{
    BannedTokenStore, LoginAttemptId, TwoFACode, TwoFACodeStore, TwoFACodeStoreError,
};
use auth_service::domain::email::Email;
use auth_service::domain::error::AuthAPIError;
use auth_service::routes::login::{login, LoginRequest, LoginResponse};
use auth_service::routes::logout::{logout, logout_validated};
use auth_service::routes::signup::{signup, SignupRequest};
use auth_service::routes::verify_2fa::{verify_2fa, Verify2FARequest};
use auth_service::routes::verify_token::{verify_token, verify_token_validated};
use auth_service::services::hashmap_two_fa_code_store::HashmapTwoFACodeStore;
use auth_service::services::hashmap_user_store::HashmapUserStore;
use auth_service::services::hashset_banned_token_store::HashsetBannedTokenStore;
use auth_service::services::mock_email_client::MockEmailClient;
use auth_service::utils::auth::validate_token;

const SECRET: &str = "route-secret";

struct App {
    users: HashmapUserStore,
    codes: HashmapTwoFACodeStore,
    banned: HashsetBannedTokenStore,
    mail: MockEmailClient,
}

impl App {
    fn new() -> App {
        App {
            users: HashmapUserStore::default(),
            codes: HashmapTwoFACodeStore::default(),
            banned: HashsetBannedTokenStore::default(),
            mail: MockEmailClient::default(),
        }
    }

    fn signup(&mut self, email: &str, password: &str, requires_2fa: bool) -> Result<(), AuthAPIError> {
        let request = SignupRequest {
            email: email.to_owned(),
            password: password.to_owned(),
            requires_2fa,
        };
        signup(&mut self.users, request)
    }

    fn login(&mut self, email: &str, password: &str) -> Result<(Option<String>, LoginResponse), AuthAPIError> {
        let request = LoginRequest { email: email.to_owned(), password: password.to_owned() };
        login(&self.users, &mut self.codes, &mut self.mail, SECRET, request)
    }

    fn verify_2fa(&mut self, email: &str, id: &str, code: &str) -> Result<String, AuthAPIError> {
        let request = Verify2FARequest {
            email: email.to_owned(),
            login_attempt_id: id.to_owned(),
            two_fa_code: code.to_owned(),
        };
        verify_2fa(&mut self.codes, SECRET, request)
    }
}

fn random_email() -> String {
    format!("{}@example.com", LoginAttemptId::new().as_ref())
}

#[test]
fn should_return_201_if_valid_input() {
    let mut app = App::new();
    let cases = [
        (random_email(), "password123", true),
        (random_email(), "password123", false),
        (random_email(), "fdjskljfejzi1234", false),
    ];
    for (email, password, flag) in cases.iter() {
        assert!(app.signup(email, password, *flag).is_ok(), "failed for input: {:?}", email);
    }
}

#[test]
fn should_return_400_if_invalid_input() {
    let mut app = App::new();
    let cases = [("foo", "password123", true), ("", "password123", false), ("foo@toto.com", "5char", false)];
    for (email, password, flag) in cases.iter() {
        let err = app.signup(email, password, *flag).unwrap_err();
        assert_eq!(err.status_code(), 400, "failed for input: {:?}", email);
        assert_eq!(err.to_response().1.error, "Invalid credentials".to_owned());
    }
}

#[test]
fn should_return_409_if_email_already_exists() {
    let mut app = App::new();
    assert!(app.signup("foo@toto.com", "password123", true).is_ok());
    let err = app.signup("foo@toto.com", "password123", true).unwrap_err();
    assert_eq!(err.status_code(), 409);
    assert_eq!(err.to_response().1.error, "User already exists".to_owned());
}

#[test]
fn valid_login_without_2fa_returns_200() {
    let mut app = App::new();
    let email = random_email();
    app.signup(&email, "password123", false).unwrap();
    let (token, response) = app.login(&email, "password123").unwrap();
    assert!(matches!(response, LoginResponse::No2FA));
    let token = token.expect("auth token missing");
    assert!(token.len() > 0, "auth token is empty");
    assert_eq!(validate_token(&token, SECRET).unwrap().sub, email);
}

#[test]
fn invalid_login_returns_400() {
    let mut app = App::new();
    let email = random_email();
    app.signup(&email, "password123", false).unwrap();
    let cases = [
        ("wrong_email".to_owned(), "password123"),
        (email.clone(), "wrong_password"),
        ("wrong_email".to_owned(), "wrong_password"),
    ];
    for (e, p) in cases.iter() {
        let err = app.login(e, p).unwrap_err();
        assert_eq!(err.status_code(), 400, "failed for input: {:?}", e);
    }
}

#[test]
fn incorrect_login_returns_401() {
    let mut app = App::new();
    let email = random_email();
    app.signup(&email, "password123", false).unwrap();
    let cases = [
        (random_email(), "password123"),
        (email.clone(), "wrongpassword12346"),
        (random_email(), "wrong_password12345"),
    ];
    for (e, p) in cases.iter() {
        let err = app.login(e, p).unwrap_err();
        assert_eq!(err, AuthAPIError::AuthenticationFailure);
        assert_eq!(err.status_code(), 401, "failed for input: {:?}", e);
    }
}

#[test]
fn should_return_206_if_valid_credentials_and_2fa_enabled() {
    let mut app = App::new();
    let email = random_email();
    app.signup(&email, "password123", true).unwrap();
    let (token, response) = app.login(&email, "password123").unwrap();
    assert!(token.is_none());
    let body = match response {
        LoginResponse::With2FA(body) => body,
        LoginResponse::No2FA => panic!("Missing response body"),
    };
    assert_eq!(body.message, "2FA required");
    let (_, id) = app.codes.get_code(&Email::parse(&email).unwrap()).unwrap();
    assert_eq!(body.login_attempt_id, id.as_ref());
    assert_eq!(app.mail.sent().len(), 1);
}

#[test]
fn should_return_200_if_valid_credentials_and_2fa_enabled() {
    let mut app = App::new();
    let email = random_email();
    app.signup(&email, "password123", true).unwrap();
    let (_, response) = app.login(&email, "password123").unwrap();
    let from_response = match response {
        LoginResponse::With2FA(body) => Some(body.login_attempt_id),
        LoginResponse::No2FA => None,
    };
    let (code, id) = app.codes.get_code(&Email::parse(&email).unwrap()).unwrap();
    assert!(from_response.is_some(), "login attempt id is None");
    assert_eq!(from_response.unwrap(), id.as_ref());
    let token = app.verify_2fa(&email, id.as_ref(), code.as_ref()).unwrap();
    assert!(token.len() > 0, "auth token is empty");
}

#[test]
fn returns_400_if_invalid_input() {
    let mut app = App::new();
    let email = random_email();
    app.signup(&email, "password123", true).unwrap();
    app.login(&email, "password123").unwrap();
    let (_, id) = app.codes.get_code(&Email::parse(&email).unwrap()).unwrap();
    let cases = [
        (email.clone(), id.as_ref().to_owned(), "invalid_code".to_owned()),
        (email.clone(), "invalid_id".to_owned(), TwoFACode::new().as_ref().to_owned()),
        ("invalid_email".to_owned(), id.as_ref().to_owned(), TwoFACode::new().as_ref().to_owned()),
    ];
    for (e, i, c) in cases.iter() {
        let err = app.verify_2fa(e, i, c).unwrap_err();
        assert_eq!(err.status_code(), 400, "failed for input: {:?}", (e, i, c));
    }
}

#[test]
fn return_401_if_invalid_credentials() {
    let mut app = App::new();
    let email = random_email();
    app.signup(&email, "password123", true).unwrap();
    app.login(&email, "password123").unwrap();
    let err = app
        .verify_2fa(&email, LoginAttemptId::new().as_ref(), TwoFACode::new().as_ref())
        .unwrap_err();
    assert_eq!(err.status_code(), 401);
}

#[test]
fn return_401_if_same_code_twice() {
    let mut app = App::new();
    let email = random_email();
    app.signup(&email, "password123", true).unwrap();
    app.login(&email, "password123").unwrap();
    let (code, id) = app.codes.get_code(&Email::parse(&email).unwrap()).unwrap();
    assert!(app.verify_2fa(&email, id.as_ref(), code.as_ref()).is_ok());
    let err = app.verify_2fa(&email, id.as_ref(), code.as_ref()).unwrap_err();
    assert_eq!(err, AuthAPIError::AuthenticationFailure);
    assert_eq!(err.status_code(), 401);
}

#[test]
fn login_without_2fa_creates_no_challenge() {
    let mut app = App::new();
    app.signup("a@b.com", "password123", false).unwrap();
    let (token, response) = app.login("a@b.com", "password123").unwrap();
    assert!(matches!(response, LoginResponse::No2FA));
    assert!(token.is_some());
    assert!(app.codes.get_code(&Email::parse("a@b.com").unwrap()).is_err());
    assert_eq!(app.mail.sent().len(), 0);
}

#[test]
fn login_with_2fa_sends_one_code_that_verifies_once() {
    let mut app = App::new();
    app.signup("a@b.com", "password123", true).unwrap();
    let (token, response) = app.login("a@b.com", "password123").unwrap();
    assert!(token.is_none());
    let id = match response {
        LoginResponse::With2FA(body) => body.login_attempt_id,
        LoginResponse::No2FA => panic!("expected a challenge"),
    };
    assert_eq!(app.mail.sent().len(), 1);
    let sent = &app.mail.sent()[0];
    assert_eq!(sent.recipient, "a@b.com");
    assert_eq!(sent.subject, "Your 2FA Code");
    let (code, _) = app.codes.get_code(&Email::parse("a@b.com").unwrap()).unwrap();
    assert!(sent.content.contains(code.as_ref()));
    assert_eq!(code.as_ref().len(), 6);
    let session = app.verify_2fa("a@b.com", &id, code.as_ref()).unwrap();
    assert_eq!(validate_token(&session, SECRET).unwrap().sub, "a@b.com");
    assert_eq!(
        app.verify_2fa("a@b.com", &id, code.as_ref()),
        Err(AuthAPIError::AuthenticationFailure)
    );
}

#[test]
fn a_new_login_replaces_the_pending_code() {
    let mut app = App::new();
    app.signup("a@b.com", "password123", true).unwrap();
    app.login("a@b.com", "password123").unwrap();
    let (first_code, first_id) = app.codes.get_code(&Email::parse("a@b.com").unwrap()).unwrap();
    app.login("a@b.com", "password123").unwrap();
    let (code, id) = app.codes.get_code(&Email::parse("a@b.com").unwrap()).unwrap();
    assert!(id != first_id);
    assert_eq!(app.mail.sent().len(), 2);
    assert_eq!(
        app.verify_2fa("a@b.com", first_id.as_ref(), first_code.as_ref()),
        Err(AuthAPIError::AuthenticationFailure)
    );
    assert!(app.verify_2fa("a@b.com", id.as_ref(), code.as_ref()).is_ok());
}

#[test]
fn logout_should_return_200_if_jwt_is_valid() {
    let mut app = App::new();
    app.signup("a@b.com", "password123", false).unwrap();
    let (token, _) = app.login("a@b.com", "password123").unwrap();
    let token = token.unwrap();
    assert!(logout(&mut app.banned, SECRET, Some(&token)).is_ok());
    assert!(app.banned.is_token_banned(&token).unwrap());
}

#[test]
fn should_return_400_if_jwt_cookie_missing() {
    let mut app = App::new();
    let err = logout(&mut app.banned, SECRET, None).unwrap_err();
    assert_eq!(err, AuthAPIError::MissingToken);
    assert_eq!(err.status_code(), 400);
}

#[test]
fn logout_should_return_401_if_invalid_token() {
    let mut app = App::new();
    let err = logout(&mut app.banned, SECRET, Some("invalid")).unwrap_err();
    assert_eq!(err, AuthAPIError::InvalidToken);
    assert_eq!(err.status_code(), 401);
    assert!(!app.banned.is_token_banned("invalid").unwrap());
}

#[test]
fn verify_token_should_return_200_if_jwt_is_valid() {
    let mut app = App::new();
    app.signup("a@b.com", "password123", false).unwrap();
    let (token, _) = app.login("a@b.com", "password123").unwrap();
    assert!(verify_token(&app.banned, SECRET, &token.unwrap()).is_ok());
}

#[test]
fn verify_token_should_return_401_if_invalid_token() {
    let mut app = App::new();
    let email = random_email();
    app.signup(&email, "password123", false).unwrap();
    let (jwt, _) = app.login(&email, "password123").unwrap();
    let jwt = jwt.unwrap();
    assert!(logout(&mut app.banned, SECRET, Some(&jwt)).is_ok());
    let (fresh, _) = app.login(&email, "password123").unwrap();
    let cookie_text = format!("jwt={}; HttpOnly; SameSite=Lax; Path=/", fresh.unwrap());
    let cases = ["invalid_token".to_owned(), cookie_text, jwt];
    for token in cases.iter() {
        let err = verify_token(&app.banned, SECRET, token).unwrap_err();
        assert_eq!(err.status_code(), 401, "failed for token: {:?}", token);
    }
}

#[test]
fn logged_out_token_is_reported_invalid() {
    let mut app = App::new();
    app.signup("a@b.com", "password123", false).unwrap();
    let (token, _) = app.login("a@b.com", "password123").unwrap();
    let token = token.unwrap();
    assert!(verify_token(&app.banned, SECRET, &token).is_ok());
    logout(&mut app.banned, SECRET, Some(&token)).unwrap();
    assert!(app.banned.is_token_banned(&token).unwrap());
    assert_eq!(verify_token(&app.banned, SECRET, &token), Err(AuthAPIError::InvalidToken));
}

#[test]
fn decisions_on_checked_tokens() {
    let mut banned = HashsetBannedTokenStore::new();
    assert_eq!(logout_validated(&mut banned, "t", false), Err(AuthAPIError::InvalidToken));
    assert!(!banned.is_token_banned("t").unwrap());
    assert_eq!(verify_token_validated(&banned, "t", true), Ok(()));
    assert_eq!(verify_token_validated(&banned, "t", false), Err(AuthAPIError::InvalidToken));
    assert_eq!(logout_validated(&mut banned, "t", true), Ok(()));
    assert_eq!(verify_token_validated(&banned, "t", true), Err(AuthAPIError::InvalidToken));
}

/// A challenge store whose backend is down.
struct UnreachableCodes;

impl TwoFACodeStore for UnreachableCodes {
    fn add_code(&mut self, _: &Email, _: TwoFACode, _: LoginAttemptId) -> Result<(), TwoFACodeStoreError> {
        Err(TwoFACodeStoreError::UnexpectedError("down".to_owned()))
    }

    fn get_code(&self, _: &Email) -> Result<(TwoFACode, LoginAttemptId), TwoFACodeStoreError> {
        Err(TwoFACodeStoreError::UnexpectedError("down".to_owned()))
    }

    fn remove_code(&mut self, _: &Email) -> Result<(), TwoFACodeStoreError> {
        Err(TwoFACodeStoreError::UnexpectedError("down".to_owned()))
    }
}

#[test]
fn challenge_backend_failure_is_unexpected() {
    let mut codes = UnreachableCodes;
    let request = Verify2FARequest {
        email: "a@b.com".to_owned(),
        login_attempt_id: LoginAttemptId::new().as_ref().to_owned(),
        two_fa_code: "123456".to_owned(),
    };
    assert_eq!(verify_2fa(&mut codes, SECRET, request), Err(AuthAPIError::UnexpectedError));
}

#[test]
fn login_reports_a_challenge_store_failure() {
    let mut users = HashmapUserStore::new();
    let mut codes = UnreachableCodes;
    let mut mail = MockEmailClient::new();
    let request = SignupRequest { email: "a@b.com".to_owned(), password: "password123".to_owned(), requires_2fa: true };
    signup(&mut users, request).unwrap();
    let request = LoginRequest { email: "a@b.com".to_owned(), password: "password123".to_owned() };
    let result = login(&users, &mut codes, &mut mail, SECRET, request);
    assert!(matches!(result, Err(AuthAPIError::UnexpectedError)));
    assert_eq!(mail.sent().len(), 0);
}
