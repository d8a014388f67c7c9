use fastclient::accounts::{
    check_identity, check_login, check_password, login_error_html, register_error_html,
    require_auth, LoginError, Lookup, RegisterError, RegisterForm, USER_ID_KEY,
};
use fastclient::models::{hash_password, search_pattern, User};

fn user_with_hash(hash: &str) -> User {
    User {
        id: 42,
        email: "a@b.c".to_string(),
        password_hash: hash.to_string(),
        name: "A".to_string(),
        created_at: 0,
        updated_at: 0,
    }
}

fn form(name: &str, email: &str, password: &str, confirmation: &str) -> RegisterForm {
    RegisterForm {
        name: name.to_string(),
        email: email.to_string(),
        password: password.to_string(),
        password_confirmation: confirmation.to_string(),
    }
}

#[test]
fn hashed_password_verifies_and_signs_in() {
    let hash = match hash_password("correct horse") {
        Ok(h) => h,
        Err(e) => panic!("{}", e.message),
    };
    assert!(hash.starts_with("$argon2"));
    assert_ne!(hash, "correct horse");
    let u = user_with_hash(&hash);
    assert!(u.verify_password("correct horse"));
    assert!(!u.verify_password("wrong horse"));
    assert_eq!(check_login(Lookup::Found(user_with_hash(&hash)), "correct horse").ok(), Some(42));
    assert!(matches!(
        check_login(Lookup::Found(user_with_hash(&hash)), "nope"),
        Err(LoginError::WrongPassword)
    ));
}

#[test]
fn unreadable_hash_never_verifies() {
    assert!(!user_with_hash("not a hash").verify_password("not a hash"));
}

#[test]
fn login_failures() {
    assert!(matches!(check_login(Lookup::Missing, "x"), Err(LoginError::UnknownEmail)));
    assert!(matches!(check_login(Lookup::Failed, "x"), Err(LoginError::DatabaseError)));
    assert_eq!(
        login_error_html(&LoginError::UnknownEmail),
        r#"<div class="p-4 bg-red-100 text-red-800">Invalid email or password</div><a href="/login" class="btn btn-primary">Back</a>"#
    );
    assert_eq!(
        login_error_html(&LoginError::SessionError),
        r#"<div class="p-4 bg-red-100 text-red-800">Session error</div><a href="/login">Back</a>"#
    );
}

#[test]
fn registration_identity_checks_in_order() {
    assert!(matches!(check_identity(&form("  ", "", "", "")), Err(RegisterError::NameRequired)));
    assert!(matches!(check_identity(&form("A", " ", "", "")), Err(RegisterError::EmailRequired)));
    assert!(matches!(check_identity(&form("A", "ab.c", "", "")), Err(RegisterError::InvalidEmail)));
    assert!(check_identity(&form("A", "a@b", "", "")).is_ok());
}

#[test]
fn registration_password_checks_in_order() {
    assert!(matches!(check_password(&form("A", "a@b", "", "")), Err(RegisterError::PasswordRequired)));
    assert!(matches!(check_password(&form("A", "a@b", "1234567", "1234567")), Err(RegisterError::PasswordTooShort)));
    // Four characters are too short, though they take eight bytes.
    assert!(matches!(
        check_password(&form("A", "a@b", "\u{e9}\u{e9}\u{e9}\u{e9}", "\u{e9}\u{e9}\u{e9}\u{e9}")),
        Err(RegisterError::PasswordTooShort)
    ));
    let accented = "\u{e9}".repeat(8);
    assert!(check_password(&form("A", "a@b", &accented, &accented)).is_ok());
    assert!(matches!(check_password(&form("A", "a@b", "12345678", "12345679")), Err(RegisterError::PasswordMismatch)));
    assert!(check_password(&form("A", "a@b", "12345678", "12345678")).is_ok());
}

#[test]
fn registration_error_pages() {
    assert_eq!(
        register_error_html(&RegisterError::PasswordTooShort),
        r#"<div class="p-4 bg-red-100 text-red-800">Password must be at least 8 characters</div><a href="/register">Back</a>"#
    );
    assert_eq!(
        register_error_html(&RegisterError::CreateFailed("boom".to_string())),
        r#"<div class="p-4 bg-red-100 text-red-800">Registration error: boom</div><a href="/register">Back</a>"#
    );
    assert_eq!(
        register_error_html(&RegisterError::NameRequired),
        r#"<div class="p-4 bg-red-100 text-red-800">Name is required</div><a href="/register" class="btn btn-primary">Back</a>"#
    );
}

#[test]
fn protected_pages_need_a_session_user() {
    assert_eq!(require_auth(Ok(Some(7))), Ok(7));
    assert_eq!(require_auth(Ok(None)), Err(303));
    assert_eq!(require_auth(Err(())), Err(500));
    assert_eq!(USER_ID_KEY, "user_id");
}

#[test]
fn search_pattern_wraps_in_wildcards() {
    assert_eq!(search_pattern("acme"), "%acme%");
    assert_eq!(search_pattern(""), "%%");
}
