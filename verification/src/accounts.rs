//! Signing in, registering and guarding pages: the decisions the server takes
//! between its reads of the database and of the session.
use vstd::prelude::*;

use crate::models::{password_matches, User};
use crate::text::{chars_of, is_blank, text_has_char, trimmed};

verus! {

/// The session key under which the signed-in user's id is kept.
pub const USER_ID_KEY: &'static str = "user_id";

/// The sign-in form.
pub struct LoginForm {
    pub email: String,
    pub password: String,
}

/// The registration form.
pub struct RegisterForm {
    pub name: String,
    pub email: String,
    pub password: String,
    pub password_confirmation: String,
}

/// What a lookup in the database gave.
pub enum Lookup<T> {
    Found(T),
    Missing,
    Failed,
}

/// HTTP 303 See Other.
pub const SEE_OTHER: u16 = 303;

/// HTTP 500 Internal Server Error.
pub const INTERNAL_SERVER_ERROR: u16 = 500;

/// Whether a protected page may be shown: to the user whose id the session
/// holds; otherwise the status to answer with (500 when the session cannot be
/// read, 303 when nobody is signed in).
pub fn require_auth(session_user: Result<Option<u128>, ()>) -> (r: Result<u128, u16>)
    ensures
        match session_user {
            Ok(Some(id)) => r == Ok::<u128, u16>(id),
            Ok(None) => r == Err::<u128, u16>(SEE_OTHER),
            Err(_) => r == Err::<u128, u16>(INTERNAL_SERVER_ERROR),
        },
{
    match session_user {
        Ok(Some(id)) => Ok(id),
        Ok(None) => Err(SEE_OTHER),
        Err(_) => Err(INTERNAL_SERVER_ERROR),
    }
}

// ---------------------------------------------------------------------------
// Signing in
// ---------------------------------------------------------------------------

/// Why a sign-in failed.
pub enum LoginError {
    /// No account has the e-mail address.
    UnknownEmail,
    /// The database could not be read.
    DatabaseError,
    /// The password is wrong.
    WrongPassword,
    /// The session could not be written.
    SessionError,
}

/// The outcome of a sign-in, given what the lookup by e-mail gave.
pub open spec fn login_outcome(lookup: Lookup<User>, password: Seq<char>) -> Result<u128, LoginError> {
    match lookup {
        Lookup::Found(user) => if password_matches(user.password_hash@, password) {
            Ok(user.id)
        } else {
            Err(LoginError::WrongPassword)
        },
        Lookup::Missing => Err(LoginError::UnknownEmail),
        Lookup::Failed => Err(LoginError::DatabaseError),
    }
}

/// Checks a sign-in against the account found by its e-mail address: the id
/// to keep in the session, or why the sign-in fails.
pub fn check_login(lookup: Lookup<User>, password: &str) -> (r: Result<u128, LoginError>)
    ensures
        r == login_outcome(lookup, password@),
{
    match lookup {
        Lookup::Found(user) => if user.verify_password(password) {
            Ok(user.id)
        } else {
            Err(LoginError::WrongPassword)
        },
        Lookup::Missing => Err(LoginError::UnknownEmail),
        Lookup::Failed => Err(LoginError::DatabaseError),
    }
}

/// The page shown when a sign-in fails.
pub fn login_error_html(e: &LoginError) -> (r: &'static str)
    ensures
        r@ == login_error_text(*e),
{
    match e {
        LoginError::UnknownEmail => LOGIN_UNKNOWN_EMAIL_HTML,
        LoginError::DatabaseError => LOGIN_DATABASE_ERROR_HTML,
        LoginError::WrongPassword => LOGIN_WRONG_PASSWORD_HTML,
        LoginError::SessionError => LOGIN_SESSION_ERROR_HTML,
    }
}

pub const LOGIN_UNKNOWN_EMAIL_HTML: &'static str = r#"<div class="p-4 bg-red-100 text-red-800">Invalid email or password</div><a href="/login" class="btn btn-primary">Back</a>"#;
pub const LOGIN_DATABASE_ERROR_HTML: &'static str = r#"<div class="p-4 bg-red-100 text-red-800">Database error</div><a href="/login">Back</a>"#;
pub const LOGIN_WRONG_PASSWORD_HTML: &'static str = r#"<div class="p-4 bg-red-100 text-red-800">Invalid email or password</div><a href="/login">Back</a>"#;
pub const LOGIN_SESSION_ERROR_HTML: &'static str = r#"<div class="p-4 bg-red-100 text-red-800">Session error</div><a href="/login">Back</a>"#;

/// The page shown for a failed sign-in.
pub open spec fn login_error_text(e: LoginError) -> Seq<char> {
    match e {
        LoginError::UnknownEmail => LOGIN_UNKNOWN_EMAIL_HTML@,
        LoginError::DatabaseError => LOGIN_DATABASE_ERROR_HTML@,
        LoginError::WrongPassword => LOGIN_WRONG_PASSWORD_HTML@,
        LoginError::SessionError => LOGIN_SESSION_ERROR_HTML@,
    }
}

/// A password that was hashed for an account signs that account in.
pub proof fn lemma_hashed_password_signs_in(user: User, password: Seq<char>)
    requires
        password_matches(user.password_hash@, password),
    ensures
        login_outcome(Lookup::Found(user), password) == Ok::<u128, LoginError>(user.id),
{
}

// ---------------------------------------------------------------------------
// Registering
// ---------------------------------------------------------------------------

/// Why a registration is refused.
pub enum RegisterError {
    NameRequired,
    EmailRequired,
    InvalidEmail,
    EmailTaken,
    PasswordRequired,
    PasswordTooShort,
    PasswordMismatch,
    /// The account could not be stored; the text says why.
    CreateFailed(String),
    SessionError,
}

/// The first fault of the name and e-mail address, in the order they are checked.
pub open spec fn identity_fault(form: RegisterForm) -> Option<RegisterError> {
    if trimmed(form.name@).len() == 0 {
        Some(RegisterError::NameRequired)
    } else if trimmed(form.email@).len() == 0 {
        Some(RegisterError::EmailRequired)
    } else if !form.email@.contains('@') {
        Some(RegisterError::InvalidEmail)
    } else {
        None
    }
}

/// The first fault of the password, in the order they are checked.
pub open spec fn password_fault(form: RegisterForm) -> Option<RegisterError> {
    if form.password@.len() == 0 {
        Some(RegisterError::PasswordRequired)
    } else if form.password@.len() < 8 {
        Some(RegisterError::PasswordTooShort)
    } else if form.password@ != form.password_confirmation@ {
        Some(RegisterError::PasswordMismatch)
    } else {
        None
    }
}

/// Checks the name and e-mail address of a registration (before the address
/// is looked up).
pub fn check_identity(form: &RegisterForm) -> (r: Result<(), RegisterError>)
    ensures
        match r {
            Ok(_) => identity_fault(*form) is None,
            Err(e) => identity_fault(*form) == Some(e),
        },
{
    if is_blank(form.name.as_str()) {
        return Err(RegisterError::NameRequired);
    }
    if is_blank(form.email.as_str()) {
        return Err(RegisterError::EmailRequired);
    }
    if !text_has_char(form.email.as_str(), '@') {
        return Err(RegisterError::InvalidEmail);
    }
    Ok(())
}

/// Checks the password of a registration (after the address was found free).
pub fn check_password(form: &RegisterForm) -> (r: Result<(), RegisterError>)
    ensures
        match r {
            Ok(_) => password_fault(*form) is None,
            Err(e) => password_fault(*form) == Some(e),
        },
{
    if form.password.as_str().is_empty() {
        return Err(RegisterError::PasswordRequired);
    }
    if chars_of(form.password.as_str()).len() < 8 {
        return Err(RegisterError::PasswordTooShort);
    }
    if form.password != form.password_confirmation {
        return Err(RegisterError::PasswordMismatch);
    }
    Ok(())
}

/// A registration that passes both checks has a non-blank name, an e-mail
/// address with an `@`, and a confirmed password of at least eight characters.
pub proof fn lemma_accepted_registration(form: RegisterForm)
    requires
        identity_fault(form) is None,
        password_fault(form) is None,
    ensures
        trimmed(form.name@).len() > 0,
        form.email@.contains('@'),
        form.password@.len() >= 8,
        form.password@ == form.password_confirmation@,
{
}

pub const REGISTER_NAME_REQUIRED_HTML: &'static str = r#"<div class="p-4 bg-red-100 text-red-800">Name is required</div><a href="/register" class="btn btn-primary">Back</a>"#;
pub const REGISTER_EMAIL_REQUIRED_HTML: &'static str = r#"<div class="p-4 bg-red-100 text-red-800">Email is required</div><a href="/register">Back</a>"#;
pub const REGISTER_INVALID_EMAIL_HTML: &'static str = r#"<div class="p-4 bg-red-100 text-red-800">Please enter a valid email address</div><a href="/register">Back</a>"#;
pub const REGISTER_EMAIL_TAKEN_HTML: &'static str = r#"<div class="p-4 bg-red-100 text-red-800">This email is already registered</div><a href="/register">Back</a>"#;
pub const REGISTER_PASSWORD_REQUIRED_HTML: &'static str = r#"<div class="p-4 bg-red-100 text-red-800">Password is required</div><a href="/register">Back</a>"#;
pub const REGISTER_PASSWORD_SHORT_HTML: &'static str = r#"<div class="p-4 bg-red-100 text-red-800">Password must be at least 8 characters</div><a href="/register">Back</a>"#;
pub const REGISTER_PASSWORD_MISMATCH_HTML: &'static str = r#"<div class="p-4 bg-red-100 text-red-800">Passwords do not match</div><a href="/register">Back</a>"#;
pub const REGISTER_CREATE_FAILED_OPEN: &'static str = r#"<div class="p-4 bg-red-100 text-red-800">Registration error: "#;
pub const REGISTER_CREATE_FAILED_CLOSE: &'static str = r#"</div><a href="/register">Back</a>"#;
pub const REGISTER_SESSION_ERROR_HTML: &'static str = r#"<div class="p-4 bg-red-100 text-red-800">Session error</div><a href="/register">Back</a>"#;

/// The page shown for a refused registration.
pub open spec fn register_error_text(e: RegisterError) -> Seq<char> {
    match e {
        RegisterError::NameRequired => REGISTER_NAME_REQUIRED_HTML@,
        RegisterError::EmailRequired => REGISTER_EMAIL_REQUIRED_HTML@,
        RegisterError::InvalidEmail => REGISTER_INVALID_EMAIL_HTML@,
        RegisterError::EmailTaken => REGISTER_EMAIL_TAKEN_HTML@,
        RegisterError::PasswordRequired => REGISTER_PASSWORD_REQUIRED_HTML@,
        RegisterError::PasswordTooShort => REGISTER_PASSWORD_SHORT_HTML@,
        RegisterError::PasswordMismatch => REGISTER_PASSWORD_MISMATCH_HTML@,
        RegisterError::CreateFailed(why) => REGISTER_CREATE_FAILED_OPEN@ + why@ + REGISTER_CREATE_FAILED_CLOSE@,
        RegisterError::SessionError => REGISTER_SESSION_ERROR_HTML@,
    }
}

/// The page shown for a refused registration.
pub fn register_error_html(e: &RegisterError) -> (r: String)
    ensures
        r@ == register_error_text(*e),
{
    match e {
        RegisterError::NameRequired => REGISTER_NAME_REQUIRED_HTML.to_owned(),
        RegisterError::EmailRequired => REGISTER_EMAIL_REQUIRED_HTML.to_owned(),
        RegisterError::InvalidEmail => REGISTER_INVALID_EMAIL_HTML.to_owned(),
        RegisterError::EmailTaken => REGISTER_EMAIL_TAKEN_HTML.to_owned(),
        RegisterError::PasswordRequired => REGISTER_PASSWORD_REQUIRED_HTML.to_owned(),
        RegisterError::PasswordTooShort => REGISTER_PASSWORD_SHORT_HTML.to_owned(),
        RegisterError::PasswordMismatch => REGISTER_PASSWORD_MISMATCH_HTML.to_owned(),
        RegisterError::CreateFailed(why) => {
            let mut r = REGISTER_CREATE_FAILED_OPEN.to_owned();
            r.append(why.as_str());
            r.append(REGISTER_CREATE_FAILED_CLOSE);
            r
        },
        RegisterError::SessionError => REGISTER_SESSION_ERROR_HTML.to_owned(),
    }
}

} // verus!
