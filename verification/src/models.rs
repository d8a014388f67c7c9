//! The records of the CRM: customers, their notes and the users who sign in.
//! Identifiers are held as the 128-bit value of their UUID and timestamps as
//! microseconds since the Unix epoch (UTC).
use vstd::prelude::*;

use argon2::password_hash::{PasswordHasher, PasswordVerifier};

use crate::status::{status_label, status_label_of};

verus! {

/// A customer record.
pub struct Customer {
    pub id: u128,
    pub name: String,
    pub email: Option<String>,
    pub phone: Option<String>,
    pub website: Option<String>,
    pub city: Option<String>,
    pub state: Option<String>,
    pub industry: Option<String>,
    pub status: String,
    pub needs_review: bool,
    pub review_reason: Option<String>,
    pub created_at: i64,
    pub updated_at: i64,
}

/// The fields of a customer to be created; the status starts as `new`.
pub struct CreateCustomer {
    pub name: String,
    pub email: Option<String>,
    pub phone: Option<String>,
    pub website: Option<String>,
    pub city: Option<String>,
    pub state: Option<String>,
    pub industry: Option<String>,
}

/// The fields of a customer to change; `None` keeps the stored value.
pub struct UpdateCustomer {
    pub name: Option<String>,
    pub email: Option<String>,
    pub phone: Option<String>,
    pub website: Option<String>,
    pub city: Option<String>,
    pub state: Option<String>,
    pub industry: Option<String>,
    pub status: Option<String>,
}

/// How many customers have a given status.
pub struct StatusCount {
    pub status: String,
    pub count: i64,
}

/// A dated note about a customer.
pub struct CustomerNote {
    pub id: u128,
    pub customer_id: u128,
    pub body: String,
    pub created_at: i64,
}

/// The text of a note to be added.
pub struct CreateCustomerNote {
    pub body: String,
}

/// An account that can sign in.
pub struct User {
    pub id: u128,
    pub email: String,
    pub password_hash: String,
    pub name: String,
    pub created_at: i64,
    pub updated_at: i64,
}

/// The fields of an account to be created.
pub struct CreateUser {
    pub email: String,
    pub password: String,
    pub name: String,
}

impl UpdateCustomer {
    /// A change of the status alone.
    pub fn status_only(status: String) -> (r: UpdateCustomer)
        ensures
            r.status == Some(status),
            r.name is None,
            r.email is None,
            r.phone is None,
            r.website is None,
            r.city is None,
            r.state is None,
            r.industry is None,
    {
        UpdateCustomer {
            name: None,
            email: None,
            phone: None,
            website: None,
            city: None,
            state: None,
            industry: None,
            status: Some(status),
        }
    }
}

impl Customer {
    /// The display label of the customer's status.
    pub fn get_status_label(&self) -> (r: &'static str)
        ensures
            r@ == status_label_of(self.status@),
    {
        status_label(self.status.as_str())
    }
}

/// The pattern that a customer search matches against: the query between `%` wildcards.
pub fn search_pattern(query: &str) -> (r: String)
    ensures
        r@ == seq!['%'] + query@ + seq!['%'],
{
    let mut r = String::new();
    crate::text::push_char(&mut r, '%');
    r.append(query);
    crate::text::push_char(&mut r, '%');
    r
}

// ---------------------------------------------------------------------------
// Passwords (the `argon2` crate)
// ---------------------------------------------------------------------------

/// What checking `password` against the stored `hash` gives with Argon2's
/// default parameters: `None` when `hash` is not a PHC hash string, else
/// whether the password verifies.
pub uninterp spec fn argon2_verdict(hash: Seq<char>, password: Seq<char>) -> Option<bool>;

/// Parses `hash` with `PasswordHash::new` and, when it parses, checks `password`
/// against it with `Argon2::default().verify_password`; the result is named, not stated.
#[verifier::external_body]
fn argon2_check(hash: &str, password: &str) -> (r: Option<bool>)
    ensures
        r == argon2_verdict(hash@, password@),
{
    match argon2::PasswordHash::new(hash) {
        Ok(parsed) => Some(argon2::Argon2::default().verify_password(password.as_bytes(), &parsed).is_ok()),
        Err(_) => None,
    }
}

/// The number of bytes of `s` in UTF-8 (what `str::as_bytes` hands to argon2).
pub open spec fn byte_len(s: Seq<char>) -> nat {
    vstd::utf8::encode_utf8(s).len()
}

/// The longest password, in bytes, that argon2 hashes (`argon2::MAX_PWD_LEN`).
pub open spec fn max_password_bytes() -> nat {
    0xFFFF_FFFF
}

/// Hashes `password` with `Argon2::default().hash_password` and a salt drawn by
/// `argon2::password_hash::SaltString::generate` from the operating system's random source. The hash
/// depends on that salt, so nothing names it; what the contract states is that a
/// hash it returns verifies the same password (as argon2's documentation shows).
/// With the default parameters and a generated salt, argon2's source refuses only
/// a password longer than `MAX_PWD_LEN` bytes (`Error::PwdTooLong`, which becomes
/// `password_hash::Error::Password`, shown as "invalid password"); that text is
/// what it returns then. A failure of the random source panics inside
/// `SaltString::generate`; nothing here states that.
#[verifier::external_body]
fn argon2_hash(password: &str) -> (r: Result<String, String>)
    ensures
        r is Ok <==> byte_len(password@) <= max_password_bytes(),
        r matches Ok(h) ==> argon2_verdict(h@, password@) == Some(true),
        r matches Err(m) ==> m@ == "invalid password"@,
{
    let salt = argon2::password_hash::SaltString::generate(&mut rand::rngs::OsRng);
    match argon2::Argon2::default().hash_password(password.as_bytes(), &salt) {
        Ok(hash) => Ok(hash.to_string()),
        Err(e) => Err(e.to_string()),
    }
}

/// Whether `password` is the one that `hash` was made from.
pub open spec fn password_matches(hash: Seq<char>, password: Seq<char>) -> bool {
    argon2_verdict(hash, password) == Some(true)
}

/// A password could not be hashed; `message` says why.
pub struct PasswordHashError {
    pub message: String,
}

impl User {
    /// Whether `password` is this user's password (false when the stored hash is unreadable).
    pub fn verify_password(&self, password: &str) -> (r: bool)
        ensures
            r == password_matches(self.password_hash@, password@),
    {
        match argon2_check(self.password_hash.as_str(), password) {
            Some(ok) => ok,
            None => false,
        }
    }
}

/// A salted hash of `password` to store in place of it. It succeeds on every
/// password of at most `max_password_bytes()` bytes, and a hash it returns
/// verifies that same password; a longer one is refused as an invalid password.
pub fn hash_password(password: &str) -> (r: Result<String, PasswordHashError>)
    ensures
        r is Ok <==> byte_len(password@) <= max_password_bytes(),
        r matches Ok(h) ==> password_matches(h@, password@),
        r matches Err(e) ==> e.message@ == "invalid password"@,
{
    match argon2_hash(password) {
        Ok(h) => Ok(h),
        Err(message) => Err(PasswordHashError { message }),
    }
}

} // verus!
