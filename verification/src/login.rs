//! Login verification: the stored password hash is fetched outside
//! (it lives in a database); the decision on it is made here, with the
//! hash comparison delegated to bcrypt.

use vstd::prelude::*;

verus! {

/// Whether the password matches the bcrypt hash — a function of the
/// two texts alone — or nothing, when the hash is malformed.
pub uninterp spec fn bcrypt_matches(password: Seq<char>, hash: Seq<char>) -> Option<bool>;

/// Relies on bcrypt::verify: checks the password against the stored
/// hash; the result depends on the two arguments alone.
#[verifier::external_body]
fn verify_password(password: &str, hash: &str) -> (r: Option<bool>)
    ensures
        r == bcrypt_matches(password@, hash@),
{
    match bcrypt::verify(password, hash) {
        Ok(b) => Some(b),
        Err(_) => None,
    }
}

/// Decides a login attempt once the user's stored hash was looked up:
/// no row means an unknown user, a malformed hash is reported as such,
/// and otherwise bcrypt's verdict decides.
pub fn verify_user_credentials(username: &str, password: &str, stored_hash: Option<String>)
    -> (r: Result<String, String>)
    ensures
        match stored_hash {
            None => r matches Err(m) && m@ == "User not found"@,
            Some(h) => match bcrypt_matches(password@, h@) {
                None => r matches Err(m) && m@ == "Invalid password hash"@,
                Some(true) => r matches Ok(u) && u@ == username@,
                Some(false) => r matches Err(m) && m@ == "Invalid credentials"@,
            },
        },
{
    let hash = match stored_hash {
        Some(h) => h,
        None => {
            return Err("User not found".to_owned());
        },
    };
    match verify_password(password, hash.as_str()) {
        None => Err("Invalid password hash".to_owned()),
        Some(true) => Ok(username.to_owned()),
        Some(false) => Err("Invalid credentials".to_owned()),
    }
}

} // verus!
