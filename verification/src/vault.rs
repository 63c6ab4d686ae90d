//! The key of the secret store.
//!
//! The store is unlocked with a key derived from the user's password. The
//! derivation uses a fixed salt, so that the same password opens the same
//! store on every run.

use vstd::prelude::*;
use vstd::string::StringSliceAdditionalSpecFns;
use argon2::password_hash::{PasswordHasher, SaltString};
use argon2::Argon2;

verus! {

/// Why no key could be derived.
#[derive(Clone, Copy, Debug, PartialEq, Eq)]
pub enum KeyError {
    /// The salt cannot be encoded for the hasher.
    InvalidSalt,
    /// The hasher refused its input.
    HashingFailed,
    /// The hasher returned no output.
    OutputMissing,
}

impl KeyError {
    /// A one-line description of the error.
    pub fn message(&self) -> (text: &'static str)
        ensures
            text@ == (match *self {
                KeyError::InvalidSalt => "Invalid salt"@,
                KeyError::HashingFailed => "Failed to hash password"@,
                KeyError::OutputMissing => "Hash output missing"@,
            }),
    {
        match self {
            KeyError::InvalidSalt => "Invalid salt",
            KeyError::HashingFailed => "Failed to hash password",
            KeyError::OutputMissing => "Hash output missing",
        }
    }
}

/// A derived key or the reason there is none, as a mathematical value.
pub open spec fn key_view(key: Result<Vec<u8>, KeyError>) -> Result<Seq<u8>, KeyError> {
    match key {
        Ok(bytes) => Ok(bytes@),
        Err(error) => Err(error),
    }
}

/// The output of Argon2 with the `argon2` crate's default algorithm, version
/// and parameters for `password` and `salt`, or the stage at which the crate
/// refuses them.
pub uninterp spec fn argon2_default_output(password: Seq<u8>, salt: Seq<u8>) -> Result<Seq<u8>, KeyError>;

/// Encodes `salt` with `SaltString::encode_b64`, hashes `password` under it
/// with `Argon2::default().hash_password` and copies the bytes of the hash
/// output.
///
/// Trusted: the hash depends on nothing but the password and the salt, so
/// the result is the value that [`argon2_default_output`] names, and with the
/// default parameters the output is 32 bytes long. A salt of fewer than three
/// bytes is excluded: it encodes to fewer than four characters, and
/// `hash_password` panics when it is handed a salt string that short.
#[verifier::external_body]
fn argon2_default(password: &[u8], salt: &[u8]) -> (key: Result<Vec<u8>, KeyError>)
    requires
        salt@.len() >= 3,
    ensures
        key_view(key) == argon2_default_output(password@, salt@),
        key matches Ok(bytes) ==> bytes@.len() == 32,
{
    let salt = SaltString::encode_b64(salt).map_err(|_| KeyError::InvalidSalt)?;
    let hash = Argon2::default().hash_password(password, &salt).map_err(|_| KeyError::HashingFailed)?;
    hash.hash.map(|output| output.as_bytes().to_vec()).ok_or(KeyError::OutputMissing)
}

/// The salt of the secret store's key: the bytes of `secludia-stronghold`.
pub open spec fn vault_salt() -> Seq<u8> {
    "secludia-stronghold".spec_bytes()
}

/// Derives the key of the secret store from `password`.
///
/// The key is the Argon2 output for the bytes of the password under
/// [`vault_salt`]: it depends on the password alone, and it is 32 bytes long.
pub fn derive_vault_key(password: &str) -> (key: Result<Vec<u8>, KeyError>)
    ensures
        key_view(key) == argon2_default_output(password.spec_bytes(), vault_salt()),
        key matches Ok(bytes) ==> bytes@.len() == 32,
{
    let salt = "secludia-stronghold";
    proof {
        reveal_strlit("secludia-stronghold");
        vstd::string::is_ascii_spec_bytes(salt);
    }
    argon2_default(password.as_bytes(), salt.as_bytes())
}

} // verus!
