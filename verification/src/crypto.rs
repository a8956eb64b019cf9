//! Sealing a passfile's text with the user's password, and opening it again.
//!
//! A passfile on disk is its JSON text encrypted with AES-256 in CBC mode,
//! under the SHA-256 digest of the password and a zero IV, with PKCS#7
//! padding, written out in standard Base64; the `magic_crypt` crate does the
//! cipher work.

use vstd::prelude::*;

use magic_crypt::{MagicCrypt256, MagicCryptError, MagicCryptTrait};

verus! {

/// `magic_crypt::MagicCryptError`, carried through opaque.
#[verifier::external_type_specification]
#[verifier::external_body]
pub struct ExMagicCryptError(MagicCryptError);

/// The Base64 text that `MagicCrypt256` keyed with `password` and no IV
/// makes of `plain`.
pub uninterp spec fn magic_encrypt(password: Seq<char>, plain: Seq<char>) -> Seq<char>;

/// The text that `MagicCrypt256` keyed with `password` and no IV reads out
/// of the Base64 text `sealed`, or `None` where it fails (the text is not
/// Base64, the padding is wrong, or the bytes are not UTF-8).
pub uninterp spec fn magic_decrypt(password: Seq<char>, sealed: Seq<char>) -> Option<Seq<char>>;

/// Calls `MagicCrypt256::new(password, None)` and then
/// `MagicCryptTrait::encrypt_str_to_base64`. Trusted: the result is the
/// named function of the two texts, and decrypting it under the same
/// password gives `plain` back, as the crate's documentation shows.
#[verifier::external_body]
fn encrypt_with(password: &str, plain: &str) -> (r: String)
    ensures
        r@ == magic_encrypt(password@, plain@),
        magic_decrypt(password@, r@) == Some(plain@),
{
    MagicCrypt256::new(password, None::<String>).encrypt_str_to_base64(plain)
}

/// Calls `MagicCrypt256::new(password, None)` and then
/// `MagicCryptTrait::decrypt_base64_to_string`. Trusted: it succeeds
/// exactly where the named function gives a text, and then with that text.
#[verifier::external_body]
fn decrypt_with(password: &str, sealed: &str) -> (r: Result<String, MagicCryptError>)
    ensures
        r is Ok <==> magic_decrypt(password@, sealed@) is Some,
        r matches Ok(p) ==> magic_decrypt(password@, sealed@) == Some(p@),
{
    MagicCrypt256::new(password, None::<String>).decrypt_base64_to_string(sealed)
}

/// Why a passfile could not be opened.
#[derive(PartialEq, Eq, Structural, Debug)]
pub enum VaultError {
    /// The password is wrong or the file is damaged.
    Undecryptable,
}

/// What opening `sealed` with `password` gives.
pub open spec fn unsealed(password: Seq<char>, sealed: Seq<char>) -> Option<Seq<char>> {
    magic_decrypt(password, sealed)
}

/// The passfile text sealed with `password`.
pub fn seal(password: &str, plain: &str) -> (r: String)
    ensures
        r@ == magic_encrypt(password@, plain@),
        unsealed(password@, r@) == Some(plain@),
{
    encrypt_with(password, plain)
}

/// The library's reading of what the cipher gave back.
pub fn vault_result(r: Result<String, MagicCryptError>) -> (v: Result<String, VaultError>)
    ensures
        match r {
            Ok(p) => v == Ok::<String, VaultError>(p),
            Err(_) => v == Err::<String, VaultError>(VaultError::Undecryptable),
        },
{
    match r {
        Ok(p) => Ok(p),
        Err(_) => Err(VaultError::Undecryptable),
    }
}

/// The passfile text inside `sealed`, opened with `password`.
pub fn unseal(password: &str, sealed: &str) -> (r: Result<String, VaultError>)
    ensures
        match unsealed(password@, sealed@) {
            Some(p) => r matches Ok(t) && t@ == p,
            None => r == Err::<String, VaultError>(VaultError::Undecryptable),
        },
{
    vault_result(decrypt_with(password, sealed))
}

} // verus!
