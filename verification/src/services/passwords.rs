//! Password hashing and checking with Argon2.
use vstd::prelude::*;

verus! {

/// The error type of the `password-hash` crate that `argon2` re-exports.
#[verifier::external_type_specification]
#[verifier::external_body]
pub struct ExPasswordHashError(argon2::password_hash::Error);

/// Name for what parsing `hash` with `argon2::PasswordHash::new` and then
/// checking `password` against it with `PasswordVerifier::verify_password`
/// of the default `Argon2` answers: `true` when the hash parses and the
/// password verifies.
pub uninterp spec fn argon2_accepts(password: Seq<u8>, hash: Seq<char>) -> bool;

/// Name for the PHC string that `PasswordHasher::hash_password` of the
/// default `Argon2` (no secret, default algorithm, version and parameters)
/// renders for `password` under the salt whose bytes are `salt`.
pub uninterp spec fn argon2_phc_hash(password: Seq<u8>, salt: Seq<u8>) -> Seq<char>;

/// Number of random bytes in a password salt: the length the
/// `password-hash` crate recommends (`Salt::RECOMMENDED_LENGTH`), which is
/// what `SaltString::generate` draws.
pub const SALT_LEN: usize = 16;

/// Fills `len` bytes from the operating system's generator with
/// `rand_core::RngCore::fill_bytes` on `rand_core::OsRng`. The bytes are
/// random; only their number is claimed. `OsRng` panics when the operating
/// system cannot supply random bytes, a failure of the environment that no
/// input causes and that is left aside here.
#[verifier::external_body]
pub(crate) fn random_bytes(len: usize) -> (bytes: Vec<u8>)
    ensures
        bytes@.len() == len,
{
    let mut bytes = vec![0u8; len];
    rand_core::RngCore::fill_bytes(&mut rand_core::OsRng, &mut bytes);
    bytes
}

/// Hashes `password` with `PasswordHasher::hash_password` of the default
/// `Argon2`, under the salt whose bytes are `salt` (handed to the crate as
/// `SaltString::encode_b64(salt)`), and renders the hash as its PHC string
/// (`PasswordHash::to_string`). The string is `argon2_phc_hash` of the
/// password and the salt. Moreover, as the crates' sources show: the
/// default `Argon2` verifies `password` against a hash it produced; the B64
/// form of at most 48 bytes fits a `SaltString`, and `Argon2` refuses only
/// passwords over `MAX_PWD_LEN` (`0xFFFFFFFF`) bytes and salts under
/// `MIN_SALT_LEN` (8) bytes, its default parameters and output length being
/// valid, so hashing succeeds within those bounds. Otherwise the crate's
/// error is handed back. A salt of fewer than 3 bytes encodes to fewer than
/// the 4 characters a `Salt` needs, and the crate panics turning such a
/// `SaltString` into a `Salt` (`requires`).
#[verifier::external_body]
pub(crate) fn hash_password(password: &[u8], salt: &[u8]) -> (r: Result<
    String,
    argon2::password_hash::Error,
>)
    requires
        salt@.len() >= 3,
    ensures
        r matches Ok(hash) ==> hash@ == argon2_phc_hash(password@, salt@),
        r matches Ok(hash) ==> argon2_accepts(password@, hash@),
        password@.len() <= 0xFFFF_FFFF && 8 <= salt@.len() <= 48 ==> r is Ok,
{
    match argon2::password_hash::SaltString::encode_b64(salt) {
        Ok(salt) => match argon2::PasswordHasher::hash_password(
            &argon2::Argon2::default(),
            password,
            &salt,
        ) {
            Ok(hash) => Ok(hash.to_string()),
            Err(e) => Err(e),
        },
        Err(e) => Err(e),
    }
}

/// Parses `hash` with `argon2::PasswordHash::new` and checks `password`
/// against it with `PasswordVerifier::verify_password` of the default
/// `Argon2`: `true` when both succeed. The result is `argon2_accepts` of the
/// password's bytes and the hash string.
#[verifier::external_body]
pub(crate) fn verify_password(password: &[u8], hash: &str) -> (b: bool)
    ensures
        b == argon2_accepts(password@, hash@),
{
    match argon2::PasswordHash::new(hash) {
        Ok(parsed) => argon2::PasswordVerifier::verify_password(
            &argon2::Argon2::default(),
            password,
            &parsed,
        ).is_ok(),
        Err(_) => false,
    }
}

} // verus!
