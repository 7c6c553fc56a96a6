//! Password hashing with Argon2 in the PHC string format.
use argon2::password_hash::rand_core::OsRng;
use argon2::password_hash::SaltString;
use argon2::{Argon2, PasswordHash, PasswordHasher, PasswordVerifier};
use vstd::prelude::*;
use vstd::utf8::encode_utf8;

verus! {

/// The B64 text (unpadded, as the PHC string format writes salts) that
/// `SaltString::encode_b64` makes of the given salt bytes.
pub uninterp spec fn b64_salt_text(bytes: Seq<u8>) -> Seq<char>;

/// `salt` is the B64 text of some 16 salt bytes.
pub open spec fn is_text_of_16_salt_bytes(salt: Seq<char>) -> bool {
    exists|bytes: Seq<u8>| bytes.len() == 16 && salt == b64_salt_text(bytes)
}

/// The PHC string that Argon2 with its default parameters computes for a
/// password and a B64-encoded salt, or `None` where hashing fails.
pub uninterp spec fn argon2_phc(password: Seq<char>, salt: Seq<char>) -> Option<Seq<char>>;

/// `phc` parses as a password hash in the PHC string format.
pub uninterp spec fn phc_parses(phc: Seq<char>) -> bool;

/// Argon2 accepts `password` for the parsed password hash `phc`.
pub uninterp spec fn argon2_accepts(password: Seq<char>, phc: Seq<char>) -> bool;

/// `password` is the one that `phc` was computed from: the hash parses and
/// Argon2 accepts the password for it.
pub open spec fn password_matches(password: Seq<char>, phc: Seq<char>) -> bool {
    phc_parses(phc) && argon2_accepts(password, phc)
}

/// How a password compares to a stored hash.
#[derive(Clone, Copy, Debug, PartialEq, Eq, Structural)]
pub enum PasswordCheck {
    /// The stored hash is not a PHC string.
    MalformedHash,
    /// The password does not match.
    Mismatch,
    /// The password matches.
    Match,
}

/// `SaltString::generate` from the operating system's random source, as its
/// B64 text. Claimed, as its source shows: the text is `encode_b64` of
/// `Salt::RECOMMENDED_LENGTH` (16) random bytes. Which bytes is left open.
#[verifier::external_body]
pub(crate) fn generate_salt() -> (salt: String)
    ensures
        is_text_of_16_salt_bytes(salt@),
{
    SaltString::generate(&mut OsRng).as_str().to_string()
}

/// `PasswordHasher::hash_password` of `Argon2::default()` on the password's
/// UTF-8 bytes and the salt read by `SaltString::from_b64`, rendered as a PHC
/// string. Claimed: the result is `argon2_phc` of the two arguments (`None`
/// where the salt does not parse or hashing fails), and, as
/// `PasswordVerifier::verify_password` recomputes the hash with the
/// parameters and salt stored in it, a hash made this way parses and accepts
/// the password it was made from. Hashing fails on a password of more than
/// `argon2::MAX_PWD_LEN` (`u32::MAX`) bytes, and succeeds on a shorter one
/// with the B64 text of 16 salt bytes: that text passes `from_b64`'s checks,
/// decodes back to the 16 bytes, which is at least `MIN_SALT_LEN` (8), and
/// the default parameters are valid.
#[verifier::external_body]
pub(crate) fn hash_password(password: &str, salt: &str) -> (phc: Option<String>)
    ensures
        match phc {
            Some(h) => argon2_phc(password@, salt@) == Some(h@),
            None => argon2_phc(password@, salt@) is None,
        },
        phc matches Some(h) ==> phc_parses(h@) && argon2_accepts(password@, h@),
        encode_utf8(password@).len() > u32::MAX ==> phc is None,
        (encode_utf8(password@).len() <= u32::MAX && exists|bytes: Seq<u8>|
            bytes.len() == 16 && salt@ == b64_salt_text(bytes)) ==> phc is Some,
{
    let salt = SaltString::from_b64(salt).ok()?;
    Argon2::default().hash_password(password.as_bytes(), &salt).ok().map(|h| h.to_string())
}

/// `PasswordHash::new` on the stored hash, then
/// `PasswordVerifier::verify_password` of `Argon2::default()` on the
/// password's UTF-8 bytes. Claimed: a hash that does not parse gives
/// `MalformedHash`, and otherwise the answer is `Match` exactly where Argon2
/// accepts the password.
#[verifier::external_body]
pub(crate) fn check_password(password: &str, phc: &str) -> (r: PasswordCheck)
    ensures
        (r == PasswordCheck::MalformedHash) == !phc_parses(phc@),
        (r == PasswordCheck::Match) == (phc_parses(phc@) && argon2_accepts(password@, phc@)),
{
    match PasswordHash::new(phc) {
        Err(_) => PasswordCheck::MalformedHash,
        Ok(hash) => match Argon2::default().verify_password(password.as_bytes(), &hash) {
            Ok(()) => PasswordCheck::Match,
            Err(_) => PasswordCheck::Mismatch,
        },
    }
}

} // verus!
