use vstd::prelude::*;

use sha2::Digest;

verus! {

/// An ASCII hexadecimal digit, in either case.
pub open spec fn is_hex_digit(c: char) -> bool {
    ('0' <= c && c <= '9') || ('a' <= c && c <= 'f') || ('A' <= c && c <= 'F')
}

/// The value of an ASCII hexadecimal digit.
pub open spec fn hex_digit_value(c: char) -> int {
    if '0' <= c && c <= '9' {
        (c as int) - ('0' as int)
    } else if 'a' <= c && c <= 'f' {
        (c as int) - ('a' as int) + 10
    } else {
        (c as int) - ('A' as int) + 10
    }
}

/// A text that reads as bytes in hexadecimal: an even number of
/// hexadecimal digits.
pub open spec fn is_hex_text(s: Seq<char>) -> bool {
    &&& s.len() % 2 == 0
    &&& forall|i: int| 0 <= i < s.len() ==> is_hex_digit(#[trigger] s[i])
}

/// The bytes that a hexadecimal text denotes, two digits per byte, the
/// high half first.
pub open spec fn hex_text_bytes(s: Seq<char>) -> Seq<u8> {
    Seq::new(
        s.len() / 2,
        |i: int| (16 * hex_digit_value(s[2 * i]) + hex_digit_value(s[2 * i + 1])) as u8,
    )
}

/// The lower-case hexadecimal digit of a value from 0 to 15.
pub open spec fn lower_hex_char(d: int) -> char {
    if d < 10 {
        (('0' as int) + d) as char
    } else {
        (('a' as int) + d - 10) as char
    }
}

/// The lower-case hexadecimal text of bytes, two digits per byte, the high
/// half first.
pub open spec fn lower_hex_text(bytes: Seq<u8>) -> Seq<char> {
    Seq::new(
        2 * bytes.len(),
        |i: int|
            if i % 2 == 0 {
                lower_hex_char(bytes[i / 2] as int / 16)
            } else {
                lower_hex_char(bytes[i / 2] as int % 16)
            },
    )
}

#[verifier::external_type_specification]
#[verifier::external_body]
pub struct ExFromHexError(hex::FromHexError);

/// Reads bytes written in hexadecimal.
///
/// Trusted: calls `hex::decode`, which fails on a text of odd length or on
/// a character that is not a hexadecimal digit, and otherwise reads two
/// digits (of either case) per byte; the contract states exactly that.
#[verifier::external_body]
pub(crate) fn hex_decode(text: &str) -> (r: Result<Vec<u8>, hex::FromHexError>)
    ensures
        r is Ok <==> is_hex_text(text@),
        r matches Ok(b) ==> b@ == hex_text_bytes(text@),
{
    hex::decode(text)
}

/// Writes bytes in lower-case hexadecimal.
///
/// Trusted: calls `hex::encode`, which writes each byte as two lower-case
/// hexadecimal digits, the high half first; the contract states exactly that.
#[verifier::external_body]
pub(crate) fn hex_encode(bytes: &[u8]) -> (r: String)
    ensures
        r@ == lower_hex_text(bytes@),
{
    hex::encode(bytes)
}

/// The SHA-256 digest of a byte string.
pub uninterp spec fn sha256_digest(data: Seq<u8>) -> Seq<u8>;

/// Computes a SHA-256 digest.
///
/// Trusted: calls `sha2::Sha256::digest`. The contract names the digest
/// (`sha256_digest`, a function of the input alone) and states its length
/// of 32 bytes; the digest itself is not specified.
#[verifier::external_body]
pub(crate) fn sha256(data: &[u8]) -> (r: Vec<u8>)
    ensures
        r@ == sha256_digest(data@),
        r@.len() == 32,
{
    sha2::Sha256::digest(data).to_vec()
}

#[verifier::external_type_specification]
#[verifier::external_body]
pub struct ExBcryptError(bcrypt::BcryptError);

/// The costs that the bcrypt library accepts.
pub open spec fn bcrypt_cost_allowed(cost: u32) -> bool {
    4 <= cost <= 31
}

/// The outward shape of a bcrypt hash: 60 ASCII characters.
pub open spec fn bcrypt_hash_shaped(h: Seq<char>) -> bool {
    &&& h.len() == 60
    &&& forall|i: int| 0 <= i < h.len() ==> (#[trigger] h[i] as int) < 128
}

/// The bcrypt hash (version `2b`) of a password under a cost and a salt.
pub uninterp spec fn bcrypt_salted_hash(password: Seq<char>, cost: u32, salt: Seq<u8>) -> Seq<char>;

/// What checking a password against a stored bcrypt hash gives: `None`
/// where the hash is malformed, else whether the password matches.
pub uninterp spec fn bcrypt_verification(password: Seq<char>, hash: Seq<char>) -> Option<bool>;

/// Hashes a password with bcrypt under a given salt, in version `2b`.
///
/// Trusted: calls `bcrypt::hash_with_salt` and formats the result with
/// `HashParts::format_for_version(Version::TwoB)`. The library fails only
/// on a cost outside 4 to 31; the hash is a function of its arguments, 60
/// ASCII characters long, and checking the password against it succeeds.
/// The hash itself is named (`bcrypt_salted_hash`), not specified.
#[verifier::external_body]
pub(crate) fn bcrypt_hash_with_salt(password: &str, cost: u32, salt: [u8; 16]) -> (r: Result<
    String,
    bcrypt::BcryptError,
>)
    ensures
        r is Ok <==> bcrypt_cost_allowed(cost),
        r matches Ok(h) ==> {
            &&& h@ == bcrypt_salted_hash(password@, cost, salt@)
            &&& bcrypt_hash_shaped(h@)
            &&& bcrypt_verification(password@, h@) == Some(true)
        },
{
    match bcrypt::hash_with_salt(password, cost, salt) {
        Ok(parts) => Ok(parts.format_for_version(bcrypt::Version::TwoB)),
        Err(e) => Err(e),
    }
}

/// Hashes a password with bcrypt under a fresh random salt.
///
/// Trusted: calls `bcrypt::hash`, which draws a 16-byte salt from the
/// operating system and hashes with `hash_with_salt` under it, formatted
/// in version `2b`. It fails on a cost outside 4 to 31 or where no
/// randomness can be had; a hash that it returns is the salted hash of the
/// password under the cost and some salt, 60 ASCII characters long, and
/// checking the password against it succeeds. Which salt was drawn is not
/// stated: it is random.
#[verifier::external_body]
pub(crate) fn bcrypt_hash(password: &str, cost: u32) -> (r: Result<String, bcrypt::BcryptError>)
    ensures
        !bcrypt_cost_allowed(cost) ==> r is Err,
        r matches Ok(h) ==> exists|salt: Seq<u8>|
            salt.len() == 16 && #[trigger] bcrypt_salted_hash(password@, cost, salt) == h@,
        r matches Ok(h) ==> bcrypt_hash_shaped(h@) && bcrypt_verification(password@, h@) == Some(
            true,
        ),
{
    bcrypt::hash(password, cost)
}

/// Checks a password against a stored bcrypt hash.
///
/// Trusted: calls `bcrypt::verify`, whose outcome is a function of its
/// arguments (named `bcrypt_verification`); it fails on any hash that is
/// not 60 ASCII characters long.
#[verifier::external_body]
pub(crate) fn bcrypt_verify(password: &str, hash: &str) -> (r: Result<bool, bcrypt::BcryptError>)
    ensures
        r is Ok <==> bcrypt_verification(password@, hash@) is Some,
        r matches Ok(b) ==> bcrypt_verification(password@, hash@) == Some(b),
        !bcrypt_hash_shaped(hash@) ==> r is Err,
{
    bcrypt::verify(password, hash)
}

} // verus!
