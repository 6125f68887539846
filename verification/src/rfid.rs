use vstd::prelude::*;

use crate::config::AppConfig;
use crate::crypto::{
    bcrypt_hash_with_salt, bcrypt_salted_hash, hex_decode, hex_encode, hex_text_bytes,
    is_hex_text, lower_hex_text, sha256, sha256_digest,
};
use crate::error::{AppError, InternalError};
use crate::text::push_char;

verus! {

/// The bcrypt cost under which RFID tags are hashed.
pub const RFID_HASH_COST: u32 = 11;

/// The fixed salt of the legacy RFID hash: the bytes of `rv-vakio-suola`.
pub open spec fn legacy_rfid_salt() -> Seq<u8> {
    seq![114u8, 118u8, 45u8, 118u8, 97u8, 107u8, 105u8, 111u8, 45u8, 115u8, 117u8, 111u8, 108u8, 97u8]
}

/// Whether the legacy hash keeps the character at a position of the hex
/// digest: it drops every `0` that stands at an even position.
pub open spec fn legacy_keeps(i: int, c: char) -> bool {
    !(i % 2 == 0 && c == '0')
}

/// A text without the `0` characters that stand at even positions.
pub open spec fn drop_even_zeros(s: Seq<char>) -> Seq<char>
    decreases s.len(),
{
    if s.len() == 0 {
        Seq::empty()
    } else {
        let prev = drop_even_zeros(s.drop_last());
        if legacy_keeps(s.len() - 1, s.last()) {
            prev.push(s.last())
        } else {
            prev
        }
    }
}

/// The legacy hash of an RFID tag written in hexadecimal: the SHA-256
/// digest of the salt followed by the tag's bytes, in lower-case hex, with
/// the zeros at even positions dropped.
pub open spec fn legacy_rfid_hash(rfid_hex: Seq<char>) -> Seq<char> {
    drop_even_zeros(lower_hex_text(sha256_digest(legacy_rfid_salt() + hex_text_bytes(rfid_hex))))
}

/// The current hash of an RFID tag: bcrypt under the configured salt.
pub open spec fn rfid_hash(rfid: Seq<char>, salt: Seq<u8>) -> Seq<char> {
    bcrypt_salted_hash(rfid, RFID_HASH_COST, salt)
}

/// Dropping the zeros at even positions keeps every character at an odd
/// position, so at least half of the text remains.
proof fn lemma_drop_even_zeros_len(s: Seq<char>)
    ensures
        s.len() / 2 <= drop_even_zeros(s).len() <= s.len(),
    decreases s.len(),
{
    if s.len() > 0 {
        lemma_drop_even_zeros_len(s.drop_last());
    }
}

/// Dropping the zeros at even positions works on a text of even length
/// and the text after it separately.
proof fn lemma_drop_even_zeros_append(p: Seq<char>, q: Seq<char>)
    requires
        p.len() % 2 == 0,
    ensures
        drop_even_zeros(p + q) == drop_even_zeros(p) + drop_even_zeros(q),
    decreases q.len(),
{
    if q.len() == 0 {
        assert(p + q =~= p);
        assert(drop_even_zeros(p) + drop_even_zeros(q) =~= drop_even_zeros(p));
    } else {
        let q1 = q.drop_last();
        lemma_drop_even_zeros_append(p, q1);
        assert((p + q).drop_last() =~= p + q1);
        assert((p + q).last() == q.last());
        assert(((p + q).len() - 1) % 2 == (q.len() - 1) % 2);
        if legacy_keeps(q.len() - 1, q.last()) {
            assert(drop_even_zeros(p) + drop_even_zeros(q) =~= (drop_even_zeros(p) + drop_even_zeros(q1)).push(q.last()));
        } else {
            assert(drop_even_zeros(p) + drop_even_zeros(q) =~= drop_even_zeros(p) + drop_even_zeros(q1));
        }
    }
}

/// The legacy hash reads the hex digest two characters at a time from its
/// start: the first character of each pair is dropped where it is `0` (so
/// a digest starting `0b` gives a hash starting `b`), the second is always
/// kept.
pub proof fn lemma_legacy_hash_by_pairs(first: char, second: char, rest: Seq<char>)
    ensures
        drop_even_zeros(seq![first, second] + rest) == (if first == '0' {
            seq![second]
        } else {
            seq![first, second]
        }) + drop_even_zeros(rest),
{
    lemma_drop_even_zeros_append(seq![first, second], rest);
    let pair = seq![first, second];
    assert(pair.drop_last() =~= seq![first]);
    assert(seq![first].drop_last() =~= Seq::<char>::empty());
    assert(drop_even_zeros(Seq::<char>::empty()) =~= Seq::<char>::empty());
    if first == '0' {
        assert(drop_even_zeros(seq![first]) =~= Seq::<char>::empty());
        assert(drop_even_zeros(pair) =~= seq![second]);
    } else {
        assert(drop_even_zeros(seq![first]) =~= seq![first]);
        assert(drop_even_zeros(pair) =~= seq![first, second]);
    }
}

/// Only zeros at even positions are ever dropped: a digest with no `0` at
/// an even position is its own legacy hash.
pub proof fn lemma_legacy_hash_keeps_nonzero_text(s: Seq<char>)
    requires
        forall|i: int| 0 <= i < s.len() && i % 2 == 0 ==> s[i] != '0',
    ensures
        drop_even_zeros(s) == s,
    decreases s.len(),
{
    if s.len() > 0 {
        lemma_legacy_hash_keeps_nonzero_text(s.drop_last());
        assert(s.drop_last().push(s.last()) =~= s);
    }
}

fn drop_zeros_at_even(s: &str) -> (r: String)
    ensures
        r@ == drop_even_zeros(s@),
{
    let n = s.unicode_len();
    let mut r = String::new();
    let mut i: usize = 0;
    while i < n
        invariant
            n == s@.len(),
            i <= n,
            r@ == drop_even_zeros(s@.subrange(0, i as int)),
        decreases n - i,
    {
        let c = s.get_char(i);
        assert(s@.subrange(0, i + 1).drop_last() =~= s@.subrange(0, i as int));
        if !(i % 2 == 0 && c == '0') {
            push_char(&mut r, c);
        }
        i = i + 1;
    }
    assert(s@.subrange(0, n as int) =~= s@);
    r
}

/// The legacy hash of an RFID tag, under which older accounts still store
/// their tag; fails where the tag is not hexadecimal.
pub fn old_rfid_hash(rfid_hex: &str) -> (r: Result<String, AppError>)
    ensures
        r is Ok <==> is_hex_text(rfid_hex@),
        r matches Ok(h) ==> h@ == legacy_rfid_hash(rfid_hex@),
        r matches Ok(h) ==> 32 <= h@.len() <= 64,
        r matches Err(e) ==> e == AppError::Internal(InternalError::InvalidHex),
{
    let rfid_bytes = match hex_decode(rfid_hex) {
        Ok(b) => b,
        Err(_) => return Err(AppError::Internal(InternalError::InvalidHex)),
    };
    let mut data: Vec<u8> = vec![114u8, 118u8, 45u8, 118u8, 97u8, 107u8, 105u8, 111u8, 45u8, 115u8, 117u8, 111u8, 108u8, 97u8];
    assert(data@ =~= legacy_rfid_salt());
    let mut i: usize = 0;
    while i < rfid_bytes.len()
        invariant
            i <= rfid_bytes@.len(),
            data@ == legacy_rfid_salt() + rfid_bytes@.subrange(0, i as int),
        decreases rfid_bytes.len() - i,
    {
        data.push(rfid_bytes[i]);
        assert(legacy_rfid_salt() + rfid_bytes@.subrange(0, i + 1) =~= (legacy_rfid_salt()
            + rfid_bytes@.subrange(0, i as int)).push(rfid_bytes@[i as int]));
        i = i + 1;
    }
    assert(rfid_bytes@.subrange(0, rfid_bytes@.len() as int) =~= rfid_bytes@);
    let digest = sha256(data.as_slice());
    let hex = hex_encode(digest.as_slice());
    proof {
        assert(hex@.len() == 64);
        lemma_drop_even_zeros_len(hex@);
    }
    Ok(drop_zeros_at_even(hex.as_str()))
}

/// The current hash of an RFID tag: bcrypt at cost 11 under the salt of
/// the configuration, in version `2b`. It does not fail.
pub fn new_rfid_hash(rfid_hex: &str, config: &AppConfig) -> (r: Result<String, AppError>)
    ensures
        r matches Ok(h) && h@ == rfid_hash(rfid_hex@, config.rfid_salt@),
{
    match bcrypt_hash_with_salt(rfid_hex, RFID_HASH_COST, config.rfid_salt) {
        Ok(h) => Ok(h),
        Err(_) => Err(AppError::Internal(InternalError::Bcrypt)),
    }
}

} // verus!
