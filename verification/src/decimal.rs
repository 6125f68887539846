use vstd::prelude::*;

use crate::text::{chars_of, push_char};

verus! {

/// An ASCII decimal digit.
pub open spec fn is_digit(c: char) -> bool {
    '0' <= c && c <= '9'
}

/// The value of an ASCII decimal digit.
pub open spec fn digit_value(c: char) -> int {
    (c as int) - ('0' as int)
}

/// The ASCII character of a digit value from 0 to 9.
pub open spec fn digit_char(d: int) -> char {
    (('0' as int) + d) as char
}

pub open spec fn all_digits(s: Seq<char>) -> bool {
    forall|i: int| 0 <= i < s.len() ==> is_digit(#[trigger] s[i])
}

/// The value of a string of decimal digits, most significant first.
pub open spec fn digits_value(s: Seq<char>) -> int
    decreases s.len(),
{
    if s.len() == 0 {
        0
    } else {
        10 * digits_value(s.drop_last()) + digit_value(s.last())
    }
}

/// The value that a text denotes in the syntax that the standard library
/// accepts for integers: an optional sign, then at least one decimal
/// digit, nothing else. A leading `-` is accepted only where `signed` holds.
pub open spec fn integer_text_value(s: Seq<char>, signed: bool) -> Option<int> {
    if s.len() > 0 && (s[0] == '+' || (signed && s[0] == '-')) {
        let body = s.subrange(1, s.len() as int);
        if body.len() > 0 && all_digits(body) {
            if s[0] == '-' {
                Some(-digits_value(body))
            } else {
                Some(digits_value(body))
            }
        } else {
            None
        }
    } else if s.len() > 0 && all_digits(s) {
        Some(digits_value(s))
    } else {
        None
    }
}

/// The integer that a text denotes, where it lies between `lo` and `hi`.
pub open spec fn integer_text_in_range(s: Seq<char>, signed: bool, lo: int, hi: int) -> Option<int> {
    match integer_text_value(s, signed) {
        Some(v) => if lo <= v <= hi { Some(v) } else { None },
        None => None,
    }
}

pub open spec fn parse_u16_spec(s: Seq<char>) -> Option<u16> {
    match integer_text_in_range(s, false, 0, u16::MAX as int) {
        Some(v) => Some(v as u16),
        None => None,
    }
}

pub open spec fn parse_i32_spec(s: Seq<char>) -> Option<i32> {
    match integer_text_in_range(s, true, i32::MIN as int, i32::MAX as int) {
        Some(v) => Some(v as i32),
        None => None,
    }
}

pub open spec fn parse_i64_spec(s: Seq<char>) -> Option<i64> {
    match integer_text_in_range(s, true, i64::MIN as int, i64::MAX as int) {
        Some(v) => Some(v as i64),
        None => None,
    }
}

/// The decimal digits of a natural number, without leading zeros.
pub open spec fn nat_text(n: nat) -> Seq<char>
    decreases n,
{
    if n < 10 {
        seq![digit_char(n as int)]
    } else {
        nat_text(n / 10).push(digit_char((n % 10) as int))
    }
}

/// The decimal text of an integer, with a leading `-` where it is negative.
pub open spec fn int_text(x: int) -> Seq<char> {
    if x < 0 {
        seq!['-'] + nat_text((-x) as nat)
    } else {
        nat_text(x as nat)
    }
}

proof fn lemma_digits_value_nonneg(s: Seq<char>)
    requires
        all_digits(s),
    ensures
        digits_value(s) >= 0,
    decreases s.len(),
{
    if s.len() > 0 {
        lemma_digits_value_nonneg(s.drop_last());
    }
}

/// Extending a string of digits never lowers its value.
proof fn lemma_digits_value_prefix(s: Seq<char>, j: int)
    requires
        all_digits(s),
        0 <= j <= s.len(),
    ensures
        digits_value(s.subrange(0, j)) <= digits_value(s),
    decreases s.len() - j,
{
    if j < s.len() {
        lemma_digits_value_prefix(s, j + 1);
        let t = s.subrange(0, j + 1);
        assert(t.drop_last() =~= s.subrange(0, j));
        lemma_digits_value_nonneg(s.subrange(0, j));
    } else {
        assert(s.subrange(0, j) =~= s);
    }
}

proof fn lemma_nat_text(n: nat)
    ensures
        nat_text(n).len() > 0,
        all_digits(nat_text(n)),
        digits_value(nat_text(n)) == n,
    decreases n,
{
    let d = (n % 10) as int;
    assert(digit_value(digit_char(d)) == d);
    if n >= 10 {
        lemma_nat_text(n / 10);
        let t = nat_text(n);
        assert(t.drop_last() =~= nat_text(n / 10));
        assert(t.last() == digit_char(d));
        assert(n == 10 * (n / 10) + d);
    } else {
        assert(n % 10 == n);
        assert(nat_text(n).drop_last() =~= Seq::<char>::empty());
        assert(nat_text(n).last() == digit_char(n as int));
        assert(digits_value(nat_text(n)) == 10 * digits_value(Seq::<char>::empty()) + digit_value(digit_char(n as int)));
    }
}

/// The decimal text of any integer reads back as that integer.
pub proof fn lemma_int_text_round_trip(x: int)
    ensures
        integer_text_value(int_text(x), true) == Some(x),
{
    lemma_nat_text((if x < 0 { -x } else { x }) as nat);
    if x < 0 {
        let t = int_text(x);
        assert(t.subrange(1, t.len() as int) =~= nat_text((-x) as nat));
    }
}

/// The text that `format_i32` gives for a number is read back by
/// `parse_i32` as the same number.
pub proof fn lemma_i32_text_round_trip(x: i32)
    ensures
        parse_i32_spec(int_text(x as int)) == Some(x),
{
    lemma_int_text_round_trip(x as int);
}

/// Reads an integer in the standard syntax (see `integer_text_value`) and
/// returns it when it lies between `lo` and `hi`.
fn parse_integer(s: &str, signed: bool, lo: i128, hi: i128) -> (r: Option<i128>)
    requires
        lo <= 0 <= hi,
        -lo <= 0x8000_0000_0000_0000,
        hi <= 0x8000_0000_0000_0000,
    ensures
        r matches Some(v) ==> integer_text_in_range(s@, signed, lo as int, hi as int) == Some(v as int),
        r is None ==> integer_text_in_range(s@, signed, lo as int, hi as int) is None,
{
    let cs = chars_of(s);
    let n = cs.len();
    if n == 0 {
        return None;
    }
    let first = cs[0];
    let negative = signed && first == '-';
    let start: usize = if first == '+' || negative { 1 } else { 0 };
    if start == n {
        return None;
    }
    let limit: i128 = if negative { -lo } else { hi };
    let ghost body = s@.subrange(start as int, n as int);
    let mut acc: i128 = 0;
    let mut i: usize = start;
    while i < n
        invariant
            cs@ == s@,
            n == s@.len(),
            first == s@[0],
            negative == (signed && first == '-'),
            start == (if first == '+' || negative { 1usize } else { 0usize }),
            limit == (if negative { -lo } else { hi as int }),
            lo <= 0 <= hi,
            start <= i <= n,
            start < n,
            body == s@.subrange(start as int, n as int),
            0 <= limit <= 0x8000_0000_0000_0000,
            all_digits(s@.subrange(start as int, i as int)),
            acc == digits_value(s@.subrange(start as int, i as int)),
            0 <= acc <= limit,
        decreases n - i,
    {
        let c = cs[i];
        if !('0' <= c && c <= '9') {
            assert(body[i - start] == s@[i as int]);
            assert(!is_digit(body[i - start]));
            assert(!all_digits(body));
            assert(start == 0 ==> body =~= s@);
            assert(integer_text_value(s@, signed) is None);
            return None;
        }
        let d = (c as u32 - '0' as u32) as i128;
        let ghost prev = s@.subrange(start as int, i as int);
        let ghost next = s@.subrange(start as int, i + 1);
        assert(next.drop_last() =~= prev);
        acc = acc * 10 + d;
        if acc > limit {
            proof {
                assert(next =~= body.subrange(0, i + 1 - start));
                assert(start == 0 ==> body =~= s@);
                if all_digits(body) {
                    lemma_digits_value_prefix(body, i + 1 - start);
                    assert(digits_value(body) > limit);
                    assert(integer_text_value(s@, signed) == Some(if negative { -digits_value(body) } else { digits_value(body) }));
                }
                assert(integer_text_in_range(s@, signed, lo as int, hi as int) is None);
            }
            return None;
        }
        i = i + 1;
    }
    assert(s@.subrange(start as int, n as int) =~= body);
    assert(start == 0 ==> body =~= s@);
    assert(all_digits(body));
    assert(acc == digits_value(body));
    if negative {
        Some(-acc)
    } else {
        Some(acc)
    }
}

/// Reads a `u16` as `str::parse::<u16>` does.
pub fn parse_u16(s: &str) -> (r: Option<u16>)
    ensures
        r == parse_u16_spec(s@),
{
    match parse_integer(s, false, 0, 0xffff) {
        Some(v) => Some(v as u16),
        None => None,
    }
}

/// Reads an `i32` as `str::parse::<i32>` does.
pub fn parse_i32(s: &str) -> (r: Option<i32>)
    ensures
        r == parse_i32_spec(s@),
{
    match parse_integer(s, true, -0x8000_0000, 0x7fff_ffff) {
        Some(v) => Some(v as i32),
        None => None,
    }
}

/// Reads an `i64` as `str::parse::<i64>` does.
pub fn parse_i64(s: &str) -> (r: Option<i64>)
    ensures
        r == parse_i64_spec(s@),
{
    match parse_integer(s, true, -0x8000_0000_0000_0000, 0x7fff_ffff_ffff_ffff) {
        Some(v) => Some(v as i64),
        None => None,
    }
}

fn push_nat_text(out: &mut String, n: u64)
    ensures
        final(out)@ == old(out)@ + nat_text(n as nat),
    decreases n,
{
    if n >= 10 {
        push_nat_text(out, n / 10);
    }
    let d = (n % 10) as u8;
    let c = (48u8 + d) as char;
    push_char(out, c);
    assert(old(out)@ + nat_text(n as nat) =~= final(out)@);
}

/// The decimal text of a number, as `i32::to_string` writes it.
pub fn format_i32(x: i32) -> (r: String)
    ensures
        r@ == int_text(x as int),
{
    let mut out = String::new();
    if x < 0 {
        push_char(&mut out, '-');
        let m = (-(x as i64)) as u64;
        push_nat_text(&mut out, m);
    } else {
        push_nat_text(&mut out, x as u64);
    }
    out
}

} // verus!
