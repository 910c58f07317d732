//! Hexadecimal field-element parsing and exact decimal rendering.
//!
//! Fee values travel as `0x`-prefixed hexadecimal strings and are held as
//! unsigned 128-bit integers; aggregates are rendered as decimal strings
//! scaled by 1e18 in pure integer arithmetic, never through floating point.

use vstd::prelude::*;
use vstd::string::*;

verus! {

/// One token in wei: the scale applied when rendering fee aggregates.
pub const FEE_SCALE: u128 = 1_000_000_000_000_000_000;

/// `c` is an ASCII hexadecimal digit.
pub open spec fn is_hex_digit(c: char) -> bool {
    (48 <= c as u32 && c as u32 <= 57)  // '0'..='9'
    || (97 <= c as u32 && c as u32 <= 102)  // 'a'..='f'
    || (65 <= c as u32 && c as u32 <= 70)  // 'A'..='F'
}

/// Numeric value of an ASCII hexadecimal digit.
pub open spec fn hex_digit_value(c: char) -> nat {
    if 48 <= c as u32 && c as u32 <= 57 {
        (c as u32 - 48) as nat
    } else if 97 <= c as u32 && c as u32 <= 102 {
        (c as u32 - 87) as nat
    } else {
        (c as u32 - 55) as nat
    }
}

pub open spec fn all_hex_digits(s: Seq<char>) -> bool {
    forall|i: int| 0 <= i < s.len() ==> is_hex_digit(#[trigger] s[i])
}

/// Value of a run of hexadecimal digits, most significant digit first.
pub open spec fn hex_value(s: Seq<char>) -> nat
    decreases s.len(),
{
    if s.len() == 0 {
        0
    } else {
        hex_value(s.drop_last()) * 16 + hex_digit_value(s.last())
    }
}

/// The text with every leading `0x` pair removed, exactly as
/// `str::trim_start_matches("0x")` leaves it.
pub open spec fn strip_hex_prefixes(s: Seq<char>) -> Seq<char>
    decreases s.len(),
{
    if s.len() >= 2 && s[0] == '0' && s[1] == 'x' {
        strip_hex_prefixes(s.skip(2))
    } else {
        s
    }
}

/// The 128-bit value denoted by `s` after stripping leading `0x` pairs:
/// `Some` exactly when at least one digit remains, every remaining character
/// is a hexadecimal digit, and the value fits in 128 bits.
pub open spec fn hex_u128(s: Seq<char>) -> Option<u128> {
    let t = strip_hex_prefixes(s);
    if t.len() > 0 && all_hex_digits(t) && hex_value(t) <= u128::MAX {
        Some(hex_value(t) as u128)
    } else {
        None
    }
}

/// As `hex_u128`, further requiring the value to fit in 64 bits.
pub open spec fn hex_u64(s: Seq<char>) -> Option<u64> {
    match hex_u128(s) {
        Some(v) => if v <= u64::MAX as u128 {
            Some(v as u64)
        } else {
            None
        },
        None => None,
    }
}

/// A digit run's value only grows as more digits are appended.
proof fn lemma_hex_value_prefix(t: Seq<char>, j: int)
    requires
        0 <= j <= t.len(),
    ensures
        hex_value(t.take(j)) <= hex_value(t),
    decreases t.len() - j,
{
    if j == t.len() {
        assert(t.take(j) =~= t);
    } else {
        assert(t.take(j + 1).drop_last() =~= t.take(j));
        assert(t.take(j + 1).last() == t[j]);
        assert(hex_value(t.take(j)) <= hex_value(t.take(j + 1)));
        lemma_hex_value_prefix(t, j + 1);
    }
}

/// Parses a hexadecimal string: strips every leading `0x` pair, then
/// accepts exactly a nonempty run of hexadecimal digits — deliberately no
/// sign — returning `None` on an empty run, any other character, or
/// 128-bit overflow.
pub fn parse_hex_u128(s: &str) -> (r: Option<u128>)
    ensures
        r == hex_u128(s@),
{
    let n = s.unicode_len();
    let mut start: usize = 0;
    proof {
        assert(s@.skip(0) =~= s@);
    }
    while start < n && start + 1 < n && s.get_char(start) == '0' && s.get_char(start + 1) == 'x'
        invariant
            n == s@.len(),
            start <= n,
            strip_hex_prefixes(s@) == strip_hex_prefixes(s@.skip(start as int)),
        decreases n - start,
    {
        proof {
            assert(s@.skip(start as int)[0] == s@[start as int]);
            assert(s@.skip(start as int)[1] == s@[start as int + 1]);
            assert(s@.skip(start as int).skip(2) =~= s@.skip(start as int + 2));
        }
        start = start + 2;
    }
    proof {
        if start < n {
            assert(s@.skip(start as int)[0] == s@[start as int]);
            if start + 1 < n {
                assert(s@.skip(start as int)[1] == s@[start as int + 1]);
            }
        }
        assert(strip_hex_prefixes(s@) == s@.skip(start as int));
    }
    if start == n {
        return None;
    }
    let ghost t = s@.skip(start as int);
    let mut v: u128 = 0;
    let mut i: usize = start;
    while i < n
        invariant
            n == s@.len(),
            start <= i <= n,
            start < n,
            t == s@.skip(start as int),
            t == strip_hex_prefixes(s@),
            t.len() == n - start,
            all_hex_digits(t.take(i - start)),
            v == hex_value(t.take(i - start)),
        decreases n - i,
    {
        let c = s.get_char(i);
        proof {
            assert(t[i - start] == s@[i as int]);
        }
        let u = c as u32;
        let d: u128;
        if 48 <= u && u <= 57 {
            d = (u - 48) as u128;
        } else if 97 <= u && u <= 102 {
            d = (u - 87) as u128;
        } else if 65 <= u && u <= 70 {
            d = (u - 55) as u128;
        } else {
            proof {
                assert(!is_hex_digit(t[i - start]));
            }
            return None;
        }
        proof {
            assert(d == hex_digit_value(t[i - start]));
            assert(t.take(i - start + 1).drop_last() =~= t.take(i - start));
            assert(t.take(i - start + 1).last() == t[i - start]);
        }
        if v > (u128::MAX - d) / 16 {
            proof {
                assert(hex_value(t.take(i - start + 1)) > u128::MAX);
                lemma_hex_value_prefix(t, i - start + 1);
            }
            return None;
        }
        v = v * 16 + d;
        i = i + 1;
    }
    proof {
        assert(t.take(n - start) =~= t);
    }
    Some(v)
}

/// As `parse_hex_u128`, further rejecting values that do not fit in 64
/// bits.
pub fn parse_hex_u64(s: &str) -> (r: Option<u64>)
    ensures
        r == hex_u64(s@),
{
    match parse_hex_u128(s) {
        Some(v) => if v <= u64::MAX as u128 {
            Some(v as u64)
        } else {
            None
        },
        None => None,
    }
}

/// The character for a decimal digit.
pub open spec fn dec_digit_char(d: nat) -> char {
    if d == 0 { '0' }
    else if d == 1 { '1' }
    else if d == 2 { '2' }
    else if d == 3 { '3' }
    else if d == 4 { '4' }
    else if d == 5 { '5' }
    else if d == 6 { '6' }
    else if d == 7 { '7' }
    else if d == 8 { '8' }
    else { '9' }
}

/// Decimal rendering of `v` with no leading zeros (just `0` for zero).
pub open spec fn dec_string(v: nat) -> Seq<char>
    decreases v,
{
    if v < 10 {
        seq![dec_digit_char(v)]
    } else {
        dec_string(v / 10) + seq![dec_digit_char(v % 10)]
    }
}

/// Decimal rendering of `v mod 10^width`, zero-padded to exactly `width`
/// characters.
pub open spec fn dec_string_pad(v: nat, width: nat) -> Seq<char>
    decreases width,
{
    if width == 0 {
        Seq::empty()
    } else {
        dec_string_pad(v / 10, (width - 1) as nat) + seq![dec_digit_char(v % 10)]
    }
}

pub open spec fn pow10(k: nat) -> nat
    decreases k,
{
    if k == 0 {
        1
    } else {
        10 * pow10((k - 1) as nat)
    }
}

proof fn lemma_pow10_monotone(a: nat, b: nat)
    requires
        a <= b,
    ensures
        pow10(a) <= pow10(b),
        pow10(a) >= 1,
    decreases b,
{
    if a < b {
        lemma_pow10_monotone(a, (b - 1) as nat);
    } else if b > 0 {
        lemma_pow10_monotone(if a > 0 { (a - 1) as nat } else { 0 }, (b - 1) as nat);
    }
}

proof fn lemma_pow10_18()
    ensures
        pow10(18) == FEE_SCALE,
{
    reveal_with_fuel(pow10, 20);
}

/// Relies on `String::push`: appends exactly the given character.
#[verifier::external_body]
fn push_char(s: &mut String, c: char)
    ensures
        final(s)@ == old(s)@ + seq![c],
{
    s.push(c);
}

fn digit_char(d: u8) -> (c: char)
    requires
        d < 10,
    ensures
        c == dec_digit_char(d as nat),
{
    match d {
        0 => '0',
        1 => '1',
        2 => '2',
        3 => '3',
        4 => '4',
        5 => '5',
        6 => '6',
        7 => '7',
        8 => '8',
        _ => '9',
    }
}

/// Renders `v` in decimal, as `u128`'s `Display` does.
pub fn dec_of_u128(v: u128) -> (r: String)
    ensures
        r@ == dec_string(v as nat),
    decreases v,
{
    let d = (v % 10) as u8;
    if v < 10 {
        let mut s = String::new();
        push_char(&mut s, digit_char(d));
        proof {
            assert(s@ =~= dec_string(v as nat));
        }
        s
    } else {
        let mut s = dec_of_u128(v / 10);
        push_char(&mut s, digit_char(d));
        proof {
            assert(s@ =~= dec_string(v as nat));
        }
        s
    }
}

/// Renders the low `width` decimal digits of `v`, zero-padded.
pub fn dec_pad_of_u128(v: u128, width: usize) -> (r: String)
    ensures
        r@ == dec_string_pad(v as nat, width as nat),
    decreases width,
{
    if width == 0 {
        let s = String::new();
        proof {
            assert(s@ =~= dec_string_pad(v as nat, width as nat));
        }
        s
    } else {
        let mut s = dec_pad_of_u128(v / 10, width - 1);
        push_char(&mut s, digit_char((v % 10) as u8));
        proof {
            assert(s@ =~= dec_string_pad(v as nat, width as nat));
        }
        s
    }
}

fn pow10_u128(k: usize) -> (r: u128)
    requires
        k <= 18,
    ensures
        r as nat == pow10(k as nat),
    decreases k,
{
    proof {
        lemma_pow10_monotone(k as nat, 18);
        lemma_pow10_18();
    }
    if k == 0 {
        1
    } else {
        let p = pow10_u128(k - 1);
        proof {
            lemma_pow10_monotone((k - 1) as nat, 18);
            lemma_pow10_18();
        }
        10 * p
    }
}

/// Decimal rendering of `v` wei as whole tokens: the integer part, a dot,
/// then the top `width` digits of the 18-digit fraction, truncated.
pub open spec fn scaled_fee_string(v: nat, width: nat) -> Seq<char> {
    dec_string(v / (FEE_SCALE as nat)) + seq!['.']
        + dec_string_pad((v % (FEE_SCALE as nat)) / pow10((18 - width) as nat), width)
}

/// Renders a wei amount scaled by 1e18 with `width` fractional digits,
/// entirely in integer arithmetic.
pub fn format_scaled_fee(v: u128, width: usize) -> (r: String)
    requires
        1 <= width <= 18,
    ensures
        r@ == scaled_fee_string(v as nat, width as nat),
{
    let int_part = v / FEE_SCALE;
    let frac = v % FEE_SCALE;
    let divisor = pow10_u128(18 - width);
    proof {
        lemma_pow10_monotone(0, (18 - width) as nat);
    }
    let scaled = frac / divisor;
    let mut s = dec_of_u128(int_part);
    push_char(&mut s, '.');
    let tail = dec_pad_of_u128(scaled, width);
    s.append(tail.as_str());
    proof {
        assert(s@ =~= scaled_fee_string(v as nat, width as nat));
    }
    s
}

} // verus!
