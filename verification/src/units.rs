//! Sizes, durations and dates as the reports print them.
//!
//! A byte count is shown the way `format!("{:.1} {}", bytes as f64 / 1024^k, unit)`
//! shows it: the count is first rounded to the nearest `f64` (ties to even),
//! divided by 1024 while it is at least 1024 (up to GB), and printed with one
//! decimal, rounded half to even. All of it is computed here in integers.

use vstd::prelude::*;
use crate::text::{decimal, digit, digit_char, push_char, push_decimal};
use vstd::utf8::{decode_utf8, encode_utf8, is_char_boundary, valid_utf8};

verus! {

broadcast use vstd::string::group_string_axioms;

/// `2^e`.
pub open spec fn pow2(e: nat) -> nat
    decreases e,
{
    if e == 0 {
        1
    } else {
        2 * pow2((e - 1) as nat)
    }
}

/// The number of bits needed to write `n`.
pub open spec fn bit_length(n: nat) -> nat
    decreases n,
{
    if n == 0 {
        0
    } else {
        1 + bit_length(n / 2)
    }
}

/// `n / d` rounded to the nearest integer, ties to the even one.
pub open spec fn round_half_even_div(n: nat, d: nat) -> nat
    recommends
        d > 0,
{
    let q = n / d;
    let r = n % d;
    if 2 * r > d || (2 * r == d && q % 2 == 1) {
        q + 1
    } else {
        q
    }
}

/// The value of `b as f64`: `b` rounded to 53 significant bits, ties to even.
pub open spec fn f64_of(b: nat) -> nat {
    if b < pow2(53) {
        b
    } else {
        let e = (bit_length(b) - 53) as nat;
        round_half_even_div(b, pow2(e)) * pow2(e)
    }
}

/// How often a size is divided by 1024 before it is printed (at most three times, for GB).
pub open spec fn unit_index(r: nat) -> nat {
    if r < 1024 {
        0
    } else if r < 1024 * 1024 {
        1
    } else if r < 1024 * 1024 * 1024 {
        2
    } else {
        3
    }
}

/// The unit after `k` divisions by 1024.
pub open spec fn unit_name(k: nat) -> Seq<char> {
    if k == 0 {
        "B"@
    } else if k == 1 {
        "KB"@
    } else if k == 2 {
        "MB"@
    } else {
        "GB"@
    }
}

/// `1024^k`.
pub open spec fn pow1024(k: nat) -> nat {
    if k == 0 {
        1
    } else if k == 1 {
        1024
    } else if k == 2 {
        1024 * 1024
    } else {
        1024 * 1024 * 1024
    }
}

/// How a byte count is shown: `512 B`, `1.5 KB`, `8.4 MB`, `2.0 GB`, ...
pub open spec fn format_bytes_spec(b: nat) -> Seq<char> {
    let r = f64_of(b);
    let k = unit_index(r);
    if k == 0 {
        decimal(b) + " B"@
    } else {
        let t = round_half_even_div(r * 10, pow1024(k));
        decimal(t / 10) + seq!['.'] + decimal(t % 10) + seq![' '] + unit_name(k)
    }
}

proof fn lemma_pow2_pos(e: nat)
    ensures
        pow2(e) >= 1,
    decreases e,
{
    if e > 0 {
        lemma_pow2_pos((e - 1) as nat);
    }
}

/// `n` needs more than `k` bits exactly when it is at least `2^k`.
proof fn lemma_bit_length(n: nat, k: nat)
    ensures
        (bit_length(n) <= k) == (n < pow2(k)),
    decreases n,
{
    if n == 0 {
        lemma_pow2_pos(k);
    } else if k == 0 {
    } else {
        lemma_bit_length(n / 2, (k - 1) as nat);
    }
}

proof fn lemma_pow2_53()
    ensures
        pow2(53) == 0x20_0000_0000_0000,
        pow2(64) == 0x1_0000_0000_0000_0000,
{
    reveal_with_fuel(pow2, 65);
}

/// `b as f64`, as an exact integer.
fn f64_value(b: u64) -> (r: u128)
    ensures
        r as nat == f64_of(b as nat),
        r <= 0x1_0000_0000_0000_0000,
{
    proof {
        lemma_pow2_53();
    }
    if b < 0x20_0000_0000_0000 {
        return b as u128;
    }
    proof {
        lemma_bit_length(b as nat, 64);
        lemma_pow2_pos(11);
    }
    let mut n: u64 = b;
    let mut len: u64 = 0;
    while n > 0
        invariant
            len + bit_length(n as nat) == bit_length(b as nat),
            len <= 64,
            bit_length(b as nat) <= 64,
        decreases n,
    {
        proof {
            lemma_bit_length(b as nat, 64);
        }
        n = n / 2;
        len = len + 1;
    }
    proof {
        lemma_bit_length(b as nat, 64);
        lemma_bit_length(b as nat, 53);
    }
    let e = len - 53;
    let mut p: u64 = 1;
    let mut i: u64 = 0;
    while i < e
        invariant
            i <= e <= 11,
            p == pow2(i as nat),
            p <= pow2(11),
        decreases e - i,
    {
        proof {
            reveal_with_fuel(pow2, 12);
            lemma_pow2_monotone(i as nat + 1, 11);
        }
        p = p * 2;
        i = i + 1;
    }
    proof {
        reveal_with_fuel(pow2, 12);
    }
    proof {
        lemma_bit_length(b as nat, (53 + e) as nat);
        lemma_round_bound(b as nat, p as nat, e as nat);
    }
    let q = b / p;
    let rem = b % p;
    let q2: u64 = if 2 * rem > p || (2 * rem == p && q % 2 == 1) {
        q + 1
    } else {
        q
    };
    (q2 as u128) * (p as u128)
}

proof fn lemma_pow2_monotone(a: nat, b: nat)
    requires
        a <= b,
    ensures
        pow2(a) <= pow2(b),
    decreases b,
{
    if a < b {
        lemma_pow2_monotone(a, (b - 1) as nat);
    }
}

proof fn lemma_round_bound(b: nat, p: nat, e: nat)
    requires
        p == pow2(e),
        b < pow2(53 + e),
        p >= 1,
        e <= 11,
    ensures
        round_half_even_div(b, p) * p <= 0x1_0000_0000_0000_0000,
        round_half_even_div(b, p) <= 0x20_0000_0000_0000,
        b / p < 0x20_0000_0000_0000,
{
    lemma_pow2_mul(53, e);
    lemma_pow2_53();
    lemma_pow2_monotone(53 + e, 64);
    assert(b / p < pow2(53)) by (nonlinear_arith)
        requires
            b < pow2(53) * p,
            p >= 1,
    ;
    assert(round_half_even_div(b, p) * p <= pow2(53) * p) by (nonlinear_arith)
        requires
            round_half_even_div(b, p) <= pow2(53),
    ;
}

proof fn lemma_pow2_mul(a: nat, b: nat)
    ensures
        pow2(a + b) == pow2(a) * pow2(b),
    decreases b,
{
    if b > 0 {
        let b1 = (b - 1) as nat;
        lemma_pow2_mul(a, b1);
        assert(((a + b) - 1) as nat == a + b1);
        assert(pow2(a + b) == 2 * pow2(a + b1));
        assert(pow2(b) == 2 * pow2(b1));
        let x = pow2(a);
        let y = pow2(b1);
        assert(x * (2 * y) == 2 * (x * y)) by (nonlinear_arith);
        assert(pow2(a) * pow2(b) == x * (2 * y));
        assert(pow2(a + b1) == x * y);
    } else {
        assert(a + b == a);
        assert(pow2(0) == 1);
        let x = pow2(a);
        assert(x * 1 == x);
    }
}

/// Shows a byte count with the largest unit (B, KB, MB, GB) that keeps the
/// number at least 1, with one decimal above bytes.
pub fn format_bytes(bytes: u64) -> (s: String)
    ensures
        s@ == format_bytes_spec(bytes as nat),
{
    let r = f64_value(bytes);
    let mut s = String::new();
    if r < 1024 {
        push_decimal(&mut s, bytes);
        s.append(" B");
        return s;
    }
    let (d, unit): (u128, &str) = if r < 1024 * 1024 {
        (1024, "KB")
    } else if r < 1024 * 1024 * 1024 {
        (1024 * 1024, "MB")
    } else {
        (1024 * 1024 * 1024, "GB")
    };
    let n: u128 = r * 10;
    let q = n / d;
    let rem = n % d;
    let t: u128 = if 2 * rem > d || (2 * rem == d && q % 2 == 1) {
        q + 1
    } else {
        q
    };
    assert(t <= 0x1_0000_0000_0000_0000 * 10 / 1024 + 1) by (nonlinear_arith)
        requires
            n <= 0x1_0000_0000_0000_0000 * 10,
            d >= 1024,
            q == n / d,
            t <= q + 1,
    ;
    let whole = (t / 10) as u64;
    let tenth = (t % 10) as u64;
    push_decimal(&mut s, whole);
    push_char(&mut s, '.');
    push_char(&mut s, digit(tenth));
    push_char(&mut s, ' ');
    s.append(unit);
    proof {
        let k = unit_index(r as nat);
        assert(pow1024(k) == d);
        assert(decimal(tenth as nat) == seq![digit_char(tenth as nat)]);
        assert(s@ =~= format_bytes_spec(bytes as nat));
    }
    s
}

/// How a signed byte count is shown: negative counts show as `0 B`.
pub open spec fn format_bytes_i64_spec(bytes: int) -> Seq<char> {
    if bytes < 0 {
        format_bytes_spec(0)
    } else {
        format_bytes_spec(bytes as nat)
    }
}

/// Shows a signed byte count; a negative count shows as zero.
pub fn format_bytes_i64(bytes: i64) -> (s: String)
    ensures
        s@ == format_bytes_i64_spec(bytes as int),
{
    if bytes < 0 {
        format_bytes(0)
    } else {
        format_bytes(bytes as u64)
    }
}

/// How a duration in milliseconds is shown: whole seconds (negative
/// durations as zero), as `Xmin Ysec` from a minute on, else `Ysec`.
pub open spec fn format_duration_spec(milliseconds: int) -> Seq<char> {
    let seconds: nat = if milliseconds >= 0 {
        (milliseconds / 1000) as nat
    } else {
        0
    };
    let minutes = seconds / 60;
    let rest = seconds % 60;
    if minutes > 0 {
        decimal(minutes) + "min "@ + decimal(rest) + "sec"@
    } else {
        decimal(rest) + "sec"@
    }
}

/// Shows a duration given in milliseconds.
pub fn format_duration(milliseconds: i64) -> (s: String)
    ensures
        s@ == format_duration_spec(milliseconds as int),
{
    let seconds: u64 = if milliseconds >= 0 {
        (milliseconds / 1000) as u64
    } else {
        0
    };
    let minutes = seconds / 60;
    let rest = seconds % 60;
    let mut s = String::new();
    if minutes > 0 {
        push_decimal(&mut s, minutes);
        s.append("min ");
        push_decimal(&mut s, rest);
        s.append("sec");
    } else {
        push_decimal(&mut s, rest);
        s.append("sec");
    }
    s
}

/// Whether the date text can be cut where the report cuts it: at bytes 4, 5,
/// 7, 8 and 10 of a text of at least 10 bytes.
pub open spec fn date_cuttable(bytes: Seq<u8>) -> bool {
    bytes.len() >= 10 ==> {
        &&& is_char_boundary(bytes, 4)
        &&& is_char_boundary(bytes, 5)
        &&& is_char_boundary(bytes, 7)
        &&& is_char_boundary(bytes, 8)
        &&& is_char_boundary(bytes, 10)
    }
}

/// Whether `format_date` can cut a date text (see `date_cuttable`); a text
/// in memory is never longer than `usize::MAX` bytes.
pub fn date_is_cuttable(value: &str) -> (b: bool)
    ensures
        b == date_cuttable(encode_utf8(value@)),
        encode_utf8(value@).len() <= usize::MAX,
{
    broadcast use vstd::slice::axiom_spec_len;

    let bytes = value.as_bytes();
    let n = bytes.len();
    assert(n == encode_utf8(value@).len());
    if n < 10 {
        return true;
    }
    value.is_char_boundary(4) && value.is_char_boundary(5) && value.is_char_boundary(7)
        && value.is_char_boundary(8) && value.is_char_boundary(10)
}

/// How a `YYYY-MM-DD...` date is shown: `DD.MM.YYYY`, from bytes 8..10, 5..7
/// and 0..4; a text shorter than 10 bytes stays as it is.
pub open spec fn format_date_spec(bytes: Seq<u8>, text: Seq<char>) -> Seq<char> {
    if bytes.len() >= 10 {
        decode_utf8(bytes.subrange(8, 10)) + seq!['.'] + decode_utf8(bytes.subrange(5, 7)) + seq![
            '.',
        ] + decode_utf8(bytes.subrange(0, 4))
    } else {
        text
    }
}

proof fn lemma_boundary_in_part(bytes: Seq<u8>, start: int, end: int, i: int)
    requires
        valid_utf8(bytes),
        valid_utf8(bytes.subrange(start, end)),
        0 <= start <= start + i < end <= bytes.len(),
        is_char_boundary(bytes, start + i),
    ensures
        is_char_boundary(bytes.subrange(start, end), i),
{
    vstd::utf8::is_char_boundary_iff_not_is_continuation_byte(bytes, start + i);
    vstd::utf8::is_char_boundary_iff_not_is_continuation_byte(bytes.subrange(start, end), i);
    assert(bytes.subrange(start, end)[i] == bytes[start + i]);
}

/// Shows a `YYYY-MM-DD...` date as `DD.MM.YYYY`.
pub fn format_date(value: &str) -> (s: String)
    requires
        encode_utf8(value@).len() <= usize::MAX,
        date_cuttable(encode_utf8(value@)),
    ensures
        s@ == format_date_spec(encode_utf8(value@), value@),
{
    broadcast use vstd::utf8::encode_utf8_valid_utf8, vstd::utf8::encode_utf8_decode_utf8;

    let ghost b = encode_utf8(value@);
    let n = value.len();
    assert(n == b.len());
    if n < 10 {
        return value.to_owned();
    }
    let (head, _) = value.split_at(10);
    assert(encode_utf8(head@) == b.subrange(0, 10));
    proof {
        lemma_boundary_in_part(b, 0, 10, 4);
    }
    let (year, rest) = head.split_at(4);
    assert(encode_utf8(rest@) =~= b.subrange(4, 10));
    proof {
        lemma_boundary_in_part(b, 4, 10, 1);
    }
    let (_, rest2) = rest.split_at(1);
    assert(encode_utf8(rest2@) =~= b.subrange(5, 10));
    proof {
        lemma_boundary_in_part(b, 5, 10, 2);
    }
    let (month, rest3) = rest2.split_at(2);
    assert(encode_utf8(rest3@) =~= b.subrange(7, 10));
    proof {
        lemma_boundary_in_part(b, 7, 10, 1);
    }
    let (_, day) = rest3.split_at(1);
    assert(encode_utf8(day@) =~= b.subrange(8, 10));
    assert(encode_utf8(year@) =~= b.subrange(0, 4));
    assert(encode_utf8(month@) =~= b.subrange(5, 7));
    let mut s = day.to_owned();
    push_char(&mut s, '.');
    s.append(month);
    push_char(&mut s, '.');
    s.append(year);
    proof {
        assert(decode_utf8(encode_utf8(day@)) == day@);
        assert(decode_utf8(encode_utf8(month@)) == month@);
        assert(decode_utf8(encode_utf8(year@)) == year@);
    }
    s
}

} // verus!
