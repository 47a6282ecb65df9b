//! Character and string helpers with their specifications.
//!
//! Strings are modelled by their view, a `Seq<char>`. The spec functions here
//! say what `str::trim`, ASCII case mapping, decimal printing and parsing of
//! unsigned integers compute.

use vstd::prelude::*;

verus! {

broadcast use vstd::string::group_string_axioms;

/// Whether `c` is an ASCII control character (`char::is_ascii_control`).
pub open spec fn is_ascii_control_spec(c: char) -> bool {
    (c as u32) < 0x20 || (c as u32) == 0x7f
}

/// Returns whether `c` is an ASCII control character.
pub fn is_ascii_control(c: char) -> (b: bool)
    ensures
        b == is_ascii_control_spec(c),
{
    (c as u32) < 0x20 || (c as u32) == 0x7f
}

/// Whether `c` has the Unicode `White_Space` property (`char::is_whitespace`).
pub open spec fn is_whitespace_spec(c: char) -> bool {
    let u = c as u32;
    ||| 0x09 <= u <= 0x0d
    ||| u == 0x20
    ||| u == 0x85
    ||| u == 0xa0
    ||| u == 0x1680
    ||| 0x2000 <= u <= 0x200a
    ||| u == 0x2028
    ||| u == 0x2029
    ||| u == 0x202f
    ||| u == 0x205f
    ||| u == 0x3000
}

/// Returns whether `c` is Unicode white space.
pub fn is_whitespace(c: char) -> (b: bool)
    ensures
        b == is_whitespace_spec(c),
{
    let u = c as u32;
    (0x09 <= u && u <= 0x0d) || u == 0x20 || u == 0x85 || u == 0xa0 || u == 0x1680 || (0x2000
        <= u && u <= 0x200a) || u == 0x2028 || u == 0x2029 || u == 0x202f || u == 0x205f || u
        == 0x3000
}

/// Which characters a trim removes: white space, or the pair `'.'` and `' '`.
pub open spec fn trimmed_by(c: char, dots_and_spaces: bool) -> bool {
    if dots_and_spaces {
        c == '.' || c == ' '
    } else {
        is_whitespace_spec(c)
    }
}

/// `s` without its leading characters selected by `trimmed_by`.
pub open spec fn trim_start_by(s: Seq<char>, dots_and_spaces: bool) -> Seq<char>
    decreases s.len(),
{
    if s.len() > 0 && trimmed_by(s[0], dots_and_spaces) {
        trim_start_by(s.drop_first(), dots_and_spaces)
    } else {
        s
    }
}

/// `s` without its trailing characters selected by `trimmed_by`.
pub open spec fn trim_end_by(s: Seq<char>, dots_and_spaces: bool) -> Seq<char>
    decreases s.len(),
{
    if s.len() > 0 && trimmed_by(s.last(), dots_and_spaces) {
        trim_end_by(s.drop_last(), dots_and_spaces)
    } else {
        s
    }
}

/// `s` without leading and trailing characters selected by `trimmed_by`.
pub open spec fn trim_by(s: Seq<char>, dots_and_spaces: bool) -> Seq<char> {
    trim_end_by(trim_start_by(s, dots_and_spaces), dots_and_spaces)
}

/// What `str::trim` returns: `s` without leading and trailing white space.
pub open spec fn trim_spec(s: Seq<char>) -> Seq<char> {
    trim_by(s, false)
}

proof fn lemma_trim_start_at(s: Seq<char>, d: bool, i: int)
    requires
        0 <= i <= s.len(),
        forall|k: int| 0 <= k < i ==> trimmed_by(#[trigger] s[k], d),
        i == s.len() || !trimmed_by(s[i], d),
    ensures
        trim_start_by(s, d) == s.subrange(i, s.len() as int),
    decreases i,
{
    if i == 0 {
        assert(s.subrange(0, s.len() as int) =~= s);
    } else {
        let t = s.drop_first();
        assert forall|k: int| 0 <= k < i - 1 implies trimmed_by(#[trigger] t[k], d) by {
            assert(t[k] == s[k + 1]);
        }
        lemma_trim_start_at(t, d, i - 1);
        assert(t.subrange(i - 1, t.len() as int) =~= s.subrange(i, s.len() as int));
    }
}

proof fn lemma_trim_end_at(s: Seq<char>, d: bool, j: int)
    requires
        0 <= j <= s.len(),
        forall|k: int| j <= k < s.len() ==> trimmed_by(#[trigger] s[k], d),
        j == 0 || !trimmed_by(s[j - 1], d),
    ensures
        trim_end_by(s, d) == s.subrange(0, j),
    decreases s.len() - j,
{
    if j == s.len() {
        assert(s.subrange(0, j) =~= s);
    } else {
        let t = s.drop_last();
        assert forall|k: int| j <= k < t.len() implies trimmed_by(#[trigger] t[k], d) by {
            assert(t[k] == s[k]);
        }
        lemma_trim_end_at(t, d, j);
        assert(t.subrange(0, j) =~= s.subrange(0, j));
    }
}

/// Copies `v[from..to]` into a new string.
pub fn string_from_range(v: &Vec<char>, from: usize, to: usize) -> (s: String)
    requires
        from <= to <= v.len(),
    ensures
        s@ == v@.subrange(from as int, to as int),
{
    let mut s = String::new();
    let mut i = from;
    while i < to
        invariant
            from <= i <= to <= v.len(),
            s@ == v@.subrange(from as int, i as int),
        decreases to - i,
    {
        push_char(&mut s, v[i]);
        assert(v@.subrange(from as int, i + 1) =~= v@.subrange(from as int, i as int).push(v@[i as int]));
        i = i + 1;
    }
    s
}

/// Copies a whole character vector into a new string.
pub fn string_from_chars(v: &Vec<char>) -> (s: String)
    ensures
        s@ == v@,
{
    let s = string_from_range(v, 0, v.len());
    assert(v@.subrange(0, v.len() as int) =~= v@);
    s
}

/// The bounds of `v` without its leading and trailing characters selected by `trimmed_by`.
pub fn trim_bounds(v: &Vec<char>, dots_and_spaces: bool) -> (r: (usize, usize))
    ensures
        r.0 <= r.1 <= v.len(),
        v@.subrange(r.0 as int, r.1 as int) == trim_by(v@, dots_and_spaces),
{
    let n = v.len();
    let mut i: usize = 0;
    while i < n && trim_char(v[i], dots_and_spaces)
        invariant
            n == v.len(),
            i <= n,
            forall|k: int| 0 <= k < i ==> trimmed_by(#[trigger] v@[k], dots_and_spaces),
        decreases n - i,
    {
        i = i + 1;
    }
    proof {
        lemma_trim_start_at(v@, dots_and_spaces, i as int);
    }
    let ghost t = v@.subrange(i as int, n as int);
    let mut j: usize = n;
    while j > i && trim_char(v[j - 1], dots_and_spaces)
        invariant
            n == v.len(),
            i <= j <= n,
            t == v@.subrange(i as int, n as int),
            forall|k: int| j <= k < n ==> trimmed_by(#[trigger] v@[k], dots_and_spaces),
        decreases j - i,
    {
        j = j - 1;
    }
    proof {
        assert forall|k: int| j - i <= k < t.len() implies trimmed_by(
            #[trigger] t[k],
            dots_and_spaces,
        ) by {
            assert(t[k] == v@[k + i]);
        }
        if j > i {
            assert(t[j - i - 1] == v@[j - 1]);
        }
        lemma_trim_end_at(t, dots_and_spaces, j - i);
        assert(t.subrange(0, j - i) =~= v@.subrange(i as int, j as int));
    }
    (i, j)
}

/// Returns whether a trim of the given kind removes `c`.
pub fn trim_char(c: char, dots_and_spaces: bool) -> (b: bool)
    ensures
        b == trimmed_by(c, dots_and_spaces),
{
    if dots_and_spaces {
        c == '.' || c == ' '
    } else {
        is_whitespace(c)
    }
}

/// `s` without leading and trailing white space, as `str::trim` returns it.
pub fn trim(s: &str) -> (r: String)
    ensures
        r@ == trim_spec(s@),
{
    let v = chars_of(s);
    let (i, j) = trim_bounds(&v, false);
    string_from_range(&v, i, j)
}

/// The characters of a string slice, in order.
pub fn chars_of(s: &str) -> (v: Vec<char>)
    ensures
        v@ == s@,
{
    let mut v: Vec<char> = Vec::new();
    for c in iter: s.chars()
        invariant
            v@ == iter.history(),
    {
        v.push(c);
    }
    assert(v@ =~= s@);
    v
}

/// Appends one character to a string (`String::push`).
#[verifier::external_body]
pub(crate) fn push_char(s: &mut String, c: char)
    ensures
        final(s)@ == old(s)@.push(c),
{
    s.push(c);
}

/// Whether two strings hold the same characters.
pub fn str_eq(a: &str, b: &str) -> (r: bool)
    ensures
        r == (a@ == b@),
{
    let x = a.to_owned();
    let y = b.to_owned();
    x == y
}

/// Whether `pattern` occurs in `s` as a run of consecutive characters.
pub open spec fn contains_spec(s: Seq<char>, pattern: Seq<char>) -> bool {
    exists|i: int| 0 <= i && i + pattern.len() <= s.len() && #[trigger] s.subrange(i, i + pattern.len()) == pattern
}

/// Whether `pattern` occurs in `s` (`str::contains` with a string pattern).
pub fn contains_text(s: &str, pattern: &str) -> (b: bool)
    ensures
        b == contains_spec(s@, pattern@),
{
    let v = chars_of(s);
    let p = chars_of(pattern);
    if p.len() > v.len() {
        return false;
    }
    let vlen: usize = v.len();
    let last: usize = vlen - p.len();
    let mut i: usize = 0;
    while i <= last
        invariant
            v@ == s@,
            p@ == pattern@,
            p@.len() <= v@.len(),
            vlen == v@.len(),
            last == v@.len() - p@.len(),
            i <= last + 1,
            forall|k: int| 0 <= k < i ==> #[trigger] v@.subrange(k, k + p@.len()) != p@,
        decreases last + 1 - i,
    {
        let mut j: usize = 0;
        let mut same = true;
        while j < p.len()
            invariant
                v@ == s@,
                p@ == pattern@,
                p@.len() <= v@.len(),
                vlen == v@.len(),
                last == v@.len() - p@.len(),
                i <= last,
                j <= p@.len(),
                same ==> forall|t: int| 0 <= t < j ==> v@[i + t] == p@[t],
                !same ==> v@.subrange(i as int, i + p@.len()) != p@,
            decreases p@.len() - j,
        {
            let k: usize = i + j;
            if v[k] != p[j] {
                proof {
                    assert(v@.subrange(i as int, i + p@.len())[j as int] == v@[i + j]);
                }
                same = false;
            }
            j = j + 1;
        }
        if same {
            assert(v@.subrange(i as int, i + p@.len()) =~= p@);
            return true;
        }
        if i == last {
            proof {
                assert forall|k: int| 0 <= k && k + pattern@.len() <= s@.len() implies #[trigger] s@.subrange(k, k + pattern@.len()) != pattern@ by {
                    assert(k < i + 1);
                }
            }
            return false;
        }
        i = i + 1;
    }
    false
}

/// `c` with an ASCII capital letter mapped to its small letter.
pub open spec fn ascii_lower_char(c: char) -> char {
    if 'A' <= c <= 'Z' {
        ((c as u32) + 32) as char
    } else {
        c
    }
}

/// `c` with an ASCII small letter mapped to its capital letter.
pub open spec fn ascii_upper_char(c: char) -> char {
    if 'a' <= c <= 'z' {
        ((c as u32) - 32) as char
    } else {
        c
    }
}

/// What `str::to_ascii_lowercase` returns.
pub open spec fn ascii_lower(s: Seq<char>) -> Seq<char> {
    s.map_values(|c: char| ascii_lower_char(c))
}

/// What `str::to_ascii_uppercase` returns.
pub open spec fn ascii_upper(s: Seq<char>) -> Seq<char> {
    s.map_values(|c: char| ascii_upper_char(c))
}

/// Maps one ASCII letter to the case that `upper` selects.
pub fn ascii_case_char(c: char, upper: bool) -> (r: char)
    ensures
        r == (if upper {
            ascii_upper_char(c)
        } else {
            ascii_lower_char(c)
        }),
{
    if !upper && 'A' <= c && c <= 'Z' {
        let b = (c as u8) + 32;
        let r = b as char;
        assert(r == ascii_lower_char(c)) by {
            assert((c as u32) < 128);
        }
        r
    } else if upper && 'a' <= c && c <= 'z' {
        let b = (c as u8) - 32;
        let r = b as char;
        assert(r == ascii_upper_char(c)) by {
            assert((c as u32) < 128);
        }
        r
    } else {
        c
    }
}

/// `s` with ASCII letters mapped to small (`upper == false`) or capital letters.
pub fn ascii_case(s: &str, upper: bool) -> (r: String)
    ensures
        r@ == (if upper {
            ascii_upper(s@)
        } else {
            ascii_lower(s@)
        }),
{
    let v = chars_of(s);
    let mut r = String::new();
    let mut i: usize = 0;
    while i < v.len()
        invariant
            i <= v.len(),
            v@ == s@,
            r@ == (if upper {
                ascii_upper(v@.subrange(0, i as int))
            } else {
                ascii_lower(v@.subrange(0, i as int))
            }),
        decreases v.len() - i,
    {
        let c = ascii_case_char(v[i], upper);
        push_char(&mut r, c);
        assert(v@.subrange(0, i + 1) =~= v@.subrange(0, i as int).push(v@[i as int]));
        i = i + 1;
    }
    assert(v@.subrange(0, v.len() as int) =~= v@);
    r
}

/// The text of a digit `d < 10`.
pub open spec fn digit_char(d: nat) -> char {
    if d == 0 {
        '0'
    } else if d == 1 {
        '1'
    } else if d == 2 {
        '2'
    } else if d == 3 {
        '3'
    } else if d == 4 {
        '4'
    } else if d == 5 {
        '5'
    } else if d == 6 {
        '6'
    } else if d == 7 {
        '7'
    } else if d == 8 {
        '8'
    } else {
        '9'
    }
}

/// The decimal text of `n`, as `u64::to_string` writes it.
pub open spec fn decimal(n: nat) -> Seq<char>
    decreases n,
{
    if n < 10 {
        seq![digit_char(n)]
    } else {
        decimal(n / 10).push(digit_char(n % 10))
    }
}

/// The decimal text of a signed integer, with a leading `-` when it is negative.
pub open spec fn signed_decimal(n: int) -> Seq<char> {
    if n < 0 {
        seq!['-'] + decimal((-n) as nat)
    } else {
        decimal(n as nat)
    }
}

/// Returns the character of the digit `d`.
pub fn digit(d: u64) -> (c: char)
    requires
        d < 10,
    ensures
        c == digit_char(d as nat),
{
    if d == 0 {
        '0'
    } else if d == 1 {
        '1'
    } else if d == 2 {
        '2'
    } else if d == 3 {
        '3'
    } else if d == 4 {
        '4'
    } else if d == 5 {
        '5'
    } else if d == 6 {
        '6'
    } else if d == 7 {
        '7'
    } else if d == 8 {
        '8'
    } else {
        '9'
    }
}

/// Appends the decimal text of `n` to `out`.
pub fn push_decimal(out: &mut String, n: u64)
    ensures
        final(out)@ == old(out)@ + decimal(n as nat),
    decreases n,
{
    if n >= 10 {
        push_decimal(out, n / 10);
    }
    push_char(out, digit(n % 10));
    proof {
        if n < 10 {
            assert(n % 10 == n);
        }
    }
}

/// Appends the decimal text of the signed `n` to `out`.
pub fn push_signed_decimal(out: &mut String, n: i64)
    ensures
        final(out)@ == old(out)@ + signed_decimal(n as int),
{
    if n < 0 {
        push_char(out, '-');
        let m: u64 = (0i128 - (n as i128)) as u64;
        push_decimal(out, m);
        assert(out@ =~= old(out)@ + signed_decimal(n as int));
    } else {
        push_decimal(out, n as u64);
    }
}

/// The decimal text of `n`.
pub fn u64_to_string(n: u64) -> (s: String)
    ensures
        s@ == decimal(n as nat),
{
    let mut s = String::new();
    push_decimal(&mut s, n);
    assert(s@ =~= decimal(n as nat));
    s
}

/// The digits that `str::parse` reads for an unsigned integer: one leading `+` is skipped.
pub open spec fn unsigned_digits(s: Seq<char>) -> Seq<char> {
    if s.len() > 0 && s[0] == '+' {
        s.drop_first()
    } else {
        s
    }
}

/// Whether every character of `s` is an ASCII digit.
pub open spec fn all_digits(s: Seq<char>) -> bool {
    forall|i: int| 0 <= i < s.len() ==> '0' <= #[trigger] s[i] <= '9'
}

/// The value of a sequence of ASCII digits.
pub open spec fn digits_value(s: Seq<char>) -> nat
    decreases s.len(),
{
    if s.len() == 0 {
        0
    } else {
        digits_value(s.drop_last()) * 10 + ((s.last() as u32) - 48) as nat
    }
}

/// What `str::parse` returns for an unsigned integer type whose largest value is `max`.
pub open spec fn parse_unsigned_spec(s: Seq<char>, max: nat) -> Option<nat> {
    let d = unsigned_digits(s);
    if d.len() > 0 && all_digits(d) && digits_value(d) <= max {
        Some(digits_value(d))
    } else {
        None
    }
}

proof fn lemma_digits_value_prefix(s: Seq<char>, k: int)
    requires
        0 <= k <= s.len(),
        all_digits(s),
    ensures
        digits_value(s.subrange(0, k)) <= digits_value(s),
    decreases s.len() - k,
{
    if k < s.len() {
        let t = s.drop_last();
        assert(all_digits(t)) by {
            assert forall|i: int| 0 <= i < t.len() implies '0' <= #[trigger] t[i] <= '9' by {
                assert(t[i] == s[i]);
            }
        }
        lemma_digits_value_prefix(t, k);
        assert(t.subrange(0, k) =~= s.subrange(0, k));
        assert('0' <= s.last() <= '9');
    } else {
        assert(s.subrange(0, k) =~= s);
    }
}

/// Parses an unsigned integer no larger than `max` as `str::parse` does.
pub fn parse_unsigned(s: &str, max: u64) -> (r: Option<u64>)
    requires
        max <= u32::MAX,
    ensures
        match r {
            Some(v) => parse_unsigned_spec(s@, max as nat) == Some(v as nat),
            None => parse_unsigned_spec(s@, max as nat) is None,
        },
{
    let v = chars_of(s);
    let start: usize = if v.len() > 0 && v[0] == '+' {
        1
    } else {
        0
    };
    let ghost d = unsigned_digits(s@);
    assert(d =~= v@.subrange(start as int, v.len() as int));
    if start >= v.len() {
        return None;
    }
    let mut acc: u64 = 0;
    let mut i = start;
    while i < v.len()
        invariant
            start <= i <= v.len(),
            v@ == s@,
            d == unsigned_digits(s@),
            d == v@.subrange(start as int, v.len() as int),
            acc <= max <= u32::MAX,
            forall|k: int| 0 <= k < i - start ==> '0' <= #[trigger] d[k] <= '9',
            acc == digits_value(d.subrange(0, i - start)),
        decreases v.len() - i,
    {
        let c = v[i];
        if c < '0' || c > '9' {
            assert(d[i - start] == c);
            return None;
        }
        let dv = (c as u32 - 48) as u64;
        let next = acc * 10 + dv;
        proof {
            let p = d.subrange(0, i + 1 - start);
            assert(p.drop_last() =~= d.subrange(0, i - start));
            assert(p.last() == c);
        }
        if next > max {
            proof {
                let e = (v.len() - start) as int;
                if forall|k: int| 0 <= k < e ==> '0' <= #[trigger] d[k] <= '9' {
                    lemma_digits_value_prefix(d, i + 1 - start);
                }
            }
            return None;
        }
        acc = next;
        i = i + 1;
    }
    assert(d.subrange(0, (v.len() - start) as int) =~= d);
    Some(acc)
}

/// Every character of a decimal text is an ASCII digit.
pub proof fn lemma_decimal_digits(n: nat)
    ensures
        decimal(n).len() > 0,
        all_digits(decimal(n)),
    decreases n,
{
    if n >= 10 {
        lemma_decimal_digits(n / 10);
        let d = decimal(n);
        assert forall|i: int| 0 <= i < d.len() implies '0' <= #[trigger] d[i] <= '9' by {
            if i < d.len() - 1 {
                assert(d[i] == decimal(n / 10)[i]);
            }
        }
    }
}

/// Reading a decimal text back gives the number.
pub proof fn lemma_decimal_value(n: nat)
    ensures
        digits_value(decimal(n)) == n,
    decreases n,
{
    let c = digit_char(n % 10);
    assert((c as u32) == 48 + n % 10);
    if n >= 10 {
        lemma_decimal_value(n / 10);
        assert(decimal(n).drop_last() =~= decimal(n / 10));
        assert(decimal(n).last() == c);
    } else {
        assert(decimal(n).drop_last() =~= Seq::<char>::empty());
        assert(decimal(n).last() == c);
        assert(digits_value(Seq::<char>::empty()) == 0);
    }
}

/// Different numbers have different decimal texts.
pub proof fn lemma_decimal_injective(a: nat, b: nat)
    requires
        decimal(a) == decimal(b),
    ensures
        a == b,
{
    lemma_decimal_value(a);
    lemma_decimal_value(b);
}

proof fn lemma_trim_start_subrange(s: Seq<char>, d: bool)
    ensures
        exists|a: int| 0 <= a <= s.len() && trim_start_by(s, d) == s.subrange(a, s.len() as int),
    decreases s.len(),
{
    if s.len() > 0 && trimmed_by(s[0], d) {
        let t = s.drop_first();
        lemma_trim_start_subrange(t, d);
        let a = choose|a: int| 0 <= a <= t.len() && trim_start_by(t, d) == t.subrange(a, t.len() as int);
        assert(t.subrange(a, t.len() as int) =~= s.subrange(a + 1, s.len() as int));
    } else {
        assert(s.subrange(0, s.len() as int) =~= s);
    }
}

proof fn lemma_trim_end_subrange(s: Seq<char>, d: bool)
    ensures
        exists|b: int| 0 <= b <= s.len() && trim_end_by(s, d) == s.subrange(0, b),
    decreases s.len(),
{
    if s.len() > 0 && trimmed_by(s.last(), d) {
        let t = s.drop_last();
        lemma_trim_end_subrange(t, d);
        let b = choose|b: int| 0 <= b <= t.len() && trim_end_by(t, d) == t.subrange(0, b);
        assert(t.subrange(0, b) =~= s.subrange(0, b));
    } else {
        assert(s.subrange(0, s.len() as int) =~= s);
    }
}

/// A trim keeps a contiguous part of the text.
pub proof fn lemma_trim_by_subrange(s: Seq<char>, d: bool)
    ensures
        exists|a: int, b: int| 0 <= a <= b <= s.len() && trim_by(s, d) == s.subrange(a, b),
{
    lemma_trim_start_subrange(s, d);
    let a = choose|a: int| 0 <= a <= s.len() && trim_start_by(s, d) == s.subrange(a, s.len() as int);
    let t = trim_start_by(s, d);
    lemma_trim_end_subrange(t, d);
    let b = choose|b: int| 0 <= b <= t.len() && trim_end_by(t, d) == t.subrange(0, b);
    assert(t.subrange(0, b) =~= s.subrange(a, a + b));
}

/// What a trim leaves starts and ends with a character it keeps.
pub proof fn lemma_trim_by_ends(s: Seq<char>, d: bool)
    ensures
        trim_by(s, d).len() > 0 ==> !trimmed_by(trim_by(s, d)[0], d) && !trimmed_by(
            trim_by(s, d).last(),
            d,
        ),
{
    lemma_trim_start_first(s, d);
    let t = trim_start_by(s, d);
    lemma_trim_end_last(t, d);
    lemma_trim_end_subrange(t, d);
    let b = choose|b: int| 0 <= b <= t.len() && trim_end_by(t, d) == t.subrange(0, b);
    if b > 0 {
        assert(trim_end_by(t, d)[0] == t[0]);
    }
}

proof fn lemma_trim_start_first(s: Seq<char>, d: bool)
    ensures
        trim_start_by(s, d).len() > 0 ==> !trimmed_by(trim_start_by(s, d)[0], d),
    decreases s.len(),
{
    if s.len() > 0 && trimmed_by(s[0], d) {
        lemma_trim_start_first(s.drop_first(), d);
    }
}

proof fn lemma_trim_end_last(s: Seq<char>, d: bool)
    ensures
        trim_end_by(s, d).len() > 0 ==> !trimmed_by(trim_end_by(s, d).last(), d),
    decreases s.len(),
{
    if s.len() > 0 && trimmed_by(s.last(), d) {
        lemma_trim_end_last(s.drop_last(), d);
    }
}

/// A text that starts and ends with kept characters is its own trim.
pub proof fn lemma_trim_by_fixed(s: Seq<char>, d: bool)
    requires
        s.len() > 0 ==> !trimmed_by(s[0], d) && !trimmed_by(s.last(), d),
    ensures
        trim_by(s, d) == s,
{
}

/// Trimming twice is trimming once.
pub proof fn lemma_trim_idempotent(s: Seq<char>)
    ensures
        trim_spec(trim_spec(s)) == trim_spec(s),
{
    lemma_trim_by_ends(s, false);
    lemma_trim_by_fixed(trim_spec(s), false);
}

/// ASCII lowercasing keeps white space and everything else apart.
pub proof fn lemma_ascii_lower_whitespace(c: char)
    ensures
        is_whitespace_spec(ascii_lower_char(c)) == is_whitespace_spec(c),
{
}

/// Lowercasing a trimmed text and trimming it again changes nothing, and
/// lowercasing twice is lowercasing once.
pub proof fn lemma_lower_trim_idempotent(s: Seq<char>)
    ensures
        ascii_lower(trim_spec(ascii_lower(trim_spec(s)))) == ascii_lower(trim_spec(s)),
{
    let t = trim_spec(s);
    let u = ascii_lower(t);
    lemma_trim_by_ends(s, false);
    if t.len() > 0 {
        lemma_ascii_lower_whitespace(t[0]);
        lemma_ascii_lower_whitespace(t.last());
        assert(u[0] == ascii_lower_char(t[0]));
        assert(u.last() == ascii_lower_char(t.last()));
    }
    lemma_trim_by_fixed(u, false);
    assert(ascii_lower(u) =~= u);
}

} // verus!
