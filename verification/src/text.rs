//! Decimal text of integers, and the few string primitives the rest of the
//! library is built on.

use vstd::prelude::*;

verus! {

/// The character of a decimal digit `d` (0..=9).
pub open spec fn digit_char(d: nat) -> char {
    ((d + 48) as u32) as char
}

/// Whether `c` is an ASCII decimal digit.
pub open spec fn is_digit(c: char) -> bool {
    '0' <= c && c <= '9'
}

/// The value of an ASCII decimal digit.
pub open spec fn digit_value(c: char) -> nat {
    ((c as u32) - 48) as nat
}

/// Whether every character of `s` is an ASCII decimal digit.
pub open spec fn all_digits(s: Seq<char>) -> bool {
    forall|i: int| 0 <= i < s.len() ==> is_digit(#[trigger] s[i])
}

/// The value of a string of decimal digits (most significant first).
pub open spec fn digits_value(s: Seq<char>) -> nat
    decreases s.len(),
{
    if s.len() == 0 {
        0
    } else {
        digits_value(s.drop_last()) * 10 + digit_value(s.last())
    }
}

/// The shortest decimal text of a natural number.
pub open spec fn nat_text(n: nat) -> Seq<char>
    decreases n,
{
    if n < 10 {
        seq![digit_char(n)]
    } else {
        nat_text(n / 10).push(digit_char(n % 10))
    }
}

/// The decimal text of an integer, with a leading `-` when it is negative:
/// what Rust's `Display` prints for an integer.
pub open spec fn int_text(i: int) -> Seq<char> {
    if i < 0 {
        seq!['-'] + nat_text((-i) as nat)
    } else {
        nat_text(i as nat)
    }
}

/// The integer a string denotes under the grammar of Rust's `FromStr` for
/// integers: an optional sign (`+` or `-`) followed by at least one ASCII
/// digit, nothing else.  `None` when the text is not of that form.
pub open spec fn signed_decimal(s: Seq<char>) -> Option<int> {
    if s.len() > 0 && (s[0] == '+' || s[0] == '-') {
        let body = s.drop_first();
        if body.len() > 0 && all_digits(body) {
            if s[0] == '-' {
                Some(-(digits_value(body) as int))
            } else {
                Some(digits_value(body) as int)
            }
        } else {
            None
        }
    } else if s.len() > 0 && all_digits(s) {
        Some(digits_value(s) as int)
    } else {
        None
    }
}

/// The natural number a string denotes under the grammar of Rust's `FromStr`
/// for unsigned integers: an optional `+` followed by at least one ASCII digit.
pub open spec fn unsigned_decimal(s: Seq<char>) -> Option<nat> {
    if s.len() > 0 && s[0] == '+' {
        let body = s.drop_first();
        if body.len() > 0 && all_digits(body) {
            Some(digits_value(body))
        } else {
            None
        }
    } else if s.len() > 0 && all_digits(s) {
        Some(digits_value(s))
    } else {
        None
    }
}

/// Result of `str::parse::<i32>`: the value when the text is a well-formed
/// integer that fits in an `i32`.
pub open spec fn parse_i32_spec(s: Seq<char>) -> Option<i32> {
    match signed_decimal(s) {
        Some(v) => if i32::MIN <= v <= i32::MAX { Some(v as i32) } else { None },
        None => None,
    }
}

/// Result of `str::parse::<i64>`.
pub open spec fn parse_i64_spec(s: Seq<char>) -> Option<i64> {
    match signed_decimal(s) {
        Some(v) => if i64::MIN <= v <= i64::MAX { Some(v as i64) } else { None },
        None => None,
    }
}

/// Result of `str::parse::<u32>`.
pub open spec fn parse_u32_spec(s: Seq<char>) -> Option<u32> {
    match unsigned_decimal(s) {
        Some(v) => if v <= u32::MAX { Some(v as u32) } else { None },
        None => None,
    }
}

/// String equality (`<str as PartialEq>::eq`).
#[verifier::external_body]
pub(crate) fn str_eq(a: &str, b: &str) -> (r: bool)
    ensures
        r == (a@ == b@),
{
    a == b
}

/// Appends one character (`String::push`).
#[verifier::external_body]
pub(crate) fn push_char(s: &mut String, c: char)
    ensures
        final(s)@ == old(s)@.push(c),
{
    s.push(c)
}

/// `s` followed by `t`.
pub fn cat(s: String, t: &str) -> (r: String)
    ensures
        r@ == s@ + t@,
{
    let mut s = s;
    s.append(t);
    s
}

/// The upper-case hexadecimal digit of `d` (below 16).
pub open spec fn hex_digit(d: nat) -> char {
    if d < 10 {
        ((d + 48) as u32) as char
    } else {
        ((d + 55) as u32) as char
    }
}

/// Four upper-case hexadecimal digits of `n` (`format!("{:04X}", n)`).
pub open spec fn hex4_text(n: u16) -> Seq<char> {
    seq![
        hex_digit((n as nat / 4096) % 16),
        hex_digit((n as nat / 256) % 16),
        hex_digit((n as nat / 16) % 16),
        hex_digit(n as nat % 16),
    ]
}

fn hex_digit_exec(d: u16) -> (c: char)
    requires
        d < 16,
    ensures
        c == hex_digit(d as nat),
{
    let b: u8 = if d < 10 {
        (d as u8) + 48
    } else {
        (d as u8) + 55
    };
    b as char
}

/// Four upper-case hexadecimal digits of `n`, zero-padded.
pub fn format_hex4(n: u16) -> (s: String)
    ensures
        s@ == hex4_text(n),
{
    let mut v: Vec<char> = Vec::new();
    v.push(hex_digit_exec((n / 4096) % 16));
    v.push(hex_digit_exec((n / 256) % 16));
    v.push(hex_digit_exec((n / 16) % 16));
    v.push(hex_digit_exec(n % 16));
    let s = string_from_chars(&v);
    assert(v@ =~= hex4_text(n));
    s
}

/// `s` followed by spaces up to `width` characters (`format!("{:width$}", s)`).
pub open spec fn pad_right(s: Seq<char>, width: nat) -> Seq<char> {
    if s.len() >= width {
        s
    } else {
        s + Seq::new((width - s.len()) as nat, |i: int| ' ')
    }
}

/// `s` followed by spaces up to `width` characters.
pub fn pad_right_exec(s: &str, width: usize) -> (r: String)
    ensures
        r@ == pad_right(s@, width as nat),
{
    let mut r = s.to_owned();
    let n = s.unicode_len();
    let mut k: usize = n;
    while k < width
        invariant
            n == s@.len(),
            n <= k <= width || (k == n && n >= width),
            r@ == s@ + Seq::new((k - n) as nat, |i: int| ' '),
        decreases width - k,
    {
        push_char(&mut r, ' ');
        proof {
            assert(s@ + Seq::new((k + 1 - n) as nat, |i: int| ' ') =~= (s@ + Seq::new(
                (k - n) as nat,
                |i: int| ' ',
            )).push(' '));
        }
        k = k + 1;
    }
    proof {
        if n >= width {
            assert(r@ =~= s@);
        }
    }
    r
}

/// A string holding the characters of `v` in order.
pub fn string_from_chars(v: &Vec<char>) -> (s: String)
    ensures
        s@ == v@,
{
    let mut s = String::new();
    let mut i: usize = 0;
    while i < v.len()
        invariant
            i <= v.len(),
            s@ == v@.take(i as int),
        decreases v.len() - i,
    {
        push_char(&mut s, v[i]);
        assert(v@.take(i as int).push(v@[i as int]) =~= v@.take(i + 1));
        i = i + 1;
    }
    assert(v@.take(v.len() as int) =~= v@);
    s
}

proof fn lemma_digit_char_is_digit(d: nat)
    requires
        d < 10,
    ensures
        is_digit(digit_char(d)),
        digit_value(digit_char(d)) == d,
{
}

fn digit_of(d: u64) -> (c: char)
    requires
        d < 10,
    ensures
        c == digit_char(d as nat),
{
    let b: u8 = (d as u8) + 48u8;
    b as char
}

fn nat_chars(n: u64) -> (v: Vec<char>)
    ensures
        v@ == nat_text(n as nat),
    decreases n,
{
    if n < 10 {
        let mut v: Vec<char> = Vec::new();
        v.push(digit_of(n));
        v
    } else {
        let mut v = nat_chars(n / 10);
        v.push(digit_of(n % 10));
        v
    }
}

/// Decimal text of a non-negative integer.
pub fn format_u64(n: u64) -> (s: String)
    ensures
        s@ == nat_text(n as nat),
{
    let v = nat_chars(n);
    string_from_chars(&v)
}

/// Decimal text of an `i32`, as `i32::to_string` gives it.
pub fn format_i32(i: i32) -> (s: String)
    ensures
        s@ == int_text(i as int),
{
    if i < 0 {
        let mag: u64 = (0i64 - (i as i64)) as u64;
        let mut v: Vec<char> = Vec::new();
        v.push('-');
        let mut d = nat_chars(mag);
        v.append(&mut d);
        assert(v@ =~= seq!['-'] + nat_text(mag as nat));
        string_from_chars(&v)
    } else {
        format_u64(i as u64)
    }
}

/// Decimal text of a `u32`.
pub fn format_u32(n: u32) -> (s: String)
    ensures
        s@ == nat_text(n as nat),
{
    format_u64(n as u64)
}

proof fn lemma_digits_value_prefix_monotone(s: Seq<char>, i: int, j: int)
    requires
        0 <= i <= j <= s.len(),
    ensures
        digits_value(s.take(i)) <= digits_value(s.take(j)),
    decreases j - i,
{
    if i < j {
        lemma_digits_value_prefix_monotone(s, i, j - 1);
        assert(s.take(j).drop_last() =~= s.take(j - 1));
    }
}

/// The value of the ASCII digits `s[start..]`, when every one of them is a
/// digit and the value is at most `bound`.
fn digits_at_most(s: &str, start: usize, bound: u64) -> (r: Option<u64>)
    requires
        start <= s@.len(),
        bound <= 0x8000_0000_0000_0000,
    ensures
        match r {
            Some(v) => all_digits(s@.skip(start as int)) && v == digits_value(
                s@.skip(start as int),
            ) && v <= bound,
            None => !all_digits(s@.skip(start as int)) || digits_value(s@.skip(start as int))
                > bound,
        },
{
    let n = s.unicode_len();
    let ghost body = s@.skip(start as int);
    let mut acc: u128 = 0;
    let mut i: usize = start;
    while i < n
        invariant
            n == s@.len(),
            start <= i <= n,
            body == s@.skip(start as int),
            bound <= 0x8000_0000_0000_0000,
            all_digits(body.take(i - start)),
            acc == digits_value(body.take(i - start)),
            acc <= bound,
        decreases n - i,
    {
        let c = s.get_char(i);
        if c < '0' || c > '9' {
            assert(body[i - start] == c);
            assert(!is_digit(body[i - start as int]));
            return None;
        }
        let d = (c as u32 - 48) as u128;
        proof {
            assert(body.take(i - start + 1).drop_last() =~= body.take(i - start));
            assert(body.take(i - start + 1).last() == c);
        }
        let next: u128 = acc * 10 + d;
        if next > bound as u128 {
            proof {
                lemma_digits_value_prefix_monotone(body, i - start + 1, body.len() as int);
                assert(body.take(body.len() as int) =~= body);
            }
            return None;
        }
        acc = next;
        i = i + 1;
        proof {
            assert forall|k: int| 0 <= k < body.take(i - start).len() implies is_digit(
                #[trigger] body.take(i - start)[k],
            ) by {
                if k < i - 1 - start {
                    assert(body.take(i - start)[k] == body.take(i - 1 - start)[k]);
                }
            }
        }
    }
    assert(body.take(n - start) =~= body);
    Some(acc as u64)
}

/// `str::parse::<i32>`.
pub fn parse_i32(s: &str) -> (r: Option<i32>)
    ensures
        r == parse_i32_spec(s@),
{
    let n = s.unicode_len();
    if n == 0 {
        return None;
    }
    let c0 = s.get_char(0);
    if c0 == '+' || c0 == '-' {
        if n == 1 {
            return None;
        }
        let neg = c0 == '-';
        let bound: u64 = if neg { 0x8000_0000 } else { 0x7fff_ffff };
        let r = digits_at_most(s, 1, bound);
        assert(s@.skip(1) =~= s@.drop_first());
        match r {
            Some(v) => {
                if neg {
                    Some((0i64 - (v as i64)) as i32)
                } else {
                    Some(v as i32)
                }
            },
            None => None,
        }
    } else {
        let r = digits_at_most(s, 0, 0x7fff_ffff);
        assert(s@.skip(0) =~= s@);
        match r {
            Some(v) => Some(v as i32),
            None => None,
        }
    }
}

/// `str::parse::<i64>`.
pub fn parse_i64(s: &str) -> (r: Option<i64>)
    ensures
        r == parse_i64_spec(s@),
{
    let n = s.unicode_len();
    if n == 0 {
        return None;
    }
    let c0 = s.get_char(0);
    if c0 == '+' || c0 == '-' {
        if n == 1 {
            return None;
        }
        let neg = c0 == '-';
        let bound: u64 = if neg { 0x8000_0000_0000_0000 } else { 0x7fff_ffff_ffff_ffff };
        let r = digits_at_most(s, 1, bound);
        assert(s@.skip(1) =~= s@.drop_first());
        match r {
            Some(v) => {
                if neg {
                    if v == 0x8000_0000_0000_0000 {
                        Some(i64::MIN)
                    } else {
                        Some(0i64 - (v as i64))
                    }
                } else {
                    Some(v as i64)
                }
            },
            None => None,
        }
    } else {
        let r = digits_at_most(s, 0, 0x7fff_ffff_ffff_ffff);
        assert(s@.skip(0) =~= s@);
        match r {
            Some(v) => Some(v as i64),
            None => None,
        }
    }
}

/// `str::parse::<u32>`.
pub fn parse_u32(s: &str) -> (r: Option<u32>)
    ensures
        r == parse_u32_spec(s@),
{
    let n = s.unicode_len();
    if n == 0 {
        return None;
    }
    let c0 = s.get_char(0);
    if c0 == '+' {
        if n == 1 {
            return None;
        }
        let r = digits_at_most(s, 1, 0xffff_ffff);
        assert(s@.skip(1) =~= s@.drop_first());
        match r {
            Some(v) => Some(v as u32),
            None => None,
        }
    } else {
        let r = digits_at_most(s, 0, 0xffff_ffff);
        assert(s@.skip(0) =~= s@);
        match r {
            Some(v) => Some(v as u32),
            None => None,
        }
    }
}

/// The decimal text of a natural number is made of digits and denotes it.
pub proof fn lemma_nat_text_digits(n: nat)
    ensures
        nat_text(n).len() > 0,
        all_digits(nat_text(n)),
        digits_value(nat_text(n)) == n,
    decreases n,
{
    if n < 10 {
        lemma_digit_char_is_digit(n);
        assert(nat_text(n).drop_last() =~= Seq::<char>::empty());
        assert(digits_value(Seq::<char>::empty()) == 0);
        assert(nat_text(n).last() == digit_char(n));
    } else {
        lemma_nat_text_digits(n / 10);
        lemma_digit_char_is_digit(n % 10);
        let t = nat_text(n);
        assert(t.drop_last() =~= nat_text(n / 10));
        assert(t.last() == digit_char(n % 10));
        assert(digits_value(t) == digits_value(nat_text(n / 10)) * 10 + digit_value(t.last()));
        assert((n / 10) * 10 + n % 10 == n);
        assert forall|i: int| 0 <= i < t.len() implies is_digit(#[trigger] t[i]) by {
            if i < t.len() - 1 {
                assert(t[i] == nat_text(n / 10)[i]);
            }
        }
    }
}

/// Reading back the decimal text of an `i32` gives the same `i32`.
pub proof fn lemma_parse_format_i32(i: i32)
    ensures
        parse_i32_spec(int_text(i as int)) == Some(i),
{
    if i < 0 {
        let m = (-i) as nat;
        lemma_nat_text_digits(m);
        let t = int_text(i as int);
        assert(t[0] == '-');
        assert(t.drop_first() =~= nat_text(m));
    } else {
        lemma_nat_text_digits(i as nat);
        let t = nat_text(i as nat);
        assert(is_digit(t[0]));
    }
}

/// Reading back the decimal text of a `u32` gives the same `u32`.
pub proof fn lemma_parse_format_u32(n: u32)
    ensures
        parse_u32_spec(nat_text(n as nat)) == Some(n),
{
    lemma_nat_text_digits(n as nat);
    assert(is_digit(nat_text(n as nat)[0]));
}

} // verus!
