//! Numbers written as text: the decimal and lowercase hexadecimal forms that
//! addresses, identifiers, timestamps and tokens are made of, and the reading
//! of a decimal port number back from text.
use vstd::prelude::*;
use vstd::string::*;

verus! {

/// The character for digit `d` (`0`-`9`, then `a`-`f`).
pub open spec fn digit_char(d: nat) -> char {
    if d < 10 {
        (d + 48) as char
    } else {
        (d + 87) as char
    }
}

/// The value of a digit character, for `0`-`9` and `a`-`f`.
pub open spec fn char_value(c: char) -> int {
    if (c as int) <= 57 {
        (c as int) - 48
    } else {
        (c as int) - 87
    }
}

/// `n` written in `base` (10 or 16) with no leading zeros; zero is a single `0`.
pub open spec fn digits(n: nat, base: nat) -> Seq<char>
    decreases n,
{
    if base < 2 || n < base {
        seq![digit_char(n)]
    } else {
        proof {
            assert(n / base < n) by (nonlinear_arith)
                requires
                    base >= 2,
                    n >= base,
            ;
        }
        digits(n / base, base).push(digit_char(n % base))
    }
}

/// The decimal form of `n`.
pub open spec fn decimal(n: nat) -> Seq<char> {
    digits(n, 10)
}

/// The lowercase hexadecimal form of `n`, as `{:x}` writes it.
pub open spec fn hex(n: nat) -> Seq<char> {
    digits(n, 16)
}

/// The number that a sequence of digit characters stands for in `base`.
pub open spec fn digits_value(s: Seq<char>, base: nat) -> int
    decreases s.len(),
{
    if s.len() == 0 {
        0
    } else {
        digits_value(s.drop_last(), base) * base + char_value(s.last())
    }
}

pub open spec fn is_decimal_digit(c: char) -> bool {
    48 <= (c as int) && (c as int) <= 57
}

pub open spec fn all_decimal_digits(s: Seq<char>) -> bool {
    forall|i: int| 0 <= i < s.len() ==> is_decimal_digit(#[trigger] s[i])
}

/// What is left of a number's text once one leading `+` is taken off.
pub open spec fn unsigned_body(s: Seq<char>) -> Seq<char> {
    if s.len() > 0 && s[0] == '+' {
        s.skip(1)
    } else {
        s
    }
}

/// The number that `s` denotes as an unsigned decimal number no larger than
/// `max`: an optional `+` followed by one or more ASCII digits. No spaces,
/// no `-`, nothing else.
pub open spec fn parse_decimal_spec(s: Seq<char>, max: nat) -> Option<nat> {
    let body = unsigned_body(s);
    if body.len() > 0 && all_decimal_digits(body) && digits_value(body, 10) <= max {
        Some(digits_value(body, 10) as nat)
    } else {
        None
    }
}

/// The `u16` that `s` denotes, as `str::parse::<u16>` reads it.
pub open spec fn parse_u16_spec(s: Seq<char>) -> Option<u16> {
    match parse_decimal_spec(s, 0xffff) {
        Some(v) => Some(v as u16),
        None => None,
    }
}

/// The `u64` that `s` denotes, as `str::parse::<u64>` reads it.
pub open spec fn parse_u64_spec(s: Seq<char>) -> Option<u64> {
    match parse_decimal_spec(s, 0xffff_ffff_ffff_ffff) {
        Some(v) => Some(v as u64),
        None => None,
    }
}

/// The one-character string for digit `d`.
fn digit_str(d: u128) -> (r: &'static str)
    requires
        d < 16,
    ensures
        r@ == seq![digit_char(d as nat)],
{
    proof {
        reveal_strlit("0");
        reveal_strlit("1");
        reveal_strlit("2");
        reveal_strlit("3");
        reveal_strlit("4");
        reveal_strlit("5");
        reveal_strlit("6");
        reveal_strlit("7");
        reveal_strlit("8");
        reveal_strlit("9");
        reveal_strlit("a");
        reveal_strlit("b");
        reveal_strlit("c");
        reveal_strlit("d");
        reveal_strlit("e");
        reveal_strlit("f");
    }
    if d == 0 {
        "0"
    } else if d == 1 {
        "1"
    } else if d == 2 {
        "2"
    } else if d == 3 {
        "3"
    } else if d == 4 {
        "4"
    } else if d == 5 {
        "5"
    } else if d == 6 {
        "6"
    } else if d == 7 {
        "7"
    } else if d == 8 {
        "8"
    } else if d == 9 {
        "9"
    } else if d == 10 {
        "a"
    } else if d == 11 {
        "b"
    } else if d == 12 {
        "c"
    } else if d == 13 {
        "d"
    } else if d == 14 {
        "e"
    } else {
        "f"
    }
}

/// Appends the digits of `n` in `base` to `s`.
fn push_digits(s: &mut String, n: u128, base: u128)
    requires
        base == 10 || base == 16,
    ensures
        final(s)@ == old(s)@ + digits(n as nat, base as nat),
    decreases n,
{
    if n >= base {
        push_digits(s, n / base, base);
    }
    let d = digit_str(n % base);
    s.append(d);
    proof {
        if n >= base {
            assert(digits(n as nat, base as nat) == digits((n / base) as nat, base as nat).push(
                digit_char((n % base) as nat),
            ));
        }
    }
}

/// `n` in decimal, as `{}` writes it.
pub fn decimal_string(n: u128) -> (r: String)
    ensures
        r@ == decimal(n as nat),
{
    let mut s = String::new();
    push_digits(&mut s, n, 10);
    s
}

/// `n` in lowercase hexadecimal, as `{:x}` writes it.
pub fn hex_string(n: u128) -> (r: String)
    ensures
        r@ == hex(n as nat),
{
    let mut s = String::new();
    push_digits(&mut s, n, 16);
    s
}

/// Reads `s` as an unsigned decimal number no larger than `max`: `None` for
/// empty text, anything but digits after an optional `+`, or a value above
/// `max`.
fn parse_decimal(s: &str, max: u64) -> (r: Option<u64>)
    ensures
        match r {
            Some(v) => parse_decimal_spec(s@, max as nat) == Some(v as nat),
            None => parse_decimal_spec(s@, max as nat) is None,
        },
{
    let n = s.unicode_len();
    let mut start: usize = 0;
    if n > 0 && s.get_char(0) == '+' {
        start = 1;
    }
    let ghost body = unsigned_body(s@);
    assert(body == s@.subrange(start as int, n as int));
    if start >= n {
        return None;
    }
    let mut i: usize = start;
    let mut v: u128 = 0;
    while i < n
        invariant
            start <= i <= n,
            n == s@.len(),
            body == s@.subrange(start as int, n as int),
            body == unsigned_body(s@),
            v as int == digits_value(s@.subrange(start as int, i as int), 10),
            v <= max,
            all_decimal_digits(s@.subrange(start as int, i as int)),
        decreases n - i,
    {
        let c = s.get_char(i);
        let cv = c as u32;
        let d = (cv as u128);
        if cv < 48 || cv > 57 {
            assert(body[i - start] == c);
            assert(!is_decimal_digit(body[i - start]));
            return None;
        }
        let ghost prev = s@.subrange(start as int, i as int);
        let ghost next = s@.subrange(start as int, i + 1);
        assert(next.drop_last() == prev);
        assert(next.last() == c);
        v = v * 10 + (d - 48);
        assert(all_decimal_digits(next)) by {
            assert forall|k: int| 0 <= k < next.len() implies is_decimal_digit(#[trigger] next[k]) by {
                if k < prev.len() {
                    assert(next[k] == prev[k]);
                }
            }
        }
        if v > max as u128 {
            proof {
                assert(next == body.take(i + 1 - start));
                if all_decimal_digits(body) {
                    lemma_prefix_value_le(body, (i + 1 - start) as int);
                }
            }
            return None;
        }
        i = i + 1;
    }
    assert(s@.subrange(start as int, n as int) == body);
    Some(v as u64)
}

/// Reads `s` as an unsigned 16-bit decimal number, the way `str::parse::<u16>`
/// does.
pub fn parse_u16(s: &str) -> (r: Option<u16>)
    ensures
        r == parse_u16_spec(s@),
{
    match parse_decimal(s, 0xffff) {
        Some(v) => Some(v as u16),
        None => None,
    }
}

/// Reads `s` as an unsigned 64-bit decimal number, the way `str::parse::<u64>`
/// does.
pub fn parse_u64(s: &str) -> (r: Option<u64>)
    ensures
        r == parse_u64_spec(s@),
{
    parse_decimal(s, 0xffff_ffff_ffff_ffff)
}

/// Over digits only, a number is at least as large as any of its prefixes.
proof fn lemma_prefix_value_le(s: Seq<char>, k: int)
    requires
        0 <= k <= s.len(),
        all_decimal_digits(s),
    ensures
        digits_value(s.take(k), 10) <= digits_value(s, 10),
    decreases s.len(),
{
    if k < s.len() {
        let t = s.drop_last();
        assert(all_decimal_digits(t)) by {
            assert forall|j: int| 0 <= j < t.len() implies is_decimal_digit(#[trigger] t[j]) by {
                assert(t[j] == s[j]);
            }
        }
        lemma_prefix_value_le(t, k);
        assert(t.take(k) == s.take(k));
        assert(is_decimal_digit(s[s.len() - 1]));
        assert(digits_value(t, 10) >= 0) by {
            lemma_value_nonneg(t);
        }
    } else {
        assert(s.take(k) == s);
    }
}

proof fn lemma_value_nonneg(s: Seq<char>)
    requires
        all_decimal_digits(s),
    ensures
        digits_value(s, 10) >= 0,
    decreases s.len(),
{
    if s.len() > 0 {
        let t = s.drop_last();
        assert(all_decimal_digits(t)) by {
            assert forall|j: int| 0 <= j < t.len() implies is_decimal_digit(#[trigger] t[j]) by {
                assert(t[j] == s[j]);
            }
        }
        lemma_value_nonneg(t);
        assert(is_decimal_digit(s[s.len() - 1]));
    }
}

/// Each digit character stands for its own digit.
proof fn lemma_char_value_of_digit(d: nat)
    requires
        d < 16,
    ensures
        char_value(digit_char(d)) == d,
        d < 10 ==> is_decimal_digit(digit_char(d)),
{
}

/// Reading back the digits of `n` in `base` gives `n`; in base 10 they are
/// all decimal digits.
proof fn lemma_digits_value(n: nat, base: nat)
    requires
        base == 10 || base == 16,
    ensures
        digits_value(digits(n, base), base) == n,
        digits(n, base).len() > 0,
        base == 10 ==> all_decimal_digits(digits(n, base)),
    decreases n,
{
    if n < base {
        lemma_char_value_of_digit(n);
        let s = digits(n, base);
        assert(s.drop_last() =~= Seq::<char>::empty());
        assert(digits_value(s.drop_last(), base) == 0);
        assert(s.last() == digit_char(n));
        assert(digits_value(s, base) == digits_value(s.drop_last(), base) * base + char_value(s.last()));
    } else {
        let q = n / base;
        let r = n % base;
        assert(q < n && r < base && q * base + r == n) by (nonlinear_arith)
            requires
                base == 10 || base == 16,
                n >= base,
                q == n / base,
                r == n % base,
        ;
        lemma_digits_value(q, base);
        lemma_char_value_of_digit(r);
        let s = digits(n, base);
        assert(s == digits(q, base).push(digit_char(r)));
        assert(s.drop_last() == digits(q, base));
        assert(s.last() == digit_char(r));
        assert(digits_value(s, base) == q * base + r);
        if base == 10 {
            assert forall|i: int| 0 <= i < s.len() implies is_decimal_digit(#[trigger] s[i]) by {
                if i < s.len() - 1 {
                    assert(s[i] == digits(q, base)[i]);
                }
            }
        }
    }
}

/// A port written in decimal reads back as the same port.
pub proof fn lemma_port_text_round_trip(port: u16)
    ensures
        parse_u16_spec(decimal(port as nat)) == Some(port),
{
    let s = decimal(port as nat);
    lemma_digits_value(port as nat, 10);
    assert(is_decimal_digit(s[0]));
    assert(unsigned_body(s) == s);
}

/// Reading decimal text: the decimal form of `n`, with or without one
/// leading `+`, reads as `n` when `n` is at most the bound and as nothing
/// otherwise; empty text, a lone `+`, and text that starts with anything but
/// a digit or `+` read as nothing.
pub proof fn lemma_decimal_parse(n: nat, max: nat, s: Seq<char>)
    ensures
        parse_decimal_spec(decimal(n), max) == (if n <= max {
            Some(n)
        } else {
            None
        }),
        parse_decimal_spec(seq!['+'] + decimal(n), max) == (if n <= max {
            Some(n)
        } else {
            None
        }),
        parse_decimal_spec(Seq::<char>::empty(), max) is None,
        parse_decimal_spec(seq!['+'], max) is None,
        (s.len() > 0 && s[0] != '+' && !(48 <= (s[0] as int) && (s[0] as int) <= 57))
            ==> parse_decimal_spec(s, max) is None,
        (s.len() > 0 && s.last() == ' ') ==> parse_decimal_spec(s, max) is None,
{
    let d = decimal(n);
    lemma_digits_value(n, 10);
    assert(is_decimal_digit(d[0]));
    assert(unsigned_body(d) == d);
    let p = seq!['+'] + d;
    assert(p[0] == '+');
    assert(p.skip(1) =~= d);
    assert(unsigned_body(seq!['+']) =~= Seq::<char>::empty());
    if s.len() > 0 && s[0] != '+' && !(48 <= (s[0] as int) && (s[0] as int) <= 57) {
        assert(unsigned_body(s) == s);
        assert(!is_decimal_digit(s[0]));
    }
    if s.len() > 0 && s.last() == ' ' {
        let b = unsigned_body(s);
        if b.len() > 0 {
            assert(b[b.len() - 1] == s.last());
            assert(!is_decimal_digit(b[b.len() - 1]));
        }
    }
}

/// Every 64-bit number written in decimal reads back as itself.
pub proof fn lemma_u64_text_round_trip(n: u64)
    ensures
        parse_u64_spec(decimal(n as nat)) == Some(n),
{
    lemma_decimal_parse(n as nat, 0xffff_ffff_ffff_ffff, Seq::<char>::empty());
}

/// Different numbers have different hexadecimal forms.
pub proof fn lemma_hex_injective(a: nat, b: nat)
    requires
        hex(a) == hex(b),
    ensures
        a == b,
{
    lemma_digits_value(a, 16);
    lemma_digits_value(b, 16);
}


} // verus!
