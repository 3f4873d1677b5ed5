//! Whitespace trimming, unsigned integer parsing in a given radix (with the
//! rules of `u64::from_str_radix`), and decimal / hexadecimal formatting.

use vstd::prelude::*;
use crate::text::string_push;

verus! {

/// `char::is_whitespace`: the Unicode `White_Space` property.
pub open spec fn is_ws(c: char) -> bool {
    let v = c as u32;
    (0x09 <= v <= 0x0d) || v == 0x20 || v == 0x85 || v == 0xa0 || v == 0x1680 || (0x2000 <= v
        <= 0x200a) || v == 0x2028 || v == 0x2029 || v == 0x202f || v == 0x205f || v == 0x3000
}

/// Executable `is_ws`.
pub fn char_is_whitespace(c: char) -> (b: bool)
    ensures
        b == is_ws(c),
{
    let v = c as u32;
    (0x09 <= v && v <= 0x0d) || v == 0x20 || v == 0x85 || v == 0xa0 || v == 0x1680 || (0x2000 <= v
        && v <= 0x200a) || v == 0x2028 || v == 0x2029 || v == 0x202f || v == 0x205f || v == 0x3000
}

/// Number of leading whitespace characters of `s`.
pub open spec fn leading_ws(s: Seq<char>) -> nat
    decreases s.len(),
{
    if s.len() > 0 && is_ws(s[0]) {
        1 + leading_ws(s.drop_first())
    } else {
        0
    }
}

/// Number of trailing whitespace characters of `s`.
pub open spec fn trailing_ws(s: Seq<char>) -> nat
    decreases s.len(),
{
    if s.len() > 0 && is_ws(s.last()) {
        1 + trailing_ws(s.drop_last())
    } else {
        0
    }
}

/// `str::trim`: `s` without leading and trailing whitespace.
pub open spec fn trim(s: Seq<char>) -> Seq<char> {
    let t = s.skip(leading_ws(s) as int);
    t.take(t.len() - trailing_ws(t))
}

proof fn lemma_leading_ws(s: Seq<char>, i: int)
    requires
        0 <= i <= s.len(),
        forall|j: int| 0 <= j < i ==> is_ws(s[j]),
        i == s.len() || !is_ws(s[i]),
    ensures
        leading_ws(s) == i,
    decreases i,
{
    if i > 0 {
        lemma_leading_ws(s.drop_first(), i - 1);
    }
}

proof fn lemma_trailing_ws(s: Seq<char>, i: int)
    requires
        0 <= i <= s.len(),
        forall|j: int| s.len() - i <= j < s.len() ==> is_ws(s[j]),
        i == s.len() || !is_ws(s[s.len() - i - 1]),
    ensures
        trailing_ws(s) == i,
    decreases i,
{
    if i > 0 {
        lemma_trailing_ws(s.drop_last(), i - 1);
    }
}

/// Character range `[start, end)` of `s` that `str::trim` keeps.
pub fn trim_range(s: &str) -> (r: (usize, usize))
    ensures
        r.0 <= r.1 <= s@.len(),
        s@.subrange(r.0 as int, r.1 as int) == trim(s@),
{
    let n = s.unicode_len();
    let mut i: usize = 0;
    while i < n && char_is_whitespace(s.get_char(i))
        invariant
            i <= n == s@.len(),
            forall|j: int| 0 <= j < i ==> is_ws(s@[j]),
        decreases n - i,
    {
        i = i + 1;
    }
    let mut e: usize = n;
    while e > i && char_is_whitespace(s.get_char(e - 1))
        invariant
            i <= e <= n == s@.len(),
            forall|j: int| e <= j < n ==> is_ws(s@[j]),
        decreases e,
    {
        e = e - 1;
    }
    proof {
        lemma_leading_ws(s@, i as int);
        let t = s@.skip(i as int);
        lemma_trailing_ws(t, (n - e) as int);
        assert(t.take(t.len() - trailing_ws(t)) =~= s@.subrange(i as int, e as int));
    }
    (i, e)
}

/// `str::trim` into a new `String`.
pub fn trimmed(s: &str) -> (t: String)
    ensures
        t@ == trim(s@),
{
    let (start, end) = trim_range(s);
    String::from_str(s.substring_char(start, end))
}

/// Whether `s` holds nothing but whitespace (`s.trim().is_empty()`).
pub fn is_blank(s: &str) -> (b: bool)
    ensures
        b == (trim(s@).len() == 0),
{
    let (start, end) = trim_range(s);
    start == end
}

/// Value of digit `c` in `radix` (`char::to_digit`).
pub open spec fn digit_value(c: char, radix: nat) -> Option<nat> {
    let v = c as u32;
    let d: int = if 0x30 <= v <= 0x39 {
        v - 0x30
    } else if 0x61 <= v <= 0x7a {
        v - 0x61 + 10
    } else if 0x41 <= v <= 0x5a {
        v - 0x41 + 10
    } else {
        radix as int
    };
    if d < radix {
        Some(d as nat)
    } else {
        None
    }
}

/// Value of the digit string `s` in `radix`, or `None` if a character is not a digit.
pub open spec fn digits_value(s: Seq<char>, radix: nat) -> Option<nat>
    decreases s.len(),
{
    if s.len() == 0 {
        Some(0)
    } else {
        match digits_value(s.drop_last(), radix) {
            Some(v) => match digit_value(s.last(), radix) {
                Some(d) => Some(v * radix + d),
                None => None,
            },
            None => None,
        }
    }
}

/// `u64::from_str_radix(s, radix)` as an option: an optional `+` sign
/// followed by at least one digit, with a value that fits in 64 bits.
pub open spec fn parse_u64_radix(s: Seq<char>, radix: nat) -> Option<u64> {
    if s.len() == 0 || s == seq!['+'] {
        None
    } else {
        let d = if s[0] == '+' {
            s.drop_first()
        } else {
            s
        };
        match digits_value(d, radix) {
            Some(v) => if v <= u64::MAX {
                Some(v as u64)
            } else {
                None
            },
            None => None,
        }
    }
}

/// Executable `digit_value`.
pub fn char_to_digit(c: char, radix: u32) -> (r: Option<u32>)
    requires
        2 <= radix <= 36,
    ensures
        r matches Some(d) ==> digit_value(c, radix as nat) == Some(d as nat),
        r is None ==> digit_value(c, radix as nat) is None,
{
    let v = c as u32;
    let d: u32 = if 0x30 <= v && v <= 0x39 {
        v - 0x30
    } else if 0x61 <= v && v <= 0x7a {
        v - 0x61 + 10
    } else if 0x41 <= v && v <= 0x5a {
        v - 0x41 + 10
    } else {
        radix
    };
    if d < radix {
        Some(d)
    } else {
        None
    }
}

proof fn lemma_digits_prefix(s: Seq<char>, radix: nat, j: int)
    requires
        0 <= j <= s.len(),
        radix >= 1,
    ensures
        digits_value(s.take(j), radix) is None ==> digits_value(s, radix) is None,
        digits_value(s.take(j), radix) matches Some(p) ==> (digits_value(s, radix) is None
            || digits_value(s, radix)->0 >= p),
    decreases s.len() - j,
{
    if j == s.len() {
        assert(s.take(j) =~= s);
    } else {
        lemma_digits_prefix(s.drop_last(), radix, j);
        assert(s.drop_last().take(j) =~= s.take(j));
        if let Some(v) = digits_value(s.drop_last(), radix) {
            if let Some(d) = digit_value(s.last(), radix) {
                assert(v * radix + d >= v) by (nonlinear_arith)
                    requires
                        radix >= 1,
                        d >= 0,
                        v >= 0,
                ;
            }
        }
    }
}

/// Parses the characters `[start, end)` of `s` as `u64::from_str_radix` does.
pub fn parse_u64_in(s: &str, start: usize, end: usize, radix: u32) -> (r: Option<u64>)
    requires
        start <= end <= s@.len(),
        2 <= radix <= 36,
    ensures
        r == parse_u64_radix(s@.subrange(start as int, end as int), radix as nat),
{
    let ghost t = s@.subrange(start as int, end as int);
    if start == end {
        return None;
    }
    let mut i = start;
    if s.get_char(start) == '+' {
        if end - start == 1 {
            proof {
                assert(t =~= seq!['+']);
            }
            return None;
        }
        i = start + 1;
    }
    proof {
        if t[0] != '+' {
            assert(t != seq!['+']);
        }
    }
    let ghost d = s@.subrange(i as int, end as int);
    assert(d == (if t[0] == '+' { t.drop_first() } else { t }));
    let ghost i0 = i;
    let mut acc: u64 = 0;
    proof {
        assert(d.take(0) =~= Seq::<char>::empty());
    }
    while i < end
        invariant
            i0 <= i <= end <= s@.len(),
            d == s@.subrange(i0 as int, end as int),
            t == s@.subrange(start as int, end as int),
            t.len() > 0,
            t != seq!['+'],
            d == (if t[0] == '+' {
                t.drop_first()
            } else {
                t
            }),
            digits_value(d.take(i - i0), radix as nat) == Some(acc as nat),
            2 <= radix <= 36,
        decreases end - i,
    {
        let c = s.get_char(i);
        let ghost p = d.take(i - i0 + 1);
        proof {
            assert(p.drop_last() =~= d.take(i - i0));
            assert(p.last() == c);
        }
        match char_to_digit(c, radix) {
            None => {
                proof {
                    lemma_digits_prefix(d, radix as nat, i - i0 + 1);
                }
                return None;
            },
            Some(dv) => {
                assert((acc as u128) * (radix as u128) <= 0xffff_ffff_ffff_ffffu128 * 36)
                    by (nonlinear_arith)
                    requires
                        acc <= 0xffff_ffff_ffff_ffffu64,
                        radix <= 36,
                ;
                let next = (acc as u128) * (radix as u128) + (dv as u128);
                if next > u64::MAX as u128 {
                    proof {
                        lemma_digits_prefix(d, radix as nat, i - i0 + 1);
                    }
                    return None;
                }
                acc = next as u64;
            },
        }
        i = i + 1;
    }
    proof {
        assert(d.take(end - i0) =~= d);
    }
    Some(acc)
}

/// Decimal digit character for `d < 10`, or uppercase hex digit for `d < 16`.
pub open spec fn digit_char(d: nat) -> char {
    if d < 10 {
        (0x30 + d) as char
    } else {
        (0x41 + d - 10) as char
    }
}

/// Digits of `n` in `radix`, most significant first, without leading zeros
/// (a single `0` for zero).
pub open spec fn radix_digits(n: nat, radix: nat) -> Seq<char>
    decreases n,
{
    if n < radix || radix < 2 {
        seq![digit_char(n % 16)]
    } else {
        proof {
            assert(n / radix < n) by (nonlinear_arith)
                requires
                    n >= radix,
                    radix >= 2,
            ;
        }
        radix_digits(n / radix, radix).push(digit_char(n % radix))
    }
}

/// Decimal text of `n`, as `format!("{}", n)` writes it.
pub open spec fn decimal_text(n: nat) -> Seq<char> {
    radix_digits(n, 10)
}

/// Uppercase hexadecimal text of `n` left-padded with zeros to `width`
/// characters, as `format!("{:0width$X}", n)` writes it.
pub open spec fn hex_text(n: nat, width: nat) -> Seq<char> {
    let d = radix_digits(n, 16);
    if d.len() < width {
        Seq::new((width - d.len()) as nat, |i: int| '0') + d
    } else {
        d
    }
}

fn digit_to_char(d: u64) -> (c: char)
    requires
        d < 16,
    ensures
        c == digit_char(d as nat),
{
    if d < 10 {
        (0x30u8 + d as u8) as char
    } else {
        (0x41u8 + (d as u8 - 10)) as char
    }
}

/// Digits of `n` in `radix` (`2 <= radix <= 16`).
pub fn push_radix_digits(out: &mut String, n: u64, radix: u64)
    requires
        2 <= radix <= 16,
    ensures
        final(out)@ == old(out)@ + radix_digits(n as nat, radix as nat),
    decreases n,
{
    if n < radix {
        let c = digit_to_char(n);
        proof {
            assert(n % 16 == n);
        }
        string_push(out, c);
        proof {
            assert(old(out)@.push(c) =~= old(out)@ + seq![c]);
        }
    } else {
        proof {
            assert(n / radix < n) by (nonlinear_arith)
                requires
                    n >= radix,
                    radix >= 2,
            ;
        }
        push_radix_digits(out, n / radix, radix);
        let c = digit_to_char(n % radix);
        string_push(out, c);
        proof {
            assert(final(out)@ =~= old(out)@ + radix_digits(n as nat, radix as nat));
        }
    }
}

/// Appends the decimal text of `n`.
pub fn push_decimal(out: &mut String, n: u64)
    ensures
        final(out)@ == old(out)@ + decimal_text(n as nat),
{
    push_radix_digits(out, n, 10);
}

/// Appends the zero-padded uppercase hexadecimal text of `n`.
pub fn push_hex(out: &mut String, n: u64, width: usize)
    ensures
        final(out)@ == old(out)@ + hex_text(n as nat, width as nat),
{
    let mut digits = String::new();
    push_radix_digits(&mut digits, n, 16);
    let len = digits.as_str().unicode_len();
    let ghost start = out@;
    if len < width {
        let mut i = len;
        while i < width
            invariant
                len <= i <= width,
                out@ == start + Seq::new((i - len) as nat, |j: int| '0'),
            decreases width - i,
        {
            string_push(out, '0');
            proof {
                assert(out@ =~= start + Seq::new((i + 1 - len) as nat, |j: int| '0'));
            }
            i = i + 1;
        }
    }
    out.append(digits.as_str());
    proof {
        assert(final(out)@ =~= start + hex_text(n as nat, width as nat));
    }
}

} // verus!
