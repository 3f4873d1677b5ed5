//! Showing raw serial bytes as text: valid UTF-8 is decoded and control
//! characters are escaped, invalid byte sequences are shown as `\xNN`.

use vstd::prelude::*;
use vstd::utf8::{decode_utf8, encode_utf8, valid_utf8};
use crate::numfmt::{hex_text, push_hex};
use crate::text::string_push;

verus! {

/// How characters are escaped.
#[derive(Debug, Clone, Copy, PartialEq, Eq, Structural)]
pub enum CharStyle {
    /// For exported logs: CR, LF and tab as `\r`, `\n`, `\t`.
    Export,
    /// For the screen: CR and LF dropped, tab as two spaces.
    Display,
}

/// `char::is_control`: the Unicode `Cc` category.
pub open spec fn is_control(c: char) -> bool {
    (c as u32) <= 0x1F || (0x7F <= (c as u32) && (c as u32) <= 0x9F)
}

/// The text a character becomes.
pub open spec fn escaped_char(c: char, style: CharStyle) -> Seq<char> {
    match style {
        CharStyle::Export => if c == '\r' {
            "\\r"@
        } else if c == '\n' {
            "\\n"@
        } else if c == '\t' {
            "\\t"@
        } else if is_control(c) {
            "["@ + hex_text(c as nat, 2) + "]"@
        } else {
            seq![c]
        },
        CharStyle::Display => if c == '\r' || c == '\n' {
            Seq::empty()
        } else if c == '\t' {
            "  "@
        } else if is_control(c) {
            "["@ + hex_text(c as nat, 2) + "]"@
        } else {
            seq![c]
        },
    }
}

/// The characters, each escaped.
pub open spec fn escaped(cs: Seq<char>, style: CharStyle) -> Seq<char>
    decreases cs.len(),
{
    if cs.len() == 0 {
        Seq::empty()
    } else {
        escaped(cs.drop_last(), style) + escaped_char(cs.last(), style)
    }
}

/// Each byte as `\xNN`.
pub open spec fn byte_escapes(bs: Seq<u8>) -> Seq<char>
    decreases bs.len(),
{
    if bs.len() == 0 {
        Seq::empty()
    } else {
        byte_escapes(bs.drop_last()) + "\\x"@ + hex_text(bs.last() as nat, 2)
    }
}

/// `k` is the length of the longest prefix of `b` that is valid UTF-8.
pub open spec fn is_valid_prefix_len(b: Seq<u8>, k: nat) -> bool {
    k <= b.len() && valid_utf8(b.take(k as int)) && forall|j: nat|
        k < j <= b.len() ==> !valid_utf8(#[trigger] b.take(j as int))
}

/// The longest prefix of `b` that is valid UTF-8 (what
/// `Utf8Error::valid_up_to` reports).
pub open spec fn valid_prefix_len(b: Seq<u8>) -> nat {
    choose|k: nat| is_valid_prefix_len(b, k)
}

proof fn lemma_valid_prefix_len(b: Seq<u8>, k: nat)
    requires
        is_valid_prefix_len(b, k),
    ensures
        valid_prefix_len(b) == k,
{
    let c = valid_prefix_len(b);
    assert(is_valid_prefix_len(b, c));
    if c < k {
        assert(!valid_utf8(b.take(k as int)));
    } else if c > k {
        assert(!valid_utf8(b.take(c as int)));
    }
}

/// `Utf8Error::error_len` of `std::str::from_utf8(b)`, for bytes that are
/// not valid UTF-8: the length of the invalid sequence after the valid
/// prefix, or `None` when the input ends in the middle of a character.
pub uninterp spec fn utf8_error_len(b: Seq<u8>) -> Option<nat>;

/// `std::str::from_utf8` on `bytes[start..]`: the decoded text when the
/// rest is valid UTF-8, else the valid prefix's length and the error
/// length. As documented, the valid prefix is the longest one; an invalid
/// sequence it reports is not empty and lies inside the bytes, and when
/// none is reported (the input ends inside a character) 1 to 3 bytes follow
/// the valid prefix. How long a reported sequence is is named, not stated.
#[verifier::external_body]
fn utf8_prefix(bytes: &[u8], start: usize) -> (r: Result<String, (usize, Option<usize>)>)
    requires
        start <= bytes@.len(),
    ensures
        r is Ok <==> valid_utf8(bytes@.skip(start as int)),
        r matches Ok(text) ==> text@ == decode_utf8(bytes@.skip(start as int)),
        r matches Err((up, el)) ==> {
            let rest = bytes@.skip(start as int);
            &&& is_valid_prefix_len(rest, up as nat)
            &&& match el {
                Some(n) => utf8_error_len(rest) == Some(n as nat) && n >= 1 && up + n <= rest.len(),
                None => utf8_error_len(rest) is None && 1 <= rest.len() - up <= 3,
            }
        },
{
    match std::str::from_utf8(&bytes[start..]) {
        Ok(s) => Ok(s.to_string()),
        Err(e) => Err((e.valid_up_to(), e.error_len())),
    }
}

/// The bytes `bytes[from..to]` copied out.
fn byte_range(bytes: &[u8], from: usize, to: usize) -> (v: Vec<u8>)
    requires
        from <= to <= bytes@.len(),
    ensures
        v@ == bytes@.subrange(from as int, to as int),
{
    let mut v: Vec<u8> = Vec::new();
    let mut i = from;
    while i < to
        invariant
            from <= i <= to <= bytes@.len(),
            v@ == bytes@.subrange(from as int, i as int),
        decreases to - i,
    {
        v.push(bytes[i]);
        proof {
            assert(bytes@.subrange(from as int, i + 1) =~= bytes@.subrange(from as int, i as int).push(
                bytes@[i as int],
            ));
        }
        i = i + 1;
    }
    v
}

/// The valid UTF-8 bytes `bytes[from..to]` decoded.
fn decoded_range(bytes: &[u8], from: usize, to: usize) -> (s: String)
    requires
        from <= to <= bytes@.len(),
        valid_utf8(bytes@.subrange(from as int, to as int)),
    ensures
        s@ == decode_utf8(bytes@.subrange(from as int, to as int)),
{
    match crate::image::utf8_to_string(byte_range(bytes, from, to)) {
        Some(t) => t,
        None => String::new(),
    }
}

/// Raw bytes shown as text: valid UTF-8 decoded and escaped, then each
/// invalid sequence (one byte when the input ends mid-character) as
/// `\xNN`, and on with the rest.
pub open spec fn lossy_text(raw: Seq<u8>, style: CharStyle) -> Seq<char>
    decreases raw.len(),
{
    if valid_utf8(raw) {
        escaped(decode_utf8(raw), style)
    } else {
        let up = valid_prefix_len(raw);
        let bad: nat = match utf8_error_len(raw) {
            Some(n) => n,
            None => 1,
        };
        if bad >= 1 && up + bad <= raw.len() {
            escaped(decode_utf8(raw.take(up as int)), style) + byte_escapes(
                raw.subrange(up as int, (up + bad) as int),
            ) + lossy_text(raw.skip((up + bad) as int), style)
        } else {
            Seq::empty()
        }
    }
}

proof fn lemma_plain_not_escaped(s: Seq<char>, style: CharStyle)
    requires
        forall|i: int| 0 <= i < s.len() ==> !is_control(#[trigger] s[i]),
    ensures
        escaped(s, style) == s,
    decreases s.len(),
{
    if s.len() > 0 {
        lemma_plain_not_escaped(s.drop_last(), style);
        assert(!is_control(s[s.len() - 1]));
        assert(s.drop_last().push(s.last()) =~= s);
    }
}

/// Text without control characters is shown and exported exactly as it
/// is: its UTF-8 bytes decode back to it and nothing in it is escaped.
pub proof fn law_plain_text_unchanged(s: Seq<char>, style: CharStyle)
    requires
        forall|i: int| 0 <= i < s.len() ==> !is_control(#[trigger] s[i]),
    ensures
        lossy_text(encode_utf8(s), style) == s,
{
    vstd::utf8::encode_utf8_valid_utf8(s);
    vstd::utf8::encode_utf8_decode_utf8(s);
    lemma_plain_not_escaped(s, style);
}

fn push_escaped_char(out: &mut String, c: char, style: CharStyle)
    ensures
        final(out)@ == old(out)@ + escaped_char(c, style),
{
    let ghost start = out@;
    let code = c as u32;
    let control = code <= 0x1F || (0x7F <= code && code <= 0x9F);
    match style {
        CharStyle::Export => {
            if c == '\r' {
                out.append("\\r");
            } else if c == '\n' {
                out.append("\\n");
            } else if c == '\t' {
                out.append("\\t");
            } else if control {
                out.append("[");
                push_hex(out, code as u64, 2);
                out.append("]");
            } else {
                string_push(out, c);
            }
        },
        CharStyle::Display => {
            if c == '\r' || c == '\n' {
            } else if c == '\t' {
                out.append("  ");
            } else if control {
                out.append("[");
                push_hex(out, code as u64, 2);
                out.append("]");
            } else {
                string_push(out, c);
            }
        },
    }
    proof {
        assert(out@ =~= start + escaped_char(c, style));
    }
}

fn push_escaped(out: &mut String, text: &str, style: CharStyle)
    ensures
        final(out)@ == old(out)@ + escaped(text@, style),
{
    let n = text.unicode_len();
    let ghost start = out@;
    let mut i: usize = 0;
    proof {
        assert(text@.take(0) =~= Seq::<char>::empty());
        assert(out@ =~= start + escaped(text@.take(0), style));
    }
    while i < n
        invariant
            n == text@.len(),
            i <= n,
            out@ == start + escaped(text@.take(i as int), style),
        decreases n - i,
    {
        let c = text.get_char(i);
        push_escaped_char(out, c, style);
        proof {
            assert(text@.take(i + 1).drop_last() =~= text@.take(i as int));
            assert(out@ =~= start + escaped(text@.take(i + 1), style));
        }
        i = i + 1;
    }
    proof {
        assert(text@.take(n as int) =~= text@);
    }
}

fn push_byte_escapes(out: &mut String, bytes: &[u8], from: usize, to: usize)
    requires
        from <= to <= bytes@.len(),
    ensures
        final(out)@ == old(out)@ + byte_escapes(bytes@.subrange(from as int, to as int)),
{
    let ghost start = out@;
    let mut i = from;
    proof {
        assert(bytes@.subrange(from as int, from as int) =~= Seq::<u8>::empty());
        assert(out@ =~= start + byte_escapes(bytes@.subrange(from as int, from as int)));
    }
    while i < to
        invariant
            from <= i <= to <= bytes@.len(),
            out@ == start + byte_escapes(bytes@.subrange(from as int, i as int)),
        decreases to - i,
    {
        out.append("\\x");
        push_hex(out, bytes[i] as u64, 2);
        proof {
            assert(bytes@.subrange(from as int, i + 1).drop_last() =~= bytes@.subrange(from as int, i as int));
            assert(out@ =~= start + byte_escapes(bytes@.subrange(from as int, i + 1)));
        }
        i = i + 1;
    }
}

/// Shows raw bytes as text in the given style.
#[verifier::rlimit(40)]
pub fn decode_lossy(raw: &[u8], style: CharStyle) -> (s: String)
    ensures
        s@ == lossy_text(raw@, style),
{
    let mut out = String::new();
    let mut i: usize = 0;
    proof {
        assert(raw@.skip(0) =~= raw@);
        assert(out@ + lossy_text(raw@, style) =~= lossy_text(raw@, style));
    }
    while i < raw.len()
        invariant
            i <= raw@.len(),
            lossy_text(raw@, style) == out@ + lossy_text(raw@.skip(i as int), style),
        decreases raw@.len() - i,
    {
        let ghost rest = raw@.skip(i as int);
        match utf8_prefix(raw, i) {
            Ok(text) => {
                push_escaped(&mut out, text.as_str(), style);
                proof {
                    assert(raw@.skip(raw@.len() as int) =~= Seq::<u8>::empty());
                    assert(out@ =~= out@ + lossy_text(Seq::<u8>::empty(), style));
                }
                i = raw.len();
            },
            Err((up, el)) => {
                proof {
                    lemma_valid_prefix_len(rest, up as nat);
                    assert(rest.len() == raw@.len() - i);
                    if up == rest.len() {
                        assert(rest.take(up as int) =~= rest);
                        assert(false);
                    }
                    assert(up < rest.len());
                }
                proof {
                    assert(raw@.subrange(i as int, (i + up) as int) =~= rest.take(up as int));
                }
                let text = decoded_range(raw, i, i + up);
                push_escaped(&mut out, text.as_str(), style);
                let bad = match el {
                    Some(n) => n,
                    None => 1,
                };
                push_byte_escapes(&mut out, raw, i + up, i + up + bad);
                proof {
                    assert(rest.subrange(up as int, (up + bad) as int) =~= raw@.subrange(
                        (i + up) as int,
                        (i + up + bad) as int,
                    ));
                    assert(rest.skip((up + bad) as int) =~= raw@.skip((i + up + bad) as int));
                }
                i = i + up + bad;
            },
        }
    }
    proof {
        assert(raw@.skip(i as int) =~= Seq::<u8>::empty());
    }
    out
}

/// A raw log line as exported text.
pub fn decode_export_text(raw: &[u8]) -> (s: String)
    ensures
        s@ == lossy_text(raw@, CharStyle::Export),
{
    decode_lossy(raw, CharStyle::Export)
}

/// A raw log line as shown on screen.
pub fn decode_utf8_display(raw: &[u8]) -> (s: String)
    ensures
        s@ == lossy_text(raw@, CharStyle::Display),
{
    decode_lossy(raw, CharStyle::Display)
}

} // verus!
