//! UTF-8 byte lengths of character sequences, and the correspondence between
//! byte offsets (as used by `String` cursors) and character positions.

use vstd::prelude::*;
use vstd::utf8::*;

verus! {

/// Number of bytes in the UTF-8 encoding of `c`.
pub open spec fn char_utf8_len(c: char) -> nat {
    let v = c as u32;
    if v <= 0x7f {
        1
    } else if v <= 0x7ff {
        2
    } else if v <= 0xffff {
        3
    } else {
        4
    }
}

/// Number of bytes in the UTF-8 encoding of `s`.
pub open spec fn utf8_len(s: Seq<char>) -> nat
    decreases s.len(),
{
    if s.len() == 0 {
        0
    } else {
        char_utf8_len(s[0]) + utf8_len(s.drop_first())
    }
}

/// The character position whose byte offset in `s` is `b`, if `b` falls on a
/// character boundary (the end of the text counts as a boundary).
pub open spec fn char_index_at(s: Seq<char>, b: int) -> Option<nat>
    decreases s.len(),
{
    if b == 0 {
        Some(0)
    } else if b < 0 || s.len() == 0 {
        None
    } else {
        match char_index_at(s.drop_first(), b - char_utf8_len(s[0])) {
            Some(k) => Some(k + 1),
            None => None,
        }
    }
}

/// `b` is a character boundary of `s`.
pub open spec fn is_boundary(s: Seq<char>, b: int) -> bool {
    char_index_at(s, b) is Some
}

pub proof fn lemma_char_utf8_len_bounds(c: char)
    ensures
        1 <= char_utf8_len(c) <= 4,
{
}

pub proof fn lemma_utf8_len_concat(a: Seq<char>, b: Seq<char>)
    ensures
        utf8_len(a + b) == utf8_len(a) + utf8_len(b),
    decreases a.len(),
{
    if a.len() == 0 {
        assert(a + b =~= b);
    } else {
        assert((a + b).drop_first() =~= a.drop_first() + b);
        lemma_utf8_len_concat(a.drop_first(), b);
    }
}

pub proof fn lemma_utf8_len_single(c: char)
    ensures
        utf8_len(seq![c]) == char_utf8_len(c),
{
    reveal_with_fuel(utf8_len, 2);
    assert(seq![c].drop_first() =~= Seq::<char>::empty());
}

/// The byte offset of character position `k + 1` is that of `k` plus the
/// length of character `k`.
pub proof fn lemma_prefix_step(s: Seq<char>, k: int)
    requires
        0 <= k < s.len(),
    ensures
        utf8_len(s.take(k + 1)) == utf8_len(s.take(k)) + char_utf8_len(s[k]),
{
    assert(s.take(k + 1) =~= s.take(k) + seq![s[k]]);
    lemma_utf8_len_concat(s.take(k), seq![s[k]]);
    lemma_utf8_len_single(s[k]);
}

/// Byte offsets of character positions grow strictly.
pub proof fn lemma_prefix_strictly_increasing(s: Seq<char>, i: int, j: int)
    requires
        0 <= i < j <= s.len(),
    ensures
        utf8_len(s.take(i)) < utf8_len(s.take(j)),
    decreases j - i,
{
    lemma_prefix_step(s, j - 1);
    if i < j - 1 {
        lemma_prefix_strictly_increasing(s, i, j - 1);
    }
}

pub proof fn lemma_utf8_len_full(s: Seq<char>)
    ensures
        utf8_len(s.take(s.len() as int)) == utf8_len(s),
{
    assert(s.take(s.len() as int) =~= s);
}

/// `char_index_at` finds exactly the position whose prefix has `b` bytes.
pub proof fn lemma_char_index_at(s: Seq<char>, b: int, k: int)
    requires
        0 <= k <= s.len(),
    ensures
        char_index_at(s, b) == Some(k as nat) <==> utf8_len(s.take(k)) == b,
    decreases s.len(),
{
    if k == 0 {
        assert(s.take(0) =~= Seq::<char>::empty());
    } else {
        let rest = s.drop_first();
        assert(s.take(k) =~= seq![s[0]] + rest.take(k - 1));
        lemma_utf8_len_concat(seq![s[0]], rest.take(k - 1));
        lemma_utf8_len_single(s[0]);
        lemma_char_index_at(rest, b - char_utf8_len(s[0]), k - 1);
    }
}

/// Whatever `char_index_at` returns is a valid character position.
pub proof fn lemma_char_index_at_range(s: Seq<char>, b: int)
    requires
        char_index_at(s, b) is Some,
    ensures
        char_index_at(s, b)->0 <= s.len(),
        utf8_len(s.take(char_index_at(s, b)->0 as int)) == b,
    decreases s.len(),
{
    if b != 0 {
        lemma_char_index_at_range(s.drop_first(), b - char_utf8_len(s[0]));
    }
    lemma_char_index_at(s, b, char_index_at(s, b)->0 as int);
}

/// The byte length of `s` equals the length of its UTF-8 encoding, which is
/// what `str::len` returns.
pub proof fn lemma_utf8_len_is_encoding_len(s: Seq<char>)
    ensures
        encode_utf8(s).len() == utf8_len(s),
    decreases s.len(),
{
    if s.len() > 0 {
        char_is_scalar(s[0]);
        lemma_utf8_len_is_encoding_len(s.drop_first());
    }
}

/// A prefix never has more bytes than the whole text.
pub proof fn lemma_prefix_le_total(s: Seq<char>, k: int)
    requires
        0 <= k <= s.len(),
    ensures
        utf8_len(s.take(k)) <= utf8_len(s),
{
    assert(s =~= s.take(k) + s.skip(k));
    lemma_utf8_len_concat(s.take(k), s.skip(k));
}

/// `std::string::String::push`: appends `c` to `s`.
#[verifier::external_body]
pub(crate) fn string_push(s: &mut String, c: char)
    ensures
        final(s)@ == old(s)@.push(c),
{
    s.push(c);
}

/// Character position of the byte offset `b` of `s`.
pub fn char_index_of_byte(s: &str, b: usize) -> (k: usize)
    requires
        is_boundary(s@, b as int),
    ensures
        k as nat == char_index_at(s@, b as int)->0,
        k <= s@.len(),
        utf8_len(s@.take(k as int)) == b,
{
    let ghost target = char_index_at(s@, b as int)->0 as int;
    proof {
        lemma_char_index_at_range(s@, b as int);
    }
    let n = s.unicode_len();
    let mut k: usize = 0;
    let mut off: usize = 0;
    proof {
        assert(s@.take(0) =~= Seq::<char>::empty());
    }
    while off < b
        invariant
            0 <= k <= target,
            target <= s@.len() == n,
            utf8_len(s@.take(target)) == b,
            off as nat == utf8_len(s@.take(k as int)),
            off <= b,
        decreases b - off,
    {
        proof {
            assert(k < target);
            lemma_prefix_step(s@, k as int);
            if k + 1 < target {
                lemma_prefix_strictly_increasing(s@, k + 1, target);
            }
        }
        let c = s.get_char(k);
        off = off + char_len_utf8(c);
        k = k + 1;
    }
    proof {
        if k < target {
            lemma_prefix_strictly_increasing(s@, k as int, target);
        }
    }
    k
}

/// Byte length of the UTF-8 encoding of `c`.
pub fn char_len_utf8(c: char) -> (n: usize)
    ensures
        n == char_utf8_len(c),
{
    let v = c as u32;
    if v <= 0x7f {
        1
    } else if v <= 0x7ff {
        2
    } else if v <= 0xffff {
        3
    } else {
        4
    }
}

/// Byte length of `s`.
pub fn str_byte_len(s: &str) -> (n: usize)
    requires
        utf8_len(s@) <= usize::MAX,
    ensures
        n == utf8_len(s@),
{
    proof {
        lemma_utf8_len_is_encoding_len(s@);
    }
    s.len()
}

/// Byte length of `s` (`str::len`).
pub fn str_len_bytes(s: &str) -> (n: usize)
    ensures
        n == utf8_len(s@),
{
    let b = s.as_bytes();
    proof {
        lemma_utf8_len_is_encoding_len(s@);
    }
    b.len()
}

/// Character position of the byte offset `b` of `s`, or `None` when `b` is
/// not a character boundary.
pub fn char_index_checked(s: &str, b: usize) -> (r: Option<usize>)
    ensures
        r is Some <==> is_boundary(s@, b as int),
        r matches Some(k) ==> k as nat == char_index_at(s@, b as int)->0 && k <= s@.len()
            && utf8_len(s@.take(k as int)) == b,
{
    let n = s.unicode_len();
    let mut i: usize = 0;
    let mut off: usize = 0;
    proof {
        assert(s@.take(0) =~= Seq::<char>::empty());
    }
    while i < n && off < b
        invariant
            n == s@.len(),
            i <= n,
            off == utf8_len(s@.take(i as int)),
            off <= b,
            forall|j: int| 0 <= j < i ==> utf8_len(#[trigger] s@.take(j)) < b,
        decreases n - i,
    {
        let c = s.get_char(i);
        proof {
            lemma_prefix_step(s@, i as int);
            lemma_char_utf8_len_bounds(c);
        }
        let w = char_len_utf8(c);
        if w > b - off {
            proof {
                assert forall|k: int| 0 <= k <= n implies utf8_len(#[trigger] s@.take(k)) != b by {
                    if k > i {
                        if k > i + 1 {
                            lemma_prefix_strictly_increasing(s@, i + 1, k);
                        }
                    }
                }
                if char_index_at(s@, b as int) is Some {
                    lemma_char_index_at_range(s@, b as int);
                }
            }
            return None;
        }
        off = off + w;
        i = i + 1;
    }
    if off == b {
        proof {
            lemma_char_index_at(s@, b as int, i as int);
        }
        Some(i)
    } else {
        proof {
            assert(i == n);
            assert forall|k: int| 0 <= k <= n implies utf8_len(#[trigger] s@.take(k)) != b by {
                if k == n {
                } else {
                    lemma_prefix_strictly_increasing(s@, k, n as int);
                }
            }
            if char_index_at(s@, b as int) is Some {
                lemma_char_index_at_range(s@, b as int);
            }
        }
        None
    }
}

} // verus!
