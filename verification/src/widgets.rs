//! Single-line text fields edited through a byte-offset cursor, as used by
//! the firmware path, chip name, base address and send-line inputs.
//!
//! The cursor is a byte offset into the UTF-8 encoding of the text and always
//! sits on a character boundary.

use vstd::prelude::*;
use crate::text::{
    char_index_at, char_index_of_byte, char_len_utf8, char_utf8_len, is_boundary,
    lemma_char_index_at, lemma_char_utf8_len_bounds, lemma_prefix_le_total, lemma_prefix_step,
    lemma_prefix_strictly_increasing,
    lemma_utf8_len_concat, lemma_utf8_len_full, lemma_utf8_len_single, str_byte_len, string_push,
    utf8_len,
};

verus! {

/// Text and cursor after typing `c` at byte offset `b` of `s`.
pub open spec fn after_input_char(s: Seq<char>, b: int, c: char) -> (Seq<char>, int) {
    let k = char_index_at(s, b)->0 as int;
    (s.insert(k, c), b + char_utf8_len(c))
}

/// Text and cursor after a backspace at byte offset `b` of `s`: the character
/// before the cursor is removed and the cursor moves to where it started.
pub open spec fn after_backspace(s: Seq<char>, b: int) -> (Seq<char>, int) {
    if b == 0 {
        (s, b)
    } else {
        let k = char_index_at(s, b)->0 as int;
        (s.remove(k - 1), utf8_len(s.take(k - 1)) as int)
    }
}

/// Cursor after moving one character to the left.
pub open spec fn cursor_after_left(s: Seq<char>, b: int) -> int {
    if b == 0 {
        b
    } else {
        let k = char_index_at(s, b)->0 as int;
        utf8_len(s.take(k - 1)) as int
    }
}

/// Cursor after moving one character to the right.
pub open spec fn cursor_after_right(s: Seq<char>, b: int) -> int {
    if b < utf8_len(s) {
        let k = char_index_at(s, b)->0 as int;
        b + char_utf8_len(s[k])
    } else {
        b
    }
}

/// Typing a character and then pressing backspace gives back the text and
/// the cursor that were there before.
pub proof fn law_backspace_undoes_input_char(s: Seq<char>, b: int, c: char)
    requires
        is_boundary(s, b),
    ensures
        after_backspace(after_input_char(s, b, c).0, after_input_char(s, b, c).1) == (s, b),
{
    let k = char_index_at(s, b)->0 as int;
    crate::text::lemma_char_index_at_range(s, b);
    let t = s.insert(k, c);
    lemma_char_utf8_len_bounds(c);
    assert(t.take(k + 1) =~= s.take(k) + seq![c]);
    lemma_utf8_len_concat(s.take(k), seq![c]);
    lemma_utf8_len_single(c);
    lemma_char_index_at(t, b + char_utf8_len(c), k + 1);
    assert(t.remove(k) =~= s);
    assert(t.take(k) =~= s.take(k));
}

/// Moving right and then left brings the cursor back, unless it was at the end.
pub proof fn law_left_undoes_right(s: Seq<char>, b: int)
    requires
        is_boundary(s, b),
        b < utf8_len(s),
    ensures
        cursor_after_left(s, cursor_after_right(s, b)) == b,
{
    let k = char_index_at(s, b)->0 as int;
    crate::text::lemma_char_index_at_range(s, b);
    if k == s.len() {
        lemma_utf8_len_full(s);
    }
    lemma_prefix_step(s, k);
    lemma_char_utf8_len_bounds(s[k]);
    lemma_char_index_at(s, b + char_utf8_len(s[k]), k + 1);
}

/// Moving left and then right brings the cursor back, unless it was at the start.
pub proof fn law_right_undoes_left(s: Seq<char>, b: int)
    requires
        is_boundary(s, b),
        b > 0,
    ensures
        cursor_after_right(s, cursor_after_left(s, b)) == b,
{
    let k = char_index_at(s, b)->0 as int;
    crate::text::lemma_char_index_at_range(s, b);
    if k == 0 {
        assert(s.take(0) =~= Seq::<char>::empty());
    }
    lemma_prefix_step(s, k - 1);
    lemma_prefix_le_total(s, k);
    lemma_char_index_at(s, utf8_len(s.take(k - 1)) as int, k - 1);
}

/// A backspace never makes the text longer.
pub proof fn lemma_backspace_shrinks(s: Seq<char>, b: int)
    requires
        is_boundary(s, b),
    ensures
        utf8_len(after_backspace(s, b).0) <= utf8_len(s),
{
    if b != 0 {
        let k = char_index_at(s, b)->0 as int;
        crate::text::lemma_char_index_at_range(s, b);
        if k > 0 {
            assert(s =~= s.take(k - 1) + (seq![s[k - 1]] + s.skip(k)));
            assert(s.remove(k - 1) =~= s.take(k - 1) + s.skip(k));
            lemma_utf8_len_concat(s.take(k - 1), seq![s[k - 1]] + s.skip(k));
            lemma_utf8_len_concat(seq![s[k - 1]], s.skip(k));
            lemma_utf8_len_concat(s.take(k - 1), s.skip(k));
        } else {
            assert(utf8_len(s.take(0)) == 0) by {
                assert(s.take(0) =~= Seq::<char>::empty());
            }
        }
    }
}

/// Inserts `c` at the cursor and moves the cursor past it.
pub fn text_input_char(text: &mut String, cursor: &mut usize, c: char)
    requires
        is_boundary(old(text)@, *old(cursor) as int),
        utf8_len(old(text)@) + 4 <= usize::MAX,
    ensures
        (final(text)@, *final(cursor) as int) == after_input_char(
            old(text)@,
            *old(cursor) as int,
            c,
        ),
        is_boundary(final(text)@, *final(cursor) as int),
        utf8_len(final(text)@) == utf8_len(old(text)@) + char_utf8_len(c),
{
    let ghost s = text@;
    let k = char_index_of_byte(text.as_str(), *cursor);
    let n = text.as_str().unicode_len();
    let mut out = String::from_str(text.as_str().substring_char(0, k));
    string_push(&mut out, c);
    out.append(text.as_str().substring_char(k, n));
    proof {
        assert(out@ =~= s.insert(k as int, c));
        lemma_prefix_le_total(s, k as int);
        assert(out@.take(k + 1) =~= s.take(k as int) + seq![c]);
        lemma_utf8_len_concat(s.take(k as int), seq![c]);
        lemma_utf8_len_single(c);
        lemma_char_utf8_len_bounds(c);
        lemma_char_index_at(out@, *cursor + char_utf8_len(c), k + 1);
        assert(s =~= s.take(k as int) + s.skip(k as int));
        assert(out@ =~= (s.take(k as int) + seq![c]) + s.skip(k as int));
        lemma_utf8_len_concat(s.take(k as int), s.skip(k as int));
        lemma_utf8_len_concat(s.take(k as int) + seq![c], s.skip(k as int));
    }
    *text = out;
    *cursor = *cursor + char_len_utf8(c);
}

/// Removes the character before the cursor, if any, and moves the cursor to
/// where that character started.
pub fn text_backspace(text: &mut String, cursor: &mut usize)
    requires
        is_boundary(old(text)@, *old(cursor) as int),
    ensures
        (final(text)@, *final(cursor) as int) == after_backspace(old(text)@, *old(cursor) as int),
        is_boundary(final(text)@, *final(cursor) as int),
{
    if *cursor > 0 {
        let ghost s = text@;
        let k = char_index_of_byte(text.as_str(), *cursor);
        let n = text.as_str().unicode_len();
        proof {
            if k == 0 {
                assert(s.take(0) =~= Seq::<char>::empty());
            }
            lemma_prefix_step(s, k - 1);
        }
        let removed = text.as_str().get_char(k - 1);
        let mut out = String::from_str(text.as_str().substring_char(0, k - 1));
        out.append(text.as_str().substring_char(k, n));
        proof {
            assert(out@ =~= s.remove(k - 1));
            assert(out@.take(k - 1) =~= s.take(k - 1));
            lemma_char_index_at(out@, utf8_len(s.take(k - 1)) as int, k - 1);
        }
        *text = out;
        *cursor = *cursor - char_len_utf8(removed);
    } else {
        proof {
            lemma_char_index_at(text@, 0, 0);
            assert(text@.take(0) =~= Seq::<char>::empty());
        }
    }
}

/// Moves the cursor one character to the left.
pub fn text_cursor_left(text: &str, cursor: &mut usize)
    requires
        is_boundary(text@, *old(cursor) as int),
    ensures
        *final(cursor) as int == cursor_after_left(text@, *old(cursor) as int),
        is_boundary(text@, *final(cursor) as int),
{
    if *cursor == 0 {
        return;
    }
    let k = char_index_of_byte(text, *cursor);
    proof {
        if k == 0 {
            assert(text@.take(0) =~= Seq::<char>::empty());
        }
        lemma_prefix_step(text@, k - 1);
        lemma_char_index_at(text@, utf8_len(text@.take(k - 1)) as int, k - 1);
    }
    let c = text.get_char(k - 1);
    *cursor = *cursor - char_len_utf8(c);
}

/// Moves the cursor one character to the right, unless it is at the end.
pub fn text_cursor_right(text: &str, cursor: &mut usize)
    requires
        *old(cursor) >= utf8_len(text@) || is_boundary(text@, *old(cursor) as int),
        utf8_len(text@) <= usize::MAX,
    ensures
        *final(cursor) as int == cursor_after_right(text@, *old(cursor) as int),
        is_boundary(text@, *old(cursor) as int) ==> is_boundary(text@, *final(cursor) as int),
{
    if *cursor < str_byte_len(text) {
        let k = char_index_of_byte(text, *cursor);
        proof {
            if k == text@.len() {
                lemma_utf8_len_full(text@);
            }
            lemma_prefix_step(text@, k as int);
            lemma_prefix_le_total(text@, k + 1);
            lemma_char_index_at(text@, utf8_len(text@.take(k + 1)) as int, k + 1);
        }
        let c = text.get_char(k);
        *cursor = *cursor + char_len_utf8(c);
    }
}

/// Moves the cursor to the start of the text.
pub fn text_cursor_home(cursor: &mut usize)
    ensures
        *final(cursor) == 0,
{
    *cursor = 0;
}

/// Moves the cursor to the end of the text.
pub fn text_cursor_end(text: &str, cursor: &mut usize)
    requires
        utf8_len(text@) <= usize::MAX,
    ensures
        *final(cursor) as nat == utf8_len(text@),
        is_boundary(text@, *final(cursor) as int),
{
    proof {
        lemma_utf8_len_full(text@);
        lemma_char_index_at(text@, utf8_len(text@) as int, text@.len() as int);
    }
    *cursor = str_byte_len(text);
}

/// Removes the character at the cursor, if the cursor is not at the end.
pub fn text_delete(text: &mut String, cursor: usize)
    requires
        is_boundary(old(text)@, cursor as int),
        utf8_len(old(text)@) <= usize::MAX,
    ensures
        final(text)@ == (if (cursor as int) < utf8_len(old(text)@) {
            old(text)@.remove(char_index_at(old(text)@, cursor as int)->0 as int)
        } else {
            old(text)@
        }),
        is_boundary(final(text)@, cursor as int),
        utf8_len(final(text)@) <= usize::MAX,
{
    let ghost s = text@;
    let k = char_index_of_byte(text.as_str(), cursor);
    let n = text.as_str().unicode_len();
    proof {
        lemma_utf8_len_full(s);
        if (k as int) < s.len() {
            lemma_prefix_strictly_increasing(s, k as int, s.len() as int);
        }
    }
    if k < n {
        let mut out = String::from_str(text.as_str().substring_char(0, k));
        out.append(text.as_str().substring_char(k + 1, n));
        proof {
            assert(out@ =~= s.remove(k as int));
            assert(out@.take(k as int) =~= s.take(k as int));
            lemma_char_index_at(out@, cursor as int, k as int);
            assert(s =~= s.take(k as int) + (seq![s[k as int]] + s.skip(k + 1)));
            assert(out@ =~= s.take(k as int) + s.skip(k + 1));
            lemma_utf8_len_concat(s.take(k as int), seq![s[k as int]] + s.skip(k + 1));
            lemma_utf8_len_concat(seq![s[k as int]], s.skip(k + 1));
            lemma_utf8_len_concat(s.take(k as int), s.skip(k + 1));
        }
        *text = out;
    }
}

} // verus!
