//! Terminal column widths of text (from `unicode-width`), and fitting a
//! text field with its cursor into a given number of columns.

use vstd::prelude::*;
use unicode_width::{UnicodeWidthChar, UnicodeWidthStr};
use crate::text::{char_index_at, is_boundary, str_len_bytes, utf8_len};

verus! {

/// `UnicodeWidthChar::width(c)`: columns a character takes, `None` for a
/// control character.
pub uninterp spec fn char_width(c: char) -> Option<nat>;

/// `UnicodeWidthStr::width(s)`: columns a string takes (not always the sum
/// of its characters' widths: some sequences are drawn as one).
pub uninterp spec fn str_width(s: Seq<char>) -> nat;

/// `unicode_width::UnicodeWidthChar::width`. As its source shows, control
/// characters (below U+0020 and U+007F to U+009F) have no width, printable
/// ASCII is one column, and no character is wider than three columns; the
/// other widths come from Unicode tables and are named, not stated.
#[verifier::external_body]
fn width_of_char(c: char) -> (w: Option<usize>)
    ensures
        match w {
            Some(n) => char_width(c) == Some(n as nat),
            None => char_width(c) is None,
        },
        w is None <==> ((c as u32) < 0x20 || (0x7F <= (c as u32) && (c as u32) < 0xA0)),
        0x20 <= (c as u32) < 0x7F ==> w == Some(1usize),
        w matches Some(n) ==> n <= 3,
{
    UnicodeWidthChar::width(c)
}

/// `unicode_width::UnicodeWidthStr::width`; its result is named, not
/// stated.
#[verifier::external_body]
fn width_of_str(s: &str) -> (w: usize)
    ensures
        w == str_width(s@),
{
    UnicodeWidthStr::width(s)
}

/// Columns of a character as the clipping counts them (0 for control
/// characters).
pub open spec fn cols(c: char) -> nat {
    match char_width(c) {
        Some(w) => w,
        None => 0,
    }
}

/// The longest prefix of `cs` that fits in `budget` columns, characters
/// taken one by one until the next would not fit.
pub open spec fn fitting_prefix(cs: Seq<char>, budget: nat) -> Seq<char>
    decreases cs.len(),
{
    if cs.len() == 0 || cols(cs[0]) > budget {
        Seq::empty()
    } else {
        seq![cs[0]] + fitting_prefix(cs.drop_first(), (budget - cols(cs[0])) as nat)
    }
}

/// The characters of `text` that fit in `max_width` columns.
pub fn take_width(text: &str, max_width: usize) -> (s: String)
    ensures
        s@ == fitting_prefix(text@, max_width as nat),
{
    let n = text.unicode_len();
    let mut used: usize = 0;
    let mut out = String::new();
    let mut i: usize = 0;
    proof {
        assert(text@.skip(0) =~= text@);
    }
    while i < n
        invariant
            n == text@.len(),
            i <= n,
            used <= max_width,
            fitting_prefix(text@, max_width as nat) == out@ + fitting_prefix(
                text@.skip(i as int),
                (max_width - used) as nat,
            ),
        decreases n - i,
    {
        let c = text.get_char(i);
        let width = match width_of_char(c) {
            Some(w) => w,
            None => 0,
        };
        let ghost rest = text@.skip(i as int);
        assert(rest[0] == c);
        assert(rest.drop_first() =~= text@.skip(i + 1));
        if width > max_width - used {
            proof {
                assert(out@ + Seq::<char>::empty() =~= out@);
            }
            return out;
        }
        let ghost before = out@;
        let ghost budget = (max_width - used) as nat;
        used = used + width;
        crate::text::string_push(&mut out, c);
        proof {
            let tail = fitting_prefix(text@.skip(i + 1), (max_width - used) as nat);
            assert(fitting_prefix(rest, budget) == seq![c] + tail);
            assert(out@ + tail =~= before + (seq![c] + tail));
        }
        i = i + 1;
    }
    proof {
        assert(text@.skip(n as int) =~= Seq::<char>::empty());
        assert(out@ + Seq::<char>::empty() =~= out@);
    }
    out
}

/// How many characters of `cs` come before `target` columns are reached
/// (all of them when the text is narrower).
pub open spec fn chars_before_width(cs: Seq<char>, target: nat) -> nat
    decreases cs.len(),
{
    if target == 0 || cs.len() == 0 {
        0
    } else {
        1 + chars_before_width(
            cs.drop_first(),
            if cols(cs[0]) >= target {
                0
            } else {
                (target - cols(cs[0])) as nat
            },
        )
    }
}

proof fn lemma_chars_before_width_le(cs: Seq<char>, target: nat)
    ensures
        chars_before_width(cs, target) <= cs.len(),
    decreases cs.len(),
{
    if target != 0 && cs.len() != 0 {
        lemma_chars_before_width_le(
            cs.drop_first(),
            if cols(cs[0]) >= target {
                0
            } else {
                (target - cols(cs[0])) as nat
            },
        );
    }
}

/// Byte offset of the first character at which `target_width` columns
/// have been used up, or the text's length.
pub fn byte_index_at_width(text: &str, target_width: usize) -> (b: usize)
    ensures
        b == utf8_len(text@.take(chars_before_width(text@, target_width as nat) as int)),
        chars_before_width(text@, target_width as nat) <= text@.len(),
{
    proof {
        lemma_chars_before_width_le(text@, target_width as nat);
    }
    let total_bytes = str_len_bytes(text);
    let n = text.unicode_len();
    let mut remaining = target_width;
    let mut i: usize = 0;
    let mut offset: usize = 0;
    proof {
        assert(text@.skip(0) =~= text@);
        assert(text@.take(0) =~= Seq::<char>::empty());
    }
    while i < n && remaining > 0
        invariant
            n == text@.len(),
            i <= n,
            chars_before_width(text@, target_width as nat) == i + chars_before_width(
                text@.skip(i as int),
                remaining as nat,
            ),
            offset == utf8_len(text@.take(i as int)),
            offset <= utf8_len(text@),
            total_bytes == utf8_len(text@),
        decreases n - i,
    {
        let c = text.get_char(i);
        let width = match width_of_char(c) {
            Some(w) => w,
            None => 0,
        };
        proof {
            let rest = text@.skip(i as int);
            assert(rest[0] == c);
            assert(rest.drop_first() =~= text@.skip(i + 1));
            crate::text::lemma_prefix_step(text@, i as int);
            crate::text::lemma_prefix_le_total(text@, i + 1);
        }
        remaining = if width >= remaining { 0 } else { remaining - width };
        offset = offset + crate::text::char_len_utf8(c);
        i = i + 1;
    }
    proof {
        if i == n {
            assert(text@.skip(i as int) =~= Seq::<char>::empty());
        }
    }
    offset
}

/// Keeps a value inside 16 bits, as `as u16` does.
pub open spec fn low16(n: int) -> u16 {
    (n % 0x1_0000) as u16
}

/// The character position of the (clamped) cursor.
pub open spec fn cursor_chars(text: Seq<char>, cursor: usize) -> int {
    if cursor >= utf8_len(text) {
        text.len() as int
    } else {
        char_index_at(text, cursor as int)->0 as int
    }
}

/// Where the visible tail of a long field starts when the cursor is past
/// the first `max_width - 3` columns.
pub open spec fn tail_start(text: Seq<char>, cursor: usize, max_width: u16) -> int {
    let cw = str_width(text.take(cursor_chars(text, cursor)));
    chars_before_width(text, (cw - (max_width - 3)) as nat) as int
}

/// The clipping reaches the branch that shows a tail after `...`.
pub open spec fn clip_shows_tail(text: Seq<char>, cursor: usize, max_width: u16) -> bool {
    &&& max_width > 3
    &&& str_width(text) > max_width
    &&& str_width(text.take(cursor_chars(text, cursor))) > max_width - 3
}

/// Fitting the field would slice inside the text the wrong way round, or
/// overflow the cursor column: the field drawing panics there.
pub open spec fn clip_panics(text: Seq<char>, cursor: usize, max_width: u16) -> bool {
    clip_shows_tail(text, cursor, max_width) && (tail_start(text, cursor, max_width) > cursor_chars(text, cursor)
        || 3 + str_width(text.subrange(tail_start(text, cursor, max_width), cursor_chars(text, cursor))) > usize::MAX)
}

/// The text shown for a field of `max_width` columns and the cursor's
/// column in it.
pub open spec fn clipped(text: Seq<char>, cursor: usize, max_width: u16) -> (Seq<char>, u16) {
    let k = cursor_chars(text, cursor);
    let cw = str_width(text.take(k));
    if max_width == 0 {
        (Seq::empty(), 0)
    } else if str_width(text) <= max_width {
        (text, low16(cw as int))
    } else if max_width <= 3 {
        (Seq::new(max_width as nat, |i: int| '.'), 0)
    } else if cw <= max_width - 3 {
        (fitting_prefix(text, (max_width - 3) as nat) + "..."@, low16(cw as int))
    } else {
        let s = tail_start(text, cursor, max_width);
        (
            "..."@ + fitting_prefix(text.skip(s), (max_width - 3) as nat),
            low16(3 + str_width(text.subrange(s, k)) as int),
        )
    }
}

/// Fits a text field into `max_width` columns: the whole text when it
/// fits; else dots only when there are at most three columns; else the
/// start followed by `...` while the cursor is in view, or `...` followed
/// by the part ending at the cursor. Also gives the cursor's column.
pub fn clipped_text_with_cursor(text: &str, cursor: usize, max_width: u16) -> (r: (String, u16))
    requires
        cursor >= utf8_len(text@) || is_boundary(text@, cursor as int),
        !clip_panics(text@, cursor, max_width),
    ensures
        (r.0@, r.1) == clipped(text@, cursor, max_width),
{
    if max_width == 0 {
        return (String::new(), 0);
    }
    let len = str_len_bytes(text);
    let n = text.unicode_len();
    let k = if cursor >= len {
        n
    } else {
        crate::text::char_index_of_byte(text, cursor)
    };
    proof {
        if cursor >= len {
            assert(k as int == cursor_chars(text@, cursor));
        }
    }
    let before = text.substring_char(0, k);
    proof {
        assert(before@ =~= text@.take(k as int));
    }
    let total = width_of_str(text);
    let max = max_width as usize;
    if total <= max {
        let cw = width_of_str(before);
        return (String::from_str(text), (cw % 0x1_0000) as u16);
    }
    if max <= 3 {
        let mut dots = String::new();
        let mut i: usize = 0;
        while i < max
            invariant
                i <= max,
                dots@ == Seq::new(i as nat, |j: int| '.'),
            decreases max - i,
        {
            crate::text::string_push(&mut dots, '.');
            proof {
                assert(dots@ =~= Seq::new((i + 1) as nat, |j: int| '.'));
            }
            i = i + 1;
        }
        return (dots, 0);
    }
    let cursor_width = width_of_str(before);
    let content = max - 3;
    if cursor_width <= content {
        let mut visible = take_width(text, content);
        visible.append("...");
        return (visible, (cursor_width % 0x1_0000) as u16);
    }
    let start_width = cursor_width - content;
    let start = byte_index_at_width(text, start_width);
    let s = chars_before(text, start_width);
    let tail_text = text.substring_char(s, n);
    proof {
        assert(tail_text@ =~= text@.skip(s as int));
    }
    let tail = take_width(tail_text, content);
    let middle = text.substring_char(s, k);
    let col = 3 + width_of_str(middle);
    let mut out = String::from_str("...");
    out.append(tail.as_str());
    proof {
        assert(start == start);
    }
    (out, (col % 0x1_0000) as u16)
}

/// `chars_before_width` as an executable count.
fn chars_before(text: &str, target: usize) -> (k: usize)
    ensures
        k == chars_before_width(text@, target as nat),
{
    proof {
        lemma_chars_before_width_le(text@, target as nat);
    }
    let n = text.unicode_len();
    let mut remaining = target;
    let mut i: usize = 0;
    proof {
        assert(text@.skip(0) =~= text@);
    }
    while i < n && remaining > 0
        invariant
            n == text@.len(),
            i <= n,
            chars_before_width(text@, target as nat) == i + chars_before_width(
                text@.skip(i as int),
                remaining as nat,
            ),
        decreases n - i,
    {
        let c = text.get_char(i);
        let width = match width_of_char(c) {
            Some(w) => w,
            None => 0,
        };
        proof {
            let rest = text@.skip(i as int);
            assert(rest[0] == c);
            assert(rest.drop_first() =~= text@.skip(i + 1));
        }
        remaining = if width >= remaining { 0 } else { remaining - width };
        i = i + 1;
    }
    proof {
        if i == n {
            assert(text@.skip(i as int) =~= Seq::<char>::empty());
        }
    }
    i
}

/// `clipped_text_with_cursor` where it can be drawn: `None` for a cursor
/// off a character boundary, or where the clipping would panic.
pub fn clipped_text_checked(text: &str, cursor: usize, max_width: u16) -> (r: Option<(String, u16)>)
    ensures
        match r {
            Some(p) => (p.0@, p.1) == clipped(text@, cursor, max_width),
            None => !(cursor >= utf8_len(text@) || is_boundary(text@, cursor as int)) || clip_panics(
                text@,
                cursor,
                max_width,
            ),
        },
{
    let len = str_len_bytes(text);
    let n = text.unicode_len();
    let k = if cursor >= len {
        n
    } else {
        match crate::text::char_index_checked(text, cursor) {
            Some(k) => k,
            None => {
                return None;
            },
        }
    };
    if max_width > 3 {
        let total = width_of_str(text);
        let before = text.substring_char(0, k);
        proof {
            assert(before@ =~= text@.take(k as int));
        }
        let cursor_width = width_of_str(before);
        let content = max_width as usize - 3;
        if total > max_width as usize && cursor_width > content {
            let s = chars_before(text, cursor_width - content);
            if s > k {
                return None;
            }
            let middle = text.substring_char(s, k);
            let w = width_of_str(middle);
            if w > usize::MAX - 3 {
                return None;
            }
        }
    }
    Some(clipped_text_with_cursor(text, cursor, max_width))
}

} // verus!
