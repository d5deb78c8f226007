//! Editing the text of an input field at its cursor. A field keeps its text
//! in a `String` and its cursor as a byte offset into the UTF-8 encoding of
//! that text: typing inserts a character at the cursor and moves it one byte
//! on; backspace removes the character that starts one byte before the
//! cursor. An offset must fall on a character boundary to be edited there.
use vstd::prelude::*;
use vstd::utf8::{encode_utf8, encode_scalar, is_scalar, char_is_scalar};
use crate::text::{chars_of, string_from_chars};

verus! {

/// Number of bytes of the UTF-8 encoding of `c`.
pub open spec fn utf8_width(c: char) -> nat {
    let v = c as u32;
    if v <= 0x7F {
        1
    } else if v <= 0x7FF {
        2
    } else if v <= 0xFFFF {
        3
    } else {
        4
    }
}

/// Number of bytes of the UTF-8 encoding of `s`.
pub open spec fn byte_len(s: Seq<char>) -> nat
    decreases s.len(),
{
    if s.len() == 0 {
        0
    } else {
        byte_len(s.drop_last()) + utf8_width(s.last())
    }
}

/// Byte offset `b` of `s` is where the character at index `k` starts (or
/// the end of the text, for `k == s.len()`).
pub open spec fn boundary_at(s: Seq<char>, b: int, k: int) -> bool {
    0 <= k <= s.len() && byte_len(s.take(k)) == b
}

/// Byte offset `b` falls on a character boundary of `s`.
pub open spec fn is_boundary(s: Seq<char>, b: int) -> bool {
    exists|k: int| boundary_at(s, b, k)
}

/// The character index at byte offset `b` (meaningful when `b` is a boundary).
pub open spec fn char_index_at(s: Seq<char>, b: int) -> int {
    choose|k: int| boundary_at(s, b, k)
}

/// The cursor clamped to the end of a text of `len` bytes.
pub open spec fn clamp_cursor(cursor: usize, len: nat) -> int {
    if cursor < len {
        cursor as int
    } else {
        len as int
    }
}

/// `s` with `ch` inserted at byte offset `b`.
pub open spec fn insert_spec(s: Seq<char>, b: int, ch: char) -> Seq<char> {
    let k = char_index_at(s, b);
    s.take(k).push(ch) + s.skip(k)
}

/// `s` without the character that starts at byte offset `b`.
pub open spec fn remove_spec(s: Seq<char>, b: int) -> Seq<char> {
    let k = char_index_at(s, b);
    s.take(k) + s.skip(k + 1)
}

/// Typing into a field is possible at its cursor: the clamped cursor falls
/// on a character boundary.
pub open spec fn can_insert(s: Seq<char>, cursor: usize) -> bool {
    is_boundary(s, clamp_cursor(cursor, byte_len(s)))
}

/// Backspace is possible at the cursor: nothing is removed at offset 0, and
/// otherwise the byte before the clamped cursor starts a character.
pub open spec fn can_backspace(s: Seq<char>, cursor: usize) -> bool {
    clamp_cursor(cursor, byte_len(s)) > 0 ==> is_boundary(s, clamp_cursor(cursor, byte_len(s)) - 1)
}

pub proof fn lemma_byte_len_concat(a: Seq<char>, b: Seq<char>)
    ensures
        byte_len(a + b) == byte_len(a) + byte_len(b),
    decreases b.len(),
{
    if b.len() == 0 {
        assert(a + b =~= a);
    } else {
        assert((a + b).drop_last() =~= a + b.drop_last());
        assert((a + b).last() == b.last());
        lemma_byte_len_concat(a, b.drop_last());
    }
}

/// Each character takes at least one byte.
pub proof fn lemma_byte_len_at_least_len(s: Seq<char>)
    ensures
        byte_len(s) >= s.len(),
    decreases s.len(),
{
    if s.len() > 0 {
        lemma_byte_len_at_least_len(s.drop_last());
    }
}

/// Offsets of longer prefixes are strictly larger.
pub proof fn lemma_take_strictly_increasing(s: Seq<char>, i: int, j: int)
    requires
        0 <= i <= j <= s.len(),
    ensures
        byte_len(s.take(i)) + (j - i) <= byte_len(s.take(j)),
        byte_len(s.take(j)) <= byte_len(s),
{
    let mid = s.subrange(i, j);
    assert(s.take(j) =~= s.take(i) + mid);
    lemma_byte_len_concat(s.take(i), mid);
    lemma_byte_len_at_least_len(mid);
    assert(s =~= s.take(j) + s.skip(j));
    lemma_byte_len_concat(s.take(j), s.skip(j));
}

/// A byte offset names at most one character index.
pub proof fn lemma_boundary_unique(s: Seq<char>, b: int, k1: int, k2: int)
    requires
        boundary_at(s, b, k1),
        boundary_at(s, b, k2),
    ensures
        k1 == k2,
{
    if k1 < k2 {
        lemma_take_strictly_increasing(s, k1, k2);
    } else if k2 < k1 {
        lemma_take_strictly_increasing(s, k2, k1);
    }
}

proof fn lemma_byte_len_single(c: char)
    ensures
        byte_len(seq![c]) == utf8_width(c),
{
    let s = seq![c];
    assert(s.drop_last() =~= Seq::<char>::empty());
    assert(byte_len(Seq::<char>::empty()) == 0);
    assert(s.last() == c);
}

proof fn lemma_take_step(s: Seq<char>, k: int)
    requires
        0 <= k < s.len(),
    ensures
        byte_len(s.take(k + 1)) == byte_len(s.take(k)) + utf8_width(s[k]),
{
    assert(s.take(k + 1).drop_last() =~= s.take(k));
}

proof fn lemma_scalar_width(c: char)
    ensures
        encode_scalar(c as u32).len() == utf8_width(c),
{
    char_is_scalar(c);
    assert(is_scalar(c as u32));
}

/// The UTF-8 encoding of `s` that `str::len` measures has [`byte_len`] bytes.
pub proof fn lemma_encode_len(s: Seq<char>)
    ensures
        encode_utf8(s).len() == byte_len(s),
    decreases s.len(),
{
    if s.len() > 0 {
        lemma_encode_len(s.drop_first());
        lemma_scalar_width(s[0]);
        assert(s =~= seq![s[0]] + s.drop_first());
        lemma_byte_len_concat(seq![s[0]], s.drop_first());
        lemma_byte_len_single(s[0]);
        assert(encode_utf8(s) == encode_scalar(s[0] as u32) + encode_utf8(s.drop_first()));
    }
}

/// Bytes of the UTF-8 encoding of `c`.
fn char_width(c: char) -> (w: usize)
    ensures
        w == utf8_width(c),
{
    let v = c as u32;
    if v <= 0x7F {
        1
    } else if v <= 0x7FF {
        2
    } else if v <= 0xFFFF {
        3
    } else {
        4
    }
}

/// The byte length of a text, as `str::len` gives it.
fn text_byte_len(s: &str) -> (n: usize)
    requires
        byte_len(s@) <= usize::MAX,
    ensures
        n == byte_len(s@),
{
    proof {
        lemma_encode_len(s@);
    }
    s.len()
}

/// The character index at byte offset `b` of `cs`, if `b` is a boundary.
fn find_boundary(cs: &Vec<char>, b: usize) -> (r: Option<usize>)
    requires
        byte_len(cs@) <= usize::MAX,
    ensures
        match r {
            Some(k) => boundary_at(cs@, b as int, k as int),
            None => !is_boundary(cs@, b as int),
        },
{
    let mut k: usize = 0;
    let mut acc: usize = 0;
    while k < cs.len() && acc < b
        invariant
            k <= cs.len(),
            acc == byte_len(cs@.take(k as int)),
            byte_len(cs@) <= usize::MAX,
            forall|j: int| 0 <= j < k ==> byte_len(cs@.take(j)) < b,
        decreases cs.len() - k,
    {
        proof {
            lemma_take_step(cs@, k as int);
            lemma_take_strictly_increasing(cs@, k as int + 1, cs@.len() as int);
            assert(cs@.take(cs@.len() as int) =~= cs@);
        }
        acc = acc + char_width(cs[k]);
        k = k + 1;
    }
    if acc == b {
        Some(k)
    } else {
        proof {
            assert forall|j: int| !boundary_at(cs@, b as int, j) by {
                if 0 <= j <= cs@.len() {
                    if j > k {
                        lemma_take_strictly_increasing(cs@, k as int, j);
                    } else if j == k {
                    } else {
                    }
                    if k == cs.len() && j <= k {
                        if j < k {
                            lemma_take_strictly_increasing(cs@, j, k as int);
                        }
                    }
                }
            }
        }
        None
    }
}

/// Insert `ch` into `text` at the clamped `cursor` and move the cursor one
/// byte past the insertion point.
pub fn insert_char_at_cursor(text: &mut String, cursor: &mut usize, ch: char)
    requires
        can_insert(old(text)@, *old(cursor)),
        byte_len(old(text)@) < usize::MAX,
    ensures
        final(text)@ == insert_spec(
            old(text)@,
            clamp_cursor(*old(cursor), byte_len(old(text)@)),
            ch,
        ),
        *final(cursor) == clamp_cursor(*old(cursor), byte_len(old(text)@)) + 1,
{
    let ghost s = text@;
    let blen = text_byte_len(text.as_str());
    let pos = if *cursor < blen {
        *cursor
    } else {
        blen
    };
    let cs = chars_of(text.as_str());
    let k = match find_boundary(&cs, pos) {
        Some(k) => k,
        None => {
            assert(false);
            0
        },
    };
    proof {
        let c = choose|j: int| boundary_at(s, pos as int, j);
        lemma_boundary_unique(s, pos as int, k as int, c);
    }
    let mut out: Vec<char> = Vec::new();
    let mut i: usize = 0;
    while i < k
        invariant
            i <= k <= cs.len(),
            out@ == cs@.take(i as int),
        decreases k - i,
    {
        out.push(cs[i]);
        assert(cs@.take(i as int).push(cs@[i as int]) =~= cs@.take(i as int + 1));
        i = i + 1;
    }
    out.push(ch);
    let mut j: usize = k;
    while j < cs.len()
        invariant
            k <= j <= cs.len(),
            out@ == cs@.take(k as int).push(ch) + cs@.subrange(k as int, j as int),
        decreases cs.len() - j,
    {
        out.push(cs[j]);
        assert(cs@.take(k as int).push(ch) + cs@.subrange(k as int, j as int + 1) =~= (cs@.take(
            k as int,
        ).push(ch) + cs@.subrange(k as int, j as int)).push(cs@[j as int]));
        j = j + 1;
    }
    assert(cs@.subrange(k as int, cs@.len() as int) =~= cs@.skip(k as int));
    *text = string_from_chars(&out);
    *cursor = pos + 1;
}

/// `s` with `p` inserted at byte offset `b`.
pub open spec fn insert_str_spec(s: Seq<char>, b: int, p: Seq<char>) -> Seq<char> {
    let k = char_index_at(s, b);
    s.take(k) + p + s.skip(k)
}

/// After pasting at a character boundary, the text has grown by exactly the
/// pasted bytes and the cursor sits on the boundary right after them.
pub proof fn lemma_paste_leaves_cursor_after_text(s: Seq<char>, b: int, p: Seq<char>)
    requires
        is_boundary(s, b),
    ensures
        byte_len(insert_str_spec(s, b, p)) == byte_len(s) + byte_len(p),
        boundary_at(insert_str_spec(s, b, p), b + byte_len(p), char_index_at(s, b) + p.len()),
{
    let k = char_index_at(s, b);
    assert(boundary_at(s, b, k));
    let t = insert_str_spec(s, b, p);
    assert(t.take(k + p.len()) =~= s.take(k) + p);
    lemma_byte_len_concat(s.take(k), p);
    lemma_byte_len_concat(s.take(k) + p, s.skip(k));
    lemma_byte_len_concat(s.take(k), s.skip(k));
    assert(s.take(k) + s.skip(k) =~= s);
}

/// Paste `pasted` into `text` at the clamped `cursor` and move the cursor
/// past the pasted bytes.
pub fn paste_at_cursor(text: &mut String, cursor: &mut usize, pasted: &str)
    requires
        can_insert(old(text)@, *old(cursor)),
        byte_len(old(text)@) + byte_len(pasted@) <= usize::MAX,
    ensures
        final(text)@ == insert_str_spec(
            old(text)@,
            clamp_cursor(*old(cursor), byte_len(old(text)@)),
            pasted@,
        ),
        *final(cursor) == clamp_cursor(*old(cursor), byte_len(old(text)@)) + byte_len(pasted@),
{
    let ghost s = text@;
    let blen = text_byte_len(text.as_str());
    let plen = text_byte_len(pasted);
    let pos = if *cursor < blen {
        *cursor
    } else {
        blen
    };
    let cs = chars_of(text.as_str());
    let k = match find_boundary(&cs, pos) {
        Some(k) => k,
        None => {
            assert(false);
            0
        },
    };
    proof {
        let c = choose|j: int| boundary_at(s, pos as int, j);
        lemma_boundary_unique(s, pos as int, k as int, c);
    }
    let ps = chars_of(pasted);
    let mut out: Vec<char> = Vec::new();
    let mut i: usize = 0;
    while i < k
        invariant
            i <= k <= cs.len(),
            out@ == cs@.take(i as int),
        decreases k - i,
    {
        out.push(cs[i]);
        assert(cs@.take(i as int).push(cs@[i as int]) =~= cs@.take(i as int + 1));
        i = i + 1;
    }
    let mut q: usize = 0;
    while q < ps.len()
        invariant
            q <= ps.len(),
            k <= cs.len(),
            out@ == cs@.take(k as int) + ps@.take(q as int),
        decreases ps.len() - q,
    {
        out.push(ps[q]);
        assert(cs@.take(k as int) + ps@.take(q as int + 1) =~= (cs@.take(k as int) + ps@.take(
            q as int,
        )).push(ps@[q as int]));
        q = q + 1;
    }
    assert(ps@.take(ps.len() as int) =~= ps@);
    let mut j: usize = k;
    while j < cs.len()
        invariant
            k <= j <= cs.len(),
            out@ == cs@.take(k as int) + ps@ + cs@.subrange(k as int, j as int),
        decreases cs.len() - j,
    {
        out.push(cs[j]);
        assert(cs@.take(k as int) + ps@ + cs@.subrange(k as int, j as int + 1) =~= (cs@.take(
            k as int,
        ) + ps@ + cs@.subrange(k as int, j as int)).push(cs@[j as int]));
        j = j + 1;
    }
    assert(cs@.subrange(k as int, cs@.len() as int) =~= cs@.skip(k as int));
    *text = string_from_chars(&out);
    *cursor = pos + plen;
}

/// Remove the character that starts one byte before the clamped `cursor`
/// and move the cursor there; at offset 0 nothing changes.
pub fn backspace_at_cursor(text: &mut String, cursor: &mut usize)
    requires
        can_backspace(old(text)@, *old(cursor)),
        byte_len(old(text)@) <= usize::MAX,
    ensures
        ({
            let pos = clamp_cursor(*old(cursor), byte_len(old(text)@));
            if pos > 0 {
                &&& final(text)@ == remove_spec(old(text)@, pos - 1)
                &&& *final(cursor) == pos - 1
            } else {
                &&& final(text)@ == old(text)@
                &&& *final(cursor) == *old(cursor)
            }
        }),
{
    let ghost s = text@;
    let blen = text_byte_len(text.as_str());
    let pos = if *cursor < blen {
        *cursor
    } else {
        blen
    };
    if pos == 0 {
        return;
    }
    let cs = chars_of(text.as_str());
    let k = match find_boundary(&cs, pos - 1) {
        Some(k) => k,
        None => {
            assert(false);
            0
        },
    };
    proof {
        let b = pos - 1;
        let c = choose|j: int| boundary_at(s, b, j);
        lemma_boundary_unique(s, b, k as int, c);
        assert(s.take(s.len() as int) =~= s);
    }
    if k >= cs.len() {
        assert(false);
        return;
    }
    let mut out: Vec<char> = Vec::new();
    let mut i: usize = 0;
    while i < k
        invariant
            i <= k < cs.len(),
            out@ == cs@.take(i as int),
        decreases k - i,
    {
        out.push(cs[i]);
        assert(cs@.take(i as int).push(cs@[i as int]) =~= cs@.take(i as int + 1));
        i = i + 1;
    }
    let mut j: usize = k + 1;
    while j < cs.len()
        invariant
            k < j <= cs.len(),
            out@ == cs@.take(k as int) + cs@.subrange(k as int + 1, j as int),
        decreases cs.len() - j,
    {
        out.push(cs[j]);
        assert(cs@.take(k as int) + cs@.subrange(k as int + 1, j as int + 1) =~= (cs@.take(k as int)
            + cs@.subrange(k as int + 1, j as int)).push(cs@[j as int]));
        j = j + 1;
    }
    assert(cs@.subrange(k as int + 1, cs@.len() as int) =~= cs@.skip(k as int + 1));
    *text = string_from_chars(&out);
    *cursor = pos - 1;
}

/// Backspace right after typing a character takes that character back out:
/// the text is what it was and the cursor sits where the character went in.
pub proof fn lemma_backspace_undoes_insert(s: Seq<char>, cursor: usize, ch: char)
    requires
        can_insert(s, cursor),
        byte_len(s) < usize::MAX,
    ensures
        ({
            let pos = clamp_cursor(cursor, byte_len(s));
            let s2 = insert_spec(s, pos, ch);
            let c2 = (pos + 1) as usize;
            &&& can_backspace(s2, c2)
            &&& clamp_cursor(c2, byte_len(s2)) == pos + 1
            &&& remove_spec(s2, pos) == s
        }),
{
    let pos = clamp_cursor(cursor, byte_len(s));
    let k = char_index_at(s, pos);
    let s2 = insert_spec(s, pos, ch);
    assert(boundary_at(s, pos, k));
    lemma_take_strictly_increasing(s, k, s.len() as int);
    assert(s.take(s.len() as int) =~= s);
    // byte length of the new text
    assert(s2 =~= s.take(k) + (seq![ch] + s.skip(k)));
    lemma_byte_len_concat(s.take(k), seq![ch] + s.skip(k));
    lemma_byte_len_concat(seq![ch], s.skip(k));
    lemma_byte_len_single(ch);
    assert(s =~= s.take(k) + s.skip(k));
    lemma_byte_len_concat(s.take(k), s.skip(k));
    assert(byte_len(s2) == byte_len(s) + utf8_width(ch));
    // pos is still the boundary of index k in the new text
    assert(s2.take(k) =~= s.take(k));
    assert(boundary_at(s2, pos, k));
    let c = choose|j: int| boundary_at(s2, pos, j);
    lemma_boundary_unique(s2, pos, k, c);
    assert(s2.take(k) + s2.skip(k + 1) =~= s);
}

/// The cursor one byte to the left, stopping at the start.
pub fn cursor_left(cursor: usize) -> (r: usize)
    ensures
        r == if cursor > 0 {
            cursor - 1
        } else {
            0
        },
{
    if cursor > 0 {
        cursor - 1
    } else {
        0
    }
}

/// The cursor one byte to the right, stopping at the end of a `len`-byte text.
pub fn cursor_right(cursor: usize, len: usize) -> (r: usize)
    ensures
        r == if cursor < len {
            cursor + 1
        } else {
            len as int
        },
{
    if cursor < len {
        cursor + 1
    } else {
        len
    }
}

/// The byte length of a field's text (for the cursor moves).
pub fn field_byte_len(s: &String) -> (n: usize)
    requires
        byte_len(s@) <= usize::MAX,
    ensures
        n == byte_len(s@),
{
    text_byte_len(s.as_str())
}

} // verus!
