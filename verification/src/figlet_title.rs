//! Big-picture detail title, rendered with the TOIlet "Future" font of
//! `figlet-rs`. Long titles are wrapped by whole words (never mid-word) into at
//! most two fixed-height lines; a title the font cannot fully render falls
//! back to plain text.
use vstd::prelude::*;
use crate::text::{chars_of, join_chars, join_spec, lines_spec, split_lines, split_words, split_ws_spec, string_from_chars, trim_chars, trim_end_chars, trim_end_spec, trim_spec, views};

verus! {

/// Maximum number of big-title lines reserved and rendered. Kept fixed so the
/// rest of the info panel never moves between games.
pub const MAX_LINES: usize = 2;

/// What the library reads of a rendered `FIGure`: its text (`as_str`), the
/// number of glyphs the font found for the message, and the font height.
pub struct FigArt {
    pub text: String,
    pub glyph_count: usize,
    pub height: u32,
}

/// The Future-font rendering of a text: `(as_str text, glyph count, height)`,
/// or `None` when the font renders nothing. Fixed by the font bundled with
/// `figlet-rs`, so a function of the text alone.
pub uninterp spec fn future_render(text: Seq<char>) -> Option<(Seq<char>, nat, nat)>;

pub open spec fn fig_view(a: Option<FigArt>) -> Option<(Seq<char>, nat, nat)> {
    match a {
        Some(f) => Some((f.text@, f.glyph_count as nat, f.height as nat)),
        None => None,
    }
}

/// `figlet_rs::Toilet::future()` followed by `Toilet::convert(text)`. Its
/// result is named by [`future_render`]; the rendering itself is not stated.
/// The bundled font always parses, so the parse failure arm is never taken.
/// What its source shows is stated: an empty text renders nothing, a
/// rendering holds at least one glyph, and its height is the one the
/// bundled font's header gives (3 rows).
#[verifier::external_body]
fn render_future(text: &str) -> (r: Option<FigArt>)
    ensures
        fig_view(r) == future_render(text@),
        text@.len() == 0 ==> r is None,
        r matches Some(f) ==> f.glyph_count > 0 && f.height == 3,
{
    match figlet_rs::Toilet::future() {
        Ok(font) => match font.convert(text) {
            Some(fig) => Some(
                FigArt { text: fig.as_str(), glyph_count: fig.characters.len(), height: fig.height },
            ),
            None => None,
        },
        Err(_) => None,
    }
}

/// A length as the layout counts it, in a `u16` (`as u16`: kept modulo 2^16).
pub open spec fn trunc16(n: nat) -> u16 {
    (n % 65536) as u16
}

/// The rows of an art text: its lines with trailing whitespace removed.
pub open spec fn rows_spec(art: Seq<char>) -> Seq<Seq<char>> {
    lines_spec(art).map_values(|l: Seq<char>| trim_end_spec(l))
}

/// Width of the widest row (0 for no rows).
pub open spec fn max_width_spec(rows: Seq<Seq<char>>) -> u16
    decreases rows.len(),
{
    if rows.len() == 0 {
        0
    } else {
        let rest = max_width_spec(rows.drop_last());
        let w = trunc16(rows.last().len());
        if w >= rest {
            w
        } else {
            rest
        }
    }
}

/// Render width in columns of an art text (trailing spaces ignored).
pub open spec fn art_width_spec(art: Seq<char>) -> u16 {
    max_width_spec(rows_spec(art))
}

/// Width of `text` rendered by the Future font, or `u16::MAX` when the font
/// renders nothing.
pub open spec fn rendered_width_spec(text: Seq<char>) -> u16 {
    match future_render(text) {
        Some(a) => art_width_spec(a.0),
        None => u16::MAX,
    }
}

/// Height in rows of one Future line: the height reported for "A", or 6.
pub open spec fn line_height_spec() -> u16 {
    match future_render(seq!['A']) {
        Some(a) => trunc16(a.2),
        None => 6,
    }
}

/// The truncation marker: the unicode ellipsis when the font has that glyph,
/// ASCII dots otherwise.
pub open spec fn ellipsis_spec() -> Seq<char> {
    if future_render(seq!['\u{2026}']) is Some {
        seq!['\u{2026}']
    } else {
        seq!['.', '.', '.']
    }
}

/// Longest prefix of `body` (at most `k` characters, at least one) that
/// still fits `max` once the ellipsis is appended; the bare ellipsis when
/// none fits.
pub open spec fn truncate_search(body: Seq<char>, ell: Seq<char>, max: u16, k: nat) -> Seq<char>
    decreases k,
{
    if k < 1 {
        ell
    } else if rendered_width_spec(body.take(k as int) + ell) <= max {
        body.take(k as int) + ell
    } else {
        truncate_search(body, ell, max, (k - 1) as nat)
    }
}

/// A word chopped down so that, with the ellipsis, it fits `max`.
pub open spec fn truncate_spec(word: Seq<char>, max: u16) -> Seq<char> {
    let body = trim_spec(word);
    truncate_search(body, ellipsis_spec(), max, body.len())
}

/// A word as the wrapper uses it: truncated only when alone it overflows.
pub open spec fn fit_word(w: Seq<char>, max: u16) -> Seq<char> {
    if rendered_width_spec(w) > max {
        truncate_spec(w, max)
    } else {
        w
    }
}

/// The words of a title, each made to fit the panel.
pub open spec fn prepared_words(title: Seq<char>, max: u16) -> Seq<Seq<char>> {
    split_ws_spec(title).map_values(|w: Seq<char>| fit_word(w, max))
}

/// One line of words as it is rendered: the words joined by single spaces.
pub open spec fn line_text(words: Seq<Seq<char>>) -> Seq<char> {
    join_spec(words, seq![' '])
}

/// Greedy wrapping of `words`: `(finished lines, current line, stopped)`.
/// A word joins the current line when the line is empty or still fits; else
/// the line is closed, unless [`MAX_LINES`] lines would be exceeded, in which
/// case the remaining words are dropped.
pub open spec fn wrap_scan(words: Seq<Seq<char>>, max: u16) -> (
    Seq<Seq<Seq<char>>>,
    Seq<Seq<char>>,
    bool,
)
    decreases words.len(),
{
    if words.len() == 0 {
        (Seq::empty(), Seq::empty(), false)
    } else {
        let (lines, cur, stopped) = wrap_scan(words.drop_last(), max);
        let w = words.last();
        if stopped {
            (lines, cur, true)
        } else if cur.len() == 0 || rendered_width_spec(line_text(cur.push(w))) <= max {
            (lines, cur.push(w), false)
        } else if lines.len() + 1 >= MAX_LINES {
            (lines, cur, true)
        } else {
            (lines.push(cur), seq![w], false)
        }
    }
}

/// The word groups of a wrapped title, before joining.
pub open spec fn wrapped_groups(title: Seq<char>, max: u16) -> Seq<Seq<Seq<char>>> {
    let (lines, cur, _) = wrap_scan(prepared_words(title, max), max);
    if cur.len() > 0 {
        lines.push(cur)
    } else {
        lines
    }
}

/// Greedy whole-word wrap of `title` into at most [`MAX_LINES`] lines.
pub open spec fn wrap_words_spec(title: Seq<char>, max: u16) -> Seq<Seq<char>> {
    wrapped_groups(title, max).map_values(|g: Seq<Seq<char>>| line_text(g))
}

/// The art rows of each text that the font renders, one after the other.
pub open spec fn flat_rows(texts: Seq<Seq<char>>) -> Seq<Seq<char>>
    decreases texts.len(),
{
    if texts.len() == 0 {
        Seq::empty()
    } else {
        flat_rows(texts.drop_last()) + match future_render(texts.last()) {
            Some(a) => rows_spec(a.0),
            None => Seq::empty(),
        }
    }
}

/// The rendering of `title` when the font has a glyph for every character.
pub open spec fn renderable(title: Seq<char>) -> Option<(Seq<char>, nat, nat)> {
    match future_render(title) {
        Some(a) => if a.1 == title.len() {
            Some(a)
        } else {
            None
        },
        None => None,
    }
}

/// The title art: `(rows, line height, is_plain)`.
pub open spec fn render_title_spec(title: Seq<char>, max: u16) -> (Seq<Seq<char>>, u16, bool) {
    let lh = line_height_spec();
    match renderable(title) {
        Some(a) => if art_width_spec(a.0) <= max {
            (rows_spec(a.0), lh, false)
        } else {
            let rows = flat_rows(wrap_words_spec(title, max));
            if rows.len() == 0 {
                (seq![title], lh, true)
            } else {
                (rows, lh, false)
            }
        },
        None => (seq![title], lh, true),
    }
}

/// The words of consecutive groups, one after the other.
pub open spec fn flatten_groups(gs: Seq<Seq<Seq<char>>>) -> Seq<Seq<char>>
    decreases gs.len(),
{
    if gs.len() == 0 {
        Seq::empty()
    } else {
        flatten_groups(gs.drop_last()) + gs.last()
    }
}

proof fn lemma_wrap_scan_shape(words: Seq<Seq<char>>, max: u16)
    ensures
        ({
            let (lines, cur, stopped) = wrap_scan(words, max);
            &&& lines.len() < MAX_LINES
            &&& forall|i: int| 0 <= i < lines.len() ==> (#[trigger] lines[i]).len() > 0
            &&& forall|i: int|
                0 <= i < lines.len() && (#[trigger] lines[i]).len() >= 2 ==> rendered_width_spec(
                    line_text(lines[i]),
                ) <= max
            &&& cur.len() >= 2 ==> rendered_width_spec(line_text(cur)) <= max
            &&& lines.len() > 0 ==> cur.len() > 0
            &&& exists|k: int|
                0 <= k <= words.len() && flatten_groups(lines) + cur == words.take(k) && (!stopped
                    ==> k == words.len())
        }),
    decreases words.len(),
{
    if words.len() == 0 {
        assert(flatten_groups(Seq::<Seq<Seq<char>>>::empty()) + Seq::<Seq<char>>::empty()
            =~= words.take(0));
    } else {
        let prev = words.drop_last();
        lemma_wrap_scan_shape(prev, max);
        let (lines, cur, stopped) = wrap_scan(prev, max);
        let k = choose|k: int|
            0 <= k <= prev.len() && flatten_groups(lines) + cur == prev.take(k) && (!stopped
                ==> k == prev.len());
        let w = words.last();
        assert(prev.take(k) =~= words.take(k));
        if stopped {
        } else if cur.len() == 0 || rendered_width_spec(line_text(cur.push(w))) <= max {
            assert(flatten_groups(lines) + cur.push(w) =~= words.take(words.len() as int));
        } else if lines.len() + 1 >= MAX_LINES {
        } else {
            let nl = lines.push(cur);
            assert(nl.drop_last() =~= lines);
            assert(flatten_groups(nl) =~= flatten_groups(lines) + cur);
            assert(flatten_groups(nl) + seq![w] =~= words.take(words.len() as int));
            assert forall|i: int| 0 <= i < nl.len() implies (#[trigger] nl[i]).len() > 0 by {
                if i < lines.len() {
                    assert(nl[i] == lines[i]);
                }
            }
            assert forall|i: int|
                0 <= i < nl.len() && (#[trigger] nl[i]).len() >= 2 implies rendered_width_spec(
                line_text(nl[i]),
            ) <= max by {
                if i < lines.len() {
                    assert(nl[i] == lines[i]);
                }
            }
        }
    }
}

/// Wrapping keeps whole words in the order of the title: the lines are at most
/// [`MAX_LINES`], none is empty, their words read one after the other are the
/// title's (fitted) words up to some point, and every line of two or more
/// words renders within `max` columns.
pub proof fn lemma_wrap_words_shape(title: Seq<char>, max: u16)
    ensures
        wrap_words_spec(title, max).len() == wrapped_groups(title, max).len(),
        wrapped_groups(title, max).len() <= MAX_LINES,
        forall|i: int|
            0 <= i < wrapped_groups(title, max).len() ==> (#[trigger] wrapped_groups(
                title,
                max,
            )[i]).len() > 0,
        forall|i: int|
            0 <= i < wrapped_groups(title, max).len() ==> #[trigger] wrap_words_spec(title, max)[i]
                == line_text(wrapped_groups(title, max)[i]),
        forall|i: int|
            0 <= i < wrapped_groups(title, max).len() && (#[trigger] wrapped_groups(
                title,
                max,
            )[i]).len() >= 2 ==> rendered_width_spec(line_text(wrapped_groups(title, max)[i]))
                <= max,
        exists|k: int|
            0 <= k <= prepared_words(title, max).len() && flatten_groups(
                wrapped_groups(title, max),
            ) == prepared_words(title, max).take(k),
{
    let words = prepared_words(title, max);
    lemma_wrap_scan_shape(words, max);
    let (lines, cur, stopped) = wrap_scan(words, max);
    let gs = wrapped_groups(title, max);
    let k = choose|k: int|
        0 <= k <= words.len() && flatten_groups(lines) + cur == words.take(k) && (!stopped ==> k
            == words.len());
    if cur.len() > 0 {
        assert(gs.drop_last() =~= lines);
        assert(flatten_groups(gs) =~= flatten_groups(lines) + cur);
        assert forall|i: int| 0 <= i < gs.len() implies (#[trigger] gs[i]).len() > 0 by {
            if i < lines.len() {
                assert(gs[i] == lines[i]);
            }
        }
        assert forall|i: int|
            0 <= i < gs.len() && (#[trigger] gs[i]).len() >= 2 implies rendered_width_spec(
            line_text(gs[i]),
        ) <= max by {
            if i < lines.len() {
                assert(gs[i] == lines[i]);
            }
        }
    } else {
        assert(flatten_groups(gs) + cur =~= flatten_groups(gs));
    }
}

proof fn lemma_wrap_scan_greedy(words: Seq<Seq<char>>, max: u16)
    ensures
        ({
            let (lines, cur, stopped) = wrap_scan(words, max);
            &&& forall|i: int|
                0 <= i < lines.len() - 1 ==> rendered_width_spec(
                    line_text((#[trigger] lines[i]).push(lines[i + 1][0])),
                ) > max
            &&& lines.len() > 0 && cur.len() > 0 ==> rendered_width_spec(
                line_text(lines[lines.len() - 1].push(cur[0])),
            ) > max
            &&& stopped ==> exists|k: int|
                0 <= k < words.len() && flatten_groups(lines) + cur == words.take(k) && cur.len() > 0
                    && lines.len() + 1 >= MAX_LINES && rendered_width_spec(line_text(cur.push(words[k])))
                    > max
        }),
    decreases words.len(),
{
    if words.len() > 0 {
        let prev = words.drop_last();
        lemma_wrap_scan_greedy(prev, max);
        lemma_wrap_scan_shape(prev, max);
        let (lines, cur, stopped) = wrap_scan(prev, max);
        let w = words.last();
        if stopped {
            let k = choose|k: int|
                0 <= k < prev.len() && flatten_groups(lines) + cur == prev.take(k) && cur.len() > 0
                    && lines.len() + 1 >= MAX_LINES && rendered_width_spec(line_text(cur.push(prev[k])))
                    > max;
            assert(prev.take(k) =~= words.take(k));
            assert(prev[k] == words[k]);
        } else if cur.len() == 0 || rendered_width_spec(line_text(cur.push(w))) <= max {
            if lines.len() > 0 {
                assert(cur.push(w)[0] == cur[0]);
            }
        } else if lines.len() + 1 >= MAX_LINES {
            let k = choose|k: int|
                0 <= k <= prev.len() && flatten_groups(lines) + cur == prev.take(k) && (!stopped
                    ==> k == prev.len());
            assert(k == prev.len());
            assert(prev.take(k) =~= words.take(k));
            assert(words[k] == w);
        } else {
            let nl = lines.push(cur);
            assert forall|i: int| 0 <= i < nl.len() - 1 implies rendered_width_spec(
                line_text((#[trigger] nl[i]).push(nl[i + 1][0])),
            ) > max by {
                if i < lines.len() - 1 {
                    assert(nl[i] == lines[i]);
                    assert(nl[i + 1] == lines[i + 1]);
                } else {
                    assert(nl[i] == lines[lines.len() - 1]);
                    assert(nl[i + 1] == cur);
                }
            }
            assert(nl[nl.len() - 1] == cur);
            assert(seq![w][0] == w);
        }
    }
}

/// The wrap is greedy: a line ends only where its next word would not fit.
/// Each line joined with the first word of the line after it renders wider
/// than `max`; and when words are left out (the title needs more than
/// [`MAX_LINES`] lines), all [`MAX_LINES`] lines are used and the last one
/// joined with the first word left out renders wider than `max`.
pub proof fn lemma_wrap_words_greedy(title: Seq<char>, max: u16)
    ensures
        ({
            let gs = wrapped_groups(title, max);
            let words = prepared_words(title, max);
            &&& forall|i: int|
                0 <= i < gs.len() - 1 ==> rendered_width_spec(
                    line_text((#[trigger] gs[i]).push(gs[i + 1][0])),
                ) > max
            &&& flatten_groups(gs).len() <= words.len()
            &&& flatten_groups(gs).len() < words.len() ==> gs.len() == MAX_LINES && rendered_width_spec(
                line_text(gs[gs.len() - 1].push(words[flatten_groups(gs).len() as int])),
            ) > max
        }),
{
    let words = prepared_words(title, max);
    lemma_wrap_scan_shape(words, max);
    lemma_wrap_scan_greedy(words, max);
    let (lines, cur, stopped) = wrap_scan(words, max);
    let gs = wrapped_groups(title, max);
    let k = choose|k: int|
        0 <= k <= words.len() && flatten_groups(lines) + cur == words.take(k) && (!stopped ==> k
            == words.len());
    if cur.len() > 0 {
        assert(gs.drop_last() =~= lines);
        assert(flatten_groups(gs) =~= flatten_groups(lines) + cur);
        assert(gs[gs.len() - 1] == cur);
        assert forall|i: int| 0 <= i < gs.len() - 1 implies rendered_width_spec(
            line_text((#[trigger] gs[i]).push(gs[i + 1][0])),
        ) > max by {
            if i < lines.len() - 1 {
                assert(gs[i] == lines[i]);
                assert(gs[i + 1] == lines[i + 1]);
            } else {
                assert(gs[i] == lines[lines.len() - 1]);
                assert(gs[i + 1] == cur);
            }
        }
        if stopped {
            let j = choose|j: int|
                0 <= j < words.len() && flatten_groups(lines) + cur == words.take(j) && cur.len() > 0
                    && lines.len() + 1 >= MAX_LINES && rendered_width_spec(line_text(cur.push(words[j])))
                    > max;
            assert(flatten_groups(gs).len() == j);
        } else {
            assert(flatten_groups(gs).len() == words.len());
        }
    } else {
        assert(gs == lines);
        assert(lines.len() == 0);
        assert(flatten_groups(gs) =~= Seq::<Seq<char>>::empty());
        assert(words.take(k) =~= Seq::<Seq<char>>::empty());
        if stopped {
            let j = choose|j: int|
                0 <= j < words.len() && flatten_groups(lines) + cur == words.take(j) && cur.len() > 0
                    && lines.len() + 1 >= MAX_LINES && rendered_width_spec(line_text(cur.push(words[j])))
                    > max;
        }
    }
}

/// Result of rendering a game title for the detail panel.
pub struct TitleArt {
    /// One entry per terminal row of the finished art (1 or 2 lines x line height).
    pub rows: Vec<String>,
    /// Terminal rows per big-title line (constant).
    pub line_height: u16,
    /// True when the title fell back to plain text, e.g. the font is missing
    /// a glyph the title needs.
    pub is_plain: bool,
}

impl View for TitleArt {
    type V = (Seq<Seq<char>>, u16, bool);

    open spec fn view(&self) -> (Seq<Seq<char>>, u16, bool) {
        (self.rows@.map_values(|s: String| s@), self.line_height, self.is_plain)
    }
}

/// The rows of an art text.
fn art_rows(art: &String) -> (r: Vec<Vec<char>>)
    ensures
        views(r@) == rows_spec(art@),
{
    let v = chars_of(art.as_str());
    let lines = split_lines(&v);
    let mut out: Vec<Vec<char>> = Vec::new();
    let mut i: usize = 0;
    while i < lines.len()
        invariant
            i <= lines.len(),
            views(lines@) == lines_spec(v@),
            v@ == art@,
            views(out@) == lines_spec(v@).take(i as int).map_values(
                |l: Seq<char>| trim_end_spec(l),
            ),
        decreases lines.len() - i,
    {
        let t = trim_end_chars(&lines[i]);
        proof {
            assert(lines@[i as int]@ == lines_spec(v@)[i as int]);
        }
        let ghost before = views(out@);
        out.push(t);
        assert(views(out@) =~= before.push(t@));
        assert(lines_spec(v@).take(i as int + 1).map_values(|l: Seq<char>| trim_end_spec(l))
            =~= lines_spec(v@).take(i as int).map_values(|l: Seq<char>| trim_end_spec(l)).push(
            trim_end_spec(lines_spec(v@)[i as int]),
        ));
        i = i + 1;
    }
    assert(lines_spec(v@).take(lines.len() as int) =~= lines_spec(v@));
    out
}

/// The rows of an art text, as strings.
fn art_row_strings(art: &String) -> (r: Vec<String>)
    ensures
        r@.map_values(|s: String| s@) == rows_spec(art@),
{
    let rows = art_rows(art);
    let mut out: Vec<String> = Vec::new();
    let mut i: usize = 0;
    while i < rows.len()
        invariant
            i <= rows.len(),
            out@.map_values(|s: String| s@) == views(rows@).take(i as int),
        decreases rows.len() - i,
    {
        let s = string_from_chars(&rows[i]);
        let ghost before = out@.map_values(|s: String| s@);
        out.push(s);
        assert(out@.map_values(|s: String| s@) =~= before.push(s@));
        assert(views(rows@).take(i as int + 1) =~= views(rows@).take(i as int).push(
            rows@[i as int]@,
        ));
        i = i + 1;
    }
    assert(views(rows@).take(rows.len() as int) =~= views(rows@));
    out
}

/// Width of the widest of `rows`.
fn rows_width(rows: &Vec<Vec<char>>) -> (w: u16)
    ensures
        w == max_width_spec(views(rows@)),
{
    let mut best: u16 = 0;
    let mut i: usize = 0;
    assert(views(rows@).take(0) =~= Seq::<Seq<char>>::empty());
    while i < rows.len()
        invariant
            i <= rows.len(),
            best == max_width_spec(views(rows@).take(i as int)),
        decreases rows.len() - i,
    {
        let n = rows[i].len();
        let w: u16 = (n % 65536) as u16;
        assert(views(rows@).take(i as int + 1).drop_last() =~= views(rows@).take(i as int));
        assert(views(rows@).take(i as int + 1).last() == rows@[i as int]@);
        if w >= best {
            best = w;
        }
        i = i + 1;
    }
    assert(views(rows@).take(rows.len() as int) =~= views(rows@));
    best
}

/// Render width of an art text.
fn art_width(art: &String) -> (w: u16)
    ensures
        w == art_width_spec(art@),
{
    let rows = art_rows(art);
    rows_width(&rows)
}

/// Width of `text` rendered by the Future font (columns), or `u16::MAX` if the
/// font cannot render it at all.
pub fn rendered_width(text: &str) -> (w: u16)
    ensures
        w == rendered_width_spec(text@),
{
    match render_future(text) {
        Some(a) => art_width(&a.text),
        None => u16::MAX,
    }
}

fn rendered_width_chars(text: &Vec<char>) -> (w: u16)
    ensures
        w == rendered_width_spec(text@),
{
    let s = string_from_chars(text);
    rendered_width(s.as_str())
}

/// Height in terminal rows of one Future line (constant for a given font).
pub fn line_height() -> (h: u16)
    ensures
        h == line_height_spec(),
        h >= 1,
{
    let probe = "A";
    proof {
        reveal_strlit("A");
    }
    assert(probe@ =~= seq!['A']);
    match render_future(probe) {
        Some(a) => (a.height % 65536) as u16,
        None => 6,
    }
}

/// The truncation marker: the unicode ellipsis if the font has that glyph,
/// ASCII dots otherwise.
fn ellipsis() -> (e: Vec<char>)
    ensures
        e@ == ellipsis_spec(),
{
    let probe = "\u{2026}";
    proof {
        reveal_strlit("\u{2026}");
    }
    assert(probe@ =~= seq!['\u{2026}']);
    let mut e: Vec<char> = Vec::new();
    if render_future(probe).is_some() {
        e.push('\u{2026}');
        assert(e@ =~= seq!['\u{2026}']);
    } else {
        e.push('.');
        e.push('.');
        e.push('.');
        assert(e@ =~= seq!['.', '.', '.']);
    }
    e
}

/// `body.take(keep)` followed by `ell`.
fn prefix_with(body: &Vec<char>, keep: usize, ell: &Vec<char>) -> (r: Vec<char>)
    requires
        keep <= body.len(),
    ensures
        r@ == body@.take(keep as int) + ell@,
{
    let mut out: Vec<char> = Vec::new();
    let mut i: usize = 0;
    while i < keep
        invariant
            i <= keep <= body.len(),
            out@ == body@.take(i as int),
        decreases keep - i,
    {
        out.push(body[i]);
        assert(body@.take(i as int).push(body@[i as int]) =~= body@.take(i as int + 1));
        i = i + 1;
    }
    let mut j: usize = 0;
    while j < ell.len()
        invariant
            j <= ell.len(),
            out@ == body@.take(keep as int) + ell@.take(j as int),
        decreases ell.len() - j,
    {
        out.push(ell[j]);
        assert(body@.take(keep as int) + ell@.take(j as int + 1) =~= (body@.take(keep as int)
            + ell@.take(j as int)).push(ell@[j as int]));
        j = j + 1;
    }
    assert(ell@.take(ell.len() as int) =~= ell@);
    out
}

fn truncate_chars(word: &Vec<char>, max_width: u16) -> (r: Vec<char>)
    ensures
        r@ == truncate_spec(word@, max_width),
{
    let ell = ellipsis();
    let body = trim_chars(word);
    let total = body.len();
    let mut keep: usize = total;
    while keep >= 1
        invariant
            keep <= total == body.len(),
            ell@ == ellipsis_spec(),
            truncate_spec(word@, max_width) == truncate_search(
                body@,
                ell@,
                max_width,
                keep as nat,
            ),
        decreases keep,
    {
        let candidate = prefix_with(&body, keep, &ell);
        if rendered_width_chars(&candidate) <= max_width {
            return candidate;
        }
        keep = keep - 1;
    }
    ell
}

/// LAST-RESORT fallback, only reached when a single word is wider than the
/// whole title panel: the word is chopped down char by char and an ellipsis
/// is appended so the title still reads.
pub fn truncate_word_to_fit(word: &str, max_width: u16) -> (r: String)
    ensures
        r@ == truncate_spec(word@, max_width),
{
    let w = chars_of(word);
    let t = truncate_chars(&w, max_width);
    string_from_chars(&t)
}

/// The prepared words of a title.
fn prepare_words(title: &Vec<char>, max_width: u16) -> (r: Vec<Vec<char>>)
    ensures
        views(r@) == prepared_words(title@, max_width),
{
    let words = split_words(title);
    let mut out: Vec<Vec<char>> = Vec::new();
    let mut i: usize = 0;
    while i < words.len()
        invariant
            i <= words.len(),
            views(words@) == split_ws_spec(title@),
            views(out@) == split_ws_spec(title@).take(i as int).map_values(
                |w: Seq<char>| fit_word(w, max_width),
            ),
        decreases words.len() - i,
    {
        let w = &words[i];
        proof {
            assert(w@ == split_ws_spec(title@)[i as int]);
        }
        let fitted = if rendered_width_chars(w) > max_width {
            truncate_chars(w, max_width)
        } else {
            w.clone()
        };
        let ghost before = views(out@);
        out.push(fitted);
        assert(views(out@) =~= before.push(fitted@));
        assert(split_ws_spec(title@).take(i as int + 1).map_values(
            |w: Seq<char>| fit_word(w, max_width),
        ) =~= split_ws_spec(title@).take(i as int).map_values(
            |w: Seq<char>| fit_word(w, max_width),
        ).push(fit_word(split_ws_spec(title@)[i as int], max_width)));
        i = i + 1;
    }
    assert(split_ws_spec(title@).take(words.len() as int) =~= split_ws_spec(title@));
    out
}

/// The views of a sequence of word groups.
pub open spec fn group_views(g: Seq<Vec<Vec<char>>>) -> Seq<Seq<Seq<char>>> {
    g.map_values(|x: Vec<Vec<char>>| views(x@))
}

/// Word groups of the greedy wrap.
fn wrap_groups(words: &Vec<Vec<char>>, max_width: u16) -> (r: Vec<Vec<Vec<char>>>)
    ensures
        ({
            let (lines, cur, _) = wrap_scan(views(words@), max_width);
            group_views(r@) == if cur.len() > 0 {
                lines.push(cur)
            } else {
                lines
            }
        }),
{
    let mut lines: Vec<Vec<Vec<char>>> = Vec::new();
    let mut cur: Vec<Vec<char>> = Vec::new();
    let mut stopped = false;
    let mut i: usize = 0;
    assert(views(words@).take(0) =~= Seq::<Seq<char>>::empty());
    while i < words.len()
        invariant
            i <= words.len(),
            lines.len() < MAX_LINES,
            (group_views(lines@), views(cur@), stopped) == wrap_scan(
                views(words@).take(i as int),
                max_width,
            ),
        decreases words.len() - i,
    {
        let ghost ws = views(words@).take(i as int + 1);
        assert(ws.drop_last() =~= views(words@).take(i as int));
        assert(ws.last() == words@[i as int]@);
        if !stopped {
            let w = words[i].clone();
            let mut candidate = cur.clone();
            candidate.push(w.clone());
            let ghost cv = views(cur@);
            assert(views(candidate@) =~= cv.push(w@));
            let fits = if cur.len() == 0 {
                true
            } else {
                let joined = join_chars(&candidate, ' ');
                rendered_width_chars(&joined) <= max_width
            };
            if fits {
                cur = candidate;
            } else if lines.len() + 1 >= MAX_LINES {
                stopped = true;
            } else {
                let ghost lv = group_views(lines@);
                let finished = cur;
                lines.push(finished);
                assert(group_views(lines@) =~= lv.push(cv));
                cur = Vec::new();
                cur.push(w);
                assert(views(cur@) =~= seq![w@]);
            }
        }
        i = i + 1;
    }
    assert(views(words@).take(words.len() as int) =~= views(words@));
    if cur.len() > 0 {
        let ghost lv = group_views(lines@);
        let ghost cv = views(cur@);
        lines.push(cur);
        assert(group_views(lines@) =~= lv.push(cv));
    }
    lines
}

/// Greedy whole-word wrap into at most [`MAX_LINES`] lines. Every returned
/// line is a space-joined group of whole words; its real rendered width is
/// what decides the fit, so words are never split mid-word.
pub fn wrap_words(title: &str, max_width: u16) -> (r: Vec<String>)
    ensures
        r@.map_values(|s: String| s@) == wrap_words_spec(title@, max_width),
{
    let t = chars_of(title);
    let words = prepare_words(&t, max_width);
    let groups = wrap_groups(&words, max_width);
    let mut out: Vec<String> = Vec::new();
    let mut i: usize = 0;
    let ghost gs = wrapped_groups(title@, max_width);
    assert(group_views(groups@) == gs);
    while i < groups.len()
        invariant
            i <= groups.len(),
            group_views(groups@) == gs,
            out@.map_values(|s: String| s@) == gs.take(i as int).map_values(
                |g: Seq<Seq<char>>| line_text(g),
            ),
        decreases groups.len() - i,
    {
        let joined = join_chars(&groups[i], ' ');
        let s = string_from_chars(&joined);
        assert(views(groups@[i as int]@) == gs[i as int]);
        let ghost before = out@.map_values(|s: String| s@);
        out.push(s);
        assert(out@.map_values(|s: String| s@) =~= before.push(s@));
        assert(gs.take(i as int + 1).map_values(|g: Seq<Seq<char>>| line_text(g)) =~= gs.take(
            i as int,
        ).map_values(|g: Seq<Seq<char>>| line_text(g)).push(line_text(gs[i as int])));
        i = i + 1;
    }
    assert(gs.take(groups.len() as int) =~= gs);
    out
}

/// Render `title` into at most [`MAX_LINES`] big lines, each no wider than
/// `max_width` columns. Falls back to plain text when the font can't render
/// some character (empty title or missing glyphs).
pub fn render_title(title: &str, max_width: u16) -> (r: TitleArt)
    ensures
        r@ == render_title_spec(title@, max_width),
{
    let lh = line_height();
    let title_chars = chars_of(title);
    let full = render_future(title);
    let fits_whole: Option<bool> = match &full {
        Some(a) => if a.glyph_count == title_chars.len() {
            Some(art_width(&a.text) <= max_width)
        } else {
            None
        },
        None => None,
    };
    match fits_whole {
        Some(true) => {
            let a = full.unwrap();
            let rows = art_row_strings(&a.text);
            TitleArt { rows, line_height: lh, is_plain: false }
        },
        Some(false) => {
            let texts = wrap_words(title, max_width);
            let ghost tv = texts@.map_values(|s: String| s@);
            let mut rows: Vec<String> = Vec::new();
            let mut i: usize = 0;
            assert(tv.take(0) =~= Seq::<Seq<char>>::empty());
            while i < texts.len()
                invariant
                    i <= texts.len(),
                    tv == texts@.map_values(|s: String| s@),
                    rows@.map_values(|s: String| s@) == flat_rows(tv.take(i as int)),
                decreases texts.len() - i,
            {
                assert(tv.take(i as int + 1).drop_last() =~= tv.take(i as int));
                assert(tv.take(i as int + 1).last() == texts@[i as int]@);
                match render_future(texts[i].as_str()) {
                    Some(a) => {
                        let more = art_row_strings(&a.text);
                        let ghost before = rows@.map_values(|s: String| s@);
                        let mut j: usize = 0;
                        while j < more.len()
                            invariant
                                j <= more.len(),
                                rows@.map_values(|s: String| s@) == before + more@.map_values(
                                    |s: String| s@,
                                ).take(j as int),
                            decreases more.len() - j,
                        {
                            let ghost prev = rows@.map_values(|s: String| s@);
                            rows.push(more[j].clone());
                            assert(rows@.map_values(|s: String| s@) =~= prev.push(more@[j as int]@));
                            assert(before + more@.map_values(|s: String| s@).take(j as int + 1)
                                =~= (before + more@.map_values(|s: String| s@).take(
                                j as int,
                            )).push(more@[j as int]@));
                            j = j + 1;
                        }
                        assert(more@.map_values(|s: String| s@).take(more.len() as int)
                            =~= more@.map_values(|s: String| s@));
                    },
                    None => {
                        assert(flat_rows(tv.take(i as int + 1)) =~= flat_rows(tv.take(i as int)));
                    },
                }
                i = i + 1;
            }
            assert(tv.take(texts.len() as int) =~= tv);
            if rows.len() == 0 {
                let mut plain: Vec<String> = Vec::new();
                plain.push(string_from_chars(&title_chars));
                assert(plain@.map_values(|s: String| s@) =~= seq![title@]);
                TitleArt { rows: plain, line_height: lh, is_plain: true }
            } else {
                TitleArt { rows, line_height: lh, is_plain: false }
            }
        },
        None => {
            let mut plain: Vec<String> = Vec::new();
            plain.push(string_from_chars(&title_chars));
            assert(plain@.map_values(|s: String| s@) =~= seq![title@]);
            TitleArt { rows: plain, line_height: lh, is_plain: true }
        },
    }
}

} // verus!
