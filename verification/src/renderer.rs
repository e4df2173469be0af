//! What the terminal renderer decides before it draws: the rows of text
//! and their colours, the content hash that tells whether anything
//! changed, the URLs on screen, the split between scrollback and live
//! view, and the cursor blink state. Glyph shaping and pixel geometry are
//! the drawing layer's.
use vstd::prelude::*;

use crate::colors::{opaque, resolve_color, rgb, term_rgb, Rgba, TermColor};
use crate::text::{is_whitespace, is_ws};
use vstd::utf8::encode_scalar;

verus! {

// ---------------------------------------------------------------------------
// Input: cells, selection
// ---------------------------------------------------------------------------

/// One displayed cell: its grid line and column, character and foreground colour.
#[derive(Debug, Clone, Copy, PartialEq, Eq, Structural)]
pub struct RenderCell {
    pub line: i32,
    pub col: usize,
    pub c: char,
    pub fg: TermColor,
}

/// A selected range of the grid, from its top-left to its bottom-right point.
#[derive(Debug, Clone, Copy, PartialEq, Eq, Structural)]
pub struct SelectionRange {
    pub start_line: i32,
    pub start_col: usize,
    pub end_line: i32,
    pub end_col: usize,
    pub is_block: bool,
}

/// Whether the point (`line`, `col`) lies within the selection.
pub open spec fn sel_contains(s: SelectionRange, line: i32, col: usize) -> bool {
    &&& s.start_line <= line
    &&& s.end_line >= line
    &&& (s.start_col <= col || (s.start_line != line && !s.is_block))
    &&& (s.end_col >= col || (s.end_line != line && !s.is_block))
}

impl SelectionRange {
    /// Check if a point lies within the selection.
    pub fn contains(&self, line: i32, col: usize) -> (b: bool)
        ensures
            b == sel_contains(*self, line, col),
    {
        self.start_line <= line && self.end_line >= line && (self.start_col <= col || (
        self.start_line != line && !self.is_block)) && (self.end_col >= col || (self.end_line
            != line && !self.is_block))
    }
}

// ---------------------------------------------------------------------------
// Rows
// ---------------------------------------------------------------------------

/// One row of text to draw: its grid line, characters and colour.
#[derive(Debug, Clone)]
pub struct Row {
    pub line: i32,
    pub text: String,
    pub color: Rgba,
}

/// The contents of a [`Row`].
pub struct RowView {
    pub line: i32,
    pub text: Seq<char>,
    pub color: Rgba,
}

impl View for Row {
    type V = RowView;

    open spec fn view(&self) -> RowView {
        RowView { line: self.line, text: self.text@, color: self.color }
    }
}

/// The contents of a sequence of rows.
pub open spec fn rows_view(v: Seq<Row>) -> Seq<RowView> {
    v.map_values(|r: Row| r@)
}

/// Whether a character draws something (not whitespace, not NUL).
pub open spec fn visible_char(c: char) -> bool {
    !is_ws(c) && c != '\0'
}

/// The colour of a selected row.
pub open spec fn selected_color() -> Rgba {
    rgb(0, 255, 255)
}

/// The colour of a row with nothing visible in it.
pub open spec fn default_fg() -> Rgba {
    rgb(211, 215, 207)
}

/// The colour of the padding put before a cell that starts past the row's end.
pub open spec fn transparent() -> Rgba {
    Rgba { r: 0, g: 0, b: 0, a: 0 }
}

/// The colour of the first visible character, or the default.
pub open spec fn first_visible_color(chars: Seq<(char, Rgba)>) -> Rgba
    decreases chars.len(),
{
    if chars.len() == 0 {
        default_fg()
    } else if visible_char(chars[0].0) {
        chars[0].1
    } else {
        first_visible_color(chars.drop_first())
    }
}

/// Whether some column of the row `line` (of `n` columns) is selected.
pub open spec fn row_selected(sel: Option<SelectionRange>, line: i32, n: int) -> bool {
    match sel {
        Some(s) => exists|col: int| 0 <= col < n && #[trigger] sel_contains(s, line, col as usize),
        None => false,
    }
}

/// The row drawn for `chars` on grid line `line`: selected rows in cyan,
/// others in the colour of their first visible character.
pub open spec fn make_row(line: i32, chars: Seq<(char, Rgba)>, sel: Option<SelectionRange>) -> RowView {
    RowView {
        line,
        text: chars.map_values(|p: (char, Rgba)| p.0),
        color: if row_selected(sel, line, chars.len() as int) {
            selected_color()
        } else {
            first_visible_color(chars)
        },
    }
}

/// Builds the row for `chars` on grid line `line`.
pub fn push_row(
    rows: &mut Vec<Row>,
    line: i32,
    chars: &[(char, Rgba)],
    selection: &Option<SelectionRange>,
)
    ensures
        rows_view(final(rows)@) == rows_view(old(rows)@).push(make_row(line, chars@, *selection)),
{
    let mut text = String::new();
    let mut i: usize = 0;
    while i < chars.len()
        invariant
            i <= chars@.len(),
            text@ == chars@.take(i as int).map_values(|p: (char, Rgba)| p.0),
        decreases chars@.len() - i,
    {
        text.push(chars[i].0);
        assert(chars@.take(i + 1).map_values(|p: (char, Rgba)| p.0) == chars@.take(
            i as int,
        ).map_values(|p: (char, Rgba)| p.0).push(chars@[i as int].0));
        i = i + 1;
    }
    assert(chars@.take(chars@.len() as int) == chars@);
    let mut selected = false;
    match selection {
        Some(sel) => {
            let mut col: usize = 0;
            while col < chars.len()
                invariant
                    col <= chars@.len(),
                    selected <==> exists|k: int|
                        0 <= k < col && #[trigger] sel_contains(*sel, line, k as usize),
                decreases chars@.len() - col,
            {
                let hit = sel.contains(line, col);
                assert(sel_contains(*sel, line, (col as int) as usize) == hit);
                if hit {
                    selected = true;
                }
                col = col + 1;
            }
        },
        None => {},
    }
    let color = if selected {
        opaque(0, 255, 255)
    } else {
        first_visible(chars)
    };
    let row = Row { line, text, color };
    rows.push(row);
    assert(rows_view(rows@) =~= rows_view(old(rows)@).push(make_row(line, chars@, *selection)));
}

/// The colour of the first visible character, or the default.
fn first_visible(chars: &[(char, Rgba)]) -> (c: Rgba)
    ensures
        c == first_visible_color(chars@),
{
    let mut i: usize = 0;
    assert(chars@.skip(0) == chars@);
    while i < chars.len()
        invariant
            i <= chars@.len(),
            first_visible_color(chars@) == first_visible_color(chars@.skip(i as int)),
        decreases chars@.len() - i,
    {
        assert(chars@.skip(i as int)[0] == chars@[i as int]);
        assert(chars@.skip(i as int).drop_first() == chars@.skip(i + 1));
        let (c, color) = chars[i];
        if !is_whitespace(c) && c != '\0' {
            return color;
        }
        i = i + 1;
    }
    assert(chars@.skip(i as int).len() == 0);
    opaque(211, 215, 207)
}

/// `cur` padded with transparent spaces up to `col` characters.
pub open spec fn pad_to(cur: Seq<(char, Rgba)>, col: int) -> Seq<(char, Rgba)> {
    if cur.len() >= col {
        cur
    } else {
        cur + Seq::new((col - cur.len()) as nat, |i: int| (' ', transparent()))
    }
}

/// Reading cells in display order: the rows completed, the line being
/// read (`i32::MIN` before the first cell) and its characters so far.
pub struct RowScan {
    pub rows: Seq<RowView>,
    pub line: i32,
    pub chars: Seq<(char, Rgba)>,
}

/// The state after reading `cells` in order: a change of line completes
/// the row being read; a cell past the row's end is preceded by padding.
pub open spec fn row_scan(cells: Seq<RenderCell>, sel: Option<SelectionRange>) -> RowScan
    decreases cells.len(),
{
    if cells.len() == 0 {
        RowScan { rows: seq![], line: i32::MIN, chars: seq![] }
    } else {
        let st = row_scan(cells.drop_last(), sel);
        let cell = cells.last();
        let (rows, cur) = if cell.line != st.line {
            (
                if st.line != i32::MIN {
                    st.rows.push(make_row(st.line, st.chars, sel))
                } else {
                    st.rows
                },
                Seq::<(char, Rgba)>::empty(),
            )
        } else {
            (st.rows, st.chars)
        };
        RowScan {
            rows,
            line: cell.line,
            chars: pad_to(cur, cell.col as int).push((cell.c, term_rgb(cell.fg))),
        }
    }
}

/// The rows of the displayed cells, one per grid line in display order.
pub open spec fn rows_of(cells: Seq<RenderCell>, sel: Option<SelectionRange>) -> Seq<RowView> {
    let st = row_scan(cells, sel);
    if st.line != i32::MIN {
        st.rows.push(make_row(st.line, st.chars, sel))
    } else {
        st.rows
    }
}

/// Builds the rows of the displayed cells.
pub fn build_rows(cells: &[RenderCell], selection: &Option<SelectionRange>) -> (rows: Vec<Row>)
    ensures
        rows_view(rows@) == rows_of(cells@, *selection),
{
    let mut rows: Vec<Row> = Vec::new();
    let mut current_line: i32 = i32::MIN;
    let mut current: Vec<(char, Rgba)> = Vec::new();
    let mut i: usize = 0;
    assert(rows_view(rows@) =~= row_scan(cells@.take(0), *selection).rows);
    while i < cells.len()
        invariant
            i <= cells@.len(),
            rows_view(rows@) == row_scan(cells@.take(i as int), *selection).rows,
            current_line == row_scan(cells@.take(i as int), *selection).line,
            current@ == row_scan(cells@.take(i as int), *selection).chars,
        decreases cells@.len() - i,
    {
        let cell = cells[i];
        assert(cells@.take(i + 1).drop_last() == cells@.take(i as int));
        assert(cells@.take(i + 1).last() == cell);
        if cell.line != current_line {
            if current_line != i32::MIN {
                push_row(&mut rows, current_line, &current, selection);
            }
            current_line = cell.line;
            current = Vec::new();
        }
        let ghost before = current@;
        while current.len() < cell.col
            invariant
                before.len() <= cell.col ==> current@ == before + Seq::new(
                    (current@.len() - before.len()) as nat,
                    |k: int| (' ', transparent()),
                ),
                before.len() > cell.col ==> current@ == before,
                before.len() <= current@.len(),
                current@.len() <= cell.col || current@ == before,
            decreases cell.col - current@.len(),
        {
            current.push((' ', Rgba { r: 0, g: 0, b: 0, a: 0 }));
            assert(before + Seq::new(
                (current@.len() - before.len()) as nat,
                |k: int| (' ', transparent()),
            ) =~= (before + Seq::new(
                (current@.len() - 1 - before.len()) as nat,
                |k: int| (' ', transparent()),
            )).push((' ', transparent())));
        }
        assert(current@ =~= pad_to(before, cell.col as int));
        current.push((cell.c, resolve_color(cell.fg)));
        i = i + 1;
    }
    assert(cells@.take(cells@.len() as int) == cells@);
    if current_line != i32::MIN {
        push_row(&mut rows, current_line, &current, selection);
    }
    rows
}

/// The row of live line `i` (counted from the top of the live view).
pub open spec fn live_row(i: int, cells: Seq<(char, TermColor)>) -> RowView {
    make_row(i as i32, cells.map_values(|p: (char, TermColor)| (p.0, term_rgb(p.1))), None)
}

/// The contents of a sequence of lines of cells.
pub open spec fn lines_view(v: Seq<Vec<(char, TermColor)>>) -> Seq<Seq<(char, TermColor)>> {
    v.map_values(|l: Vec<(char, TermColor)>| l@)
}

/// The rows of the live view: one per line read from the bottom of the grid.
pub open spec fn live_rows_of(lines: Seq<Seq<(char, TermColor)>>) -> Seq<RowView> {
    Seq::new(lines.len(), |i: int| live_row(i, lines[i]))
}

/// Builds the rows of the live view.
pub fn build_live_rows(lines: &[Vec<(char, TermColor)>]) -> (rows: Vec<Row>)
    requires
        lines@.len() <= i32::MAX,
    ensures
        rows_view(rows@) == live_rows_of(lines_view(lines@)),
{
    let mut rows: Vec<Row> = Vec::new();
    let mut i: usize = 0;
    while i < lines.len()
        invariant
            i <= lines@.len() <= i32::MAX,
            rows_view(rows@) == live_rows_of(lines_view(lines@)).take(i as int),
        decreases lines@.len() - i,
    {
        let line = &lines[i];
        let mut chars: Vec<(char, Rgba)> = Vec::new();
        let mut k: usize = 0;
        while k < line.len()
            invariant
                k <= line@.len(),
                chars@ == line@.take(k as int).map_values(
                    |p: (char, TermColor)| (p.0, term_rgb(p.1)),
                ),
            decreases line@.len() - k,
        {
            let (c, fg) = line[k];
            chars.push((c, resolve_color(fg)));
            assert(line@.take(k + 1).map_values(|p: (char, TermColor)| (p.0, term_rgb(p.1)))
                =~= line@.take(k as int).map_values(
                |p: (char, TermColor)| (p.0, term_rgb(p.1)),
            ).push((c, term_rgb(fg))));
            k = k + 1;
        }
        assert(line@.take(line@.len() as int) == line@);
        push_row(&mut rows, i as i32, &chars, &None);
        assert(rows_view(rows@) =~= live_rows_of(lines_view(lines@)).take(i + 1));
        i = i + 1;
    }
    assert(live_rows_of(lines_view(lines@)).take(lines@.len() as int) =~= live_rows_of(
        lines_view(lines@),
    ));
    rows
}

// ---------------------------------------------------------------------------
// Content hash
// ---------------------------------------------------------------------------

/// The hash mixed in for a selection.
pub open spec fn hash_selection(h: u64, s: SelectionRange) -> u64 {
    h.wrapping_mul(31).wrapping_add((s.start_line as i64 as u64).wrapping_mul(101)).wrapping_add(
        (s.start_col as u64).wrapping_mul(103),
    ).wrapping_add((s.end_line as i64 as u64).wrapping_mul(107)).wrapping_add(
        (s.end_col as u64).wrapping_mul(109),
    )
}

/// The hash mixed in for one displayed cell.
pub open spec fn hash_cell(h: u64, cell: RenderCell) -> u64 {
    h.wrapping_mul(31).wrapping_add(cell.c as u64).wrapping_add(
        (cell.col as u64 * 97) as u64,
    ).wrapping_add((cell.line as i64 as u64).wrapping_mul(7919))
}

/// The hash mixed in for one character of the live view.
pub open spec fn hash_char(h: u64, c: char) -> u64 {
    h.wrapping_mul(31).wrapping_add(c as u64)
}

/// The hash mixed in for the cursor and its blink state.
pub open spec fn hash_cursor(h: u64, line: i32, col: usize, blink: bool) -> u64 {
    h.wrapping_mul(31).wrapping_add((line as i64 as u64).wrapping_mul(13)).wrapping_add(
        (col as u64 * 17) as u64,
    ).wrapping_add(if blink {
        1u64
    } else {
        0u64
    })
}

/// The hash after mixing in `cells` in order.
pub open spec fn hash_cells(h: u64, cells: Seq<RenderCell>) -> u64
    decreases cells.len(),
{
    if cells.len() == 0 {
        h
    } else {
        hash_cell(hash_cells(h, cells.drop_last()), cells.last())
    }
}

/// The hash after mixing in the characters `cs` in order.
pub open spec fn hash_chars(h: u64, cs: Seq<char>) -> u64
    decreases cs.len(),
{
    if cs.len() == 0 {
        h
    } else {
        hash_char(hash_chars(h, cs.drop_last()), cs.last())
    }
}

/// The hash after mixing in the texts of `rows` in order.
pub open spec fn hash_rows(h: u64, rows: Seq<RowView>) -> u64
    decreases rows.len(),
{
    if rows.len() == 0 {
        h
    } else {
        hash_chars(hash_rows(h, rows.drop_last()), rows.last().text)
    }
}

/// Whether the columns of `cells` are small enough for the hash's `col * 97`.
pub open spec fn hashable_cells(cells: Seq<RenderCell>) -> bool {
    forall|i: int| 0 <= i < cells.len() ==> (#[trigger] cells[i]).col as int * 97 <= u64::MAX
}

/// Mixes the displayed cells into the hash.
pub fn hash_cells_exec(h: u64, cells: &[RenderCell]) -> (r: u64)
    requires
        hashable_cells(cells@),
    ensures
        r == hash_cells(h, cells@),
{
    let mut acc = h;
    let mut i: usize = 0;
    while i < cells.len()
        invariant
            i <= cells@.len(),
            hashable_cells(cells@),
            acc == hash_cells(h, cells@.take(i as int)),
        decreases cells@.len() - i,
    {
        let cell = cells[i];
        assert(cells@.take(i + 1).drop_last() == cells@.take(i as int));
        assert(cells@[i as int].col as int * 97 <= u64::MAX);
        acc = acc.wrapping_mul(31).wrapping_add(cell.c as u64).wrapping_add(
            cell.col as u64 * 97,
        ).wrapping_add((cell.line as i64 as u64).wrapping_mul(7919));
        i = i + 1;
    }
    assert(cells@.take(cells@.len() as int) == cells@);
    acc
}

/// Mixes the characters of a string into the hash.
fn hash_text(h: u64, s: &String) -> (r: u64)
    ensures
        r == hash_chars(h, s@),
{
    let v = crate::text::chars_of(s.as_str());
    let mut acc = h;
    let mut i: usize = 0;
    while i < v.len()
        invariant
            i <= v@.len(),
            v@ == s@,
            acc == hash_chars(h, v@.take(i as int)),
        decreases v@.len() - i,
    {
        assert(v@.take(i + 1).drop_last() == v@.take(i as int));
        acc = acc.wrapping_mul(31).wrapping_add(v[i] as u64);
        i = i + 1;
    }
    assert(v@.take(v@.len() as int) == v@);
    acc
}

/// Mixes the texts of rows into the hash.
pub fn hash_rows_exec(h: u64, rows: &[Row]) -> (r: u64)
    ensures
        r == hash_rows(h, rows_view(rows@)),
{
    let mut acc = h;
    let mut i: usize = 0;
    while i < rows.len()
        invariant
            i <= rows@.len(),
            acc == hash_rows(h, rows_view(rows@).take(i as int)),
        decreases rows@.len() - i,
    {
        assert(rows_view(rows@).take(i + 1).drop_last() == rows_view(rows@).take(i as int));
        acc = hash_text(acc, &rows[i].text);
        i = i + 1;
    }
    assert(rows_view(rows@).take(rows@.len() as int) == rows_view(rows@));
    acc
}

// ---------------------------------------------------------------------------
// URLs
// ---------------------------------------------------------------------------

/// The URL pattern: `http://` or `https://` and everything up to
/// whitespace or one of ``< > " ' ` ] )``.
pub fn url_pattern() -> (p: &'static str)
    ensures
        p@ == r#"https?://[^\s<>"'`\]\)]+"#@,
{
    r#"https?://[^\s<>"'`\]\)]+"#
}

/// The successive non-overlapping matches of `pattern` in `text`, as
/// `regex::Regex::find_iter` reports them: matched text, start and end byte
/// offsets. No match when the pattern does not compile.
pub uninterp spec fn regex_matches(pattern: Seq<char>, text: Seq<char>) -> Seq<(Seq<char>, usize, usize)>;

/// The contents of a list of matches.
pub open spec fn matches_view(v: Seq<(String, usize, usize)>) -> Seq<(Seq<char>, usize, usize)> {
    v.map_values(|m: (String, usize, usize)| (m.0@, m.1, m.2))
}

/// Calls `regex::Regex::new` and `Regex::find_iter`; the matches are named
/// `regex_matches`.
#[verifier::external_body]
fn find_matches(pattern: &str, text: &str) -> (r: Vec<(String, usize, usize)>)
    ensures
        matches_view(r@) == regex_matches(pattern@, text@),
{
    match regex::Regex::new(pattern) {
        Ok(re) => re.find_iter(text).map(|m| (m.as_str().to_string(), m.start(), m.end())).collect(),
        Err(_) => Vec::new(),
    }
}

/// A detected URL in the terminal with its position.
#[derive(Clone, Debug)]
pub struct DetectedUrl {
    pub url: String,
    /// Terminal grid line index
    pub line: i32,
    /// Start column (inclusive)
    pub col_start: usize,
    /// End column (exclusive)
    pub col_end: usize,
}

/// The contents of a [`DetectedUrl`].
pub struct DetectedUrlView {
    pub url: Seq<char>,
    pub line: i32,
    pub col_start: usize,
    pub col_end: usize,
}

impl View for DetectedUrl {
    type V = DetectedUrlView;

    open spec fn view(&self) -> DetectedUrlView {
        DetectedUrlView {
            url: self.url@,
            line: self.line,
            col_start: self.col_start,
            col_end: self.col_end,
        }
    }
}

/// The contents of a sequence of detected URLs.
pub open spec fn urls_view(v: Seq<DetectedUrl>) -> Seq<DetectedUrlView> {
    v.map_values(|u: DetectedUrl| u@)
}

/// The number of characters of `text` whose UTF-8 encoding starts before
/// byte offset `b`: the column of the character at byte `b`.
pub open spec fn chars_before(text: Seq<char>, b: int) -> int
    decreases text.len(),
{
    if text.len() == 0 || b <= 0 {
        0
    } else {
        1 + chars_before(text.drop_first(), b - encode_scalar(text[0] as u32).len())
    }
}

/// The URLs found by the matches `ms` in the text of grid line `line`: each
/// match's text, and the columns of its first character and of the
/// character after its last (the matches give byte offsets).
pub open spec fn match_urls(line: i32, text: Seq<char>, ms: Seq<(Seq<char>, usize, usize)>) -> Seq<
    DetectedUrlView,
> {
    Seq::new(
        ms.len(),
        |i: int|
            DetectedUrlView {
                url: ms[i].0,
                line,
                col_start: chars_before(text, ms[i].1 as int) as usize,
                col_end: chars_before(text, ms[i].2 as int) as usize,
            },
    )
}

/// The number of bytes of the UTF-8 encoding of `c`.
fn utf8_width(c: char) -> (n: usize)
    ensures
        n == encode_scalar(c as u32).len(),
{
    let u = c as u32;
    if u <= 0x7f {
        1
    } else if u <= 0x7ff {
        2
    } else if u <= 0xffff {
        3
    } else {
        4
    }
}

proof fn lemma_chars_before_bounded(text: Seq<char>, b: int)
    ensures
        0 <= chars_before(text, b) <= text.len(),
    decreases text.len(),
{
    if text.len() > 0 && b > 0 {
        lemma_chars_before_bounded(text.drop_first(), b - encode_scalar(text[0] as u32).len());
    }
}

/// The column of the character at byte offset `b` of a text.
pub fn column_of_byte(text: &[char], b: usize) -> (col: usize)
    ensures
        col == chars_before(text@, b as int),
{
    let mut i: usize = 0;
    let mut pos: usize = 0;
    let ghost mut seen: int = 0;
    assert(text@.skip(0) =~= text@);
    while i < text.len() && pos < b
        invariant
            i <= text@.len(),
            0 <= seen,
            pos as int == (if seen < usize::MAX {
                seen
            } else {
                usize::MAX as int
            }),
            chars_before(text@, b as int) == i + chars_before(text@.skip(i as int), b - seen),
        decreases text@.len() - i,
    {
        let w = utf8_width(text[i]);
        assert(text@.skip(i as int).drop_first() =~= text@.skip(i + 1));
        assert(text@.skip(i as int)[0] == text@[i as int]);
        proof {
            seen = seen + w;
        }
        pos = pos.saturating_add(w);
        i = i + 1;
    }
    proof {
        lemma_chars_before_bounded(text@.skip(i as int), b - seen);
        if i == text@.len() {
            assert(text@.skip(i as int).len() == 0);
        }
    }
    i
}

/// The URLs of one row: each match of the URL pattern in its text.
pub open spec fn row_urls(row: RowView) -> Seq<DetectedUrlView> {
    match_urls(row.line, row.text, regex_matches(r#"https?://[^\s<>"'`\]\)]+"#@, row.text))
}

/// The URLs of `rows`, row by row.
pub open spec fn urls_of(rows: Seq<RowView>) -> Seq<DetectedUrlView>
    decreases rows.len(),
{
    if rows.len() == 0 {
        seq![]
    } else {
        urls_of(rows.drop_last()) + row_urls(rows.last())
    }
}

/// The detected URLs of the pattern matches `matches` (text, start and end
/// byte offsets) found in `text` on grid line `line`, appended to `urls`.
pub fn push_match_urls(
    urls: &mut Vec<DetectedUrl>,
    line: i32,
    text: &str,
    matches: &[(String, usize, usize)],
)
    ensures
        urls_view(final(urls)@) == urls_view(old(urls)@) + match_urls(
            line,
            text@,
            matches_view(matches@),
        ),
{
    let ghost base = urls_view(urls@);
    let ghost mu = match_urls(line, text@, matches_view(matches@));
    let chars = crate::text::chars_of(text);
    let mut k: usize = 0;
    while k < matches.len()
        invariant
            k <= matches@.len(),
            chars@ == text@,
            mu == match_urls(line, text@, matches_view(matches@)),
            urls_view(urls@) == base + mu.take(k as int),
        decreases matches@.len() - k,
    {
        let m = &matches[k];
        assert(matches_view(matches@)[k as int] == (m.0@, m.1, m.2));
        let col_start = column_of_byte(&chars, m.1);
        let col_end = column_of_byte(&chars, m.2);
        let u = DetectedUrl { url: m.0.clone(), line, col_start, col_end };
        assert(mu[k as int] == u@);
        let ghost prev = urls@;
        urls.push(u);
        assert(urls_view(urls@) =~= urls_view(prev).push(u@));
        assert(mu.take(k + 1) =~= mu.take(k as int).push(u@));
        k = k + 1;
    }
    assert(mu.take(matches@.len() as int) =~= mu);
}

/// Finds the URLs in the rows.
pub fn detect_urls(rows: &[Row]) -> (urls: Vec<DetectedUrl>)
    ensures
        urls_view(urls@) == urls_of(rows_view(rows@)),
{
    let pattern = url_pattern();
    let mut urls: Vec<DetectedUrl> = Vec::new();
    let mut i: usize = 0;
    assert(urls_view(urls@) =~= urls_of(rows_view(rows@).take(0)));
    while i < rows.len()
        invariant
            i <= rows@.len(),
            pattern@ == r#"https?://[^\s<>"'`\]\)]+"#@,
            urls_view(urls@) == urls_of(rows_view(rows@).take(i as int)),
        decreases rows@.len() - i,
    {
        let row = &rows[i];
        assert(rows_view(rows@).take(i + 1).drop_last() == rows_view(rows@).take(i as int));
        assert(rows_view(rows@).take(i + 1).last() == row@);
        let ms = find_matches(pattern, row.text.as_str());
        push_match_urls(&mut urls, row.line, row.text.as_str(), &ms);
        i = i + 1;
    }
    assert(rows_view(rows@).take(rows@.len() as int) == rows_view(rows@));
    urls
}

/// The first URL covering column `col` of line `line`.
pub open spec fn url_at(urls: Seq<DetectedUrlView>, col: usize, line: i32) -> Option<Seq<char>>
    decreases urls.len(),
{
    if urls.len() == 0 {
        None
    } else if urls[0].line == line && urls[0].col_start <= col && col < urls[0].col_end {
        Some(urls[0].url)
    } else {
        url_at(urls.drop_first(), col, line)
    }
}

// ---------------------------------------------------------------------------
// Layout of the scrolled view
// ---------------------------------------------------------------------------

/// The number of live lines read from the bottom of the grid when scrolled.
pub const LIVE_LINE_COUNT: usize = 20;

/// The number of live rows shown when scrolled: 20, at most two thirds of
/// the screen, at least 2.
pub open spec fn live_rows_shown(screen_lines: usize) -> usize {
    let a = if 20 <= screen_lines * 2 / 3 {
        20
    } else {
        screen_lines * 2 / 3
    };
    if a >= 2 {
        a as usize
    } else {
        2
    }
}

/// The rows of a scrolled view: live rows shown, and scrollback rows above
/// the divider line.
pub fn split_layout(screen_lines: usize) -> (r: (usize, usize))
    requires
        screen_lines >= live_rows_shown(screen_lines) + 1,
    ensures
        r.0 == live_rows_shown(screen_lines),
        r.1 == screen_lines - live_rows_shown(screen_lines) - 1,
{
    let two_thirds = screen_lines / 3 * 2 + (screen_lines % 3) * 2 / 3;
    assert(two_thirds == screen_lines * 2 / 3) by (nonlinear_arith)
        requires
            two_thirds == screen_lines / 3 * 2 + (screen_lines % 3) * 2 / 3,
    ;
    let a = if LIVE_LINE_COUNT <= two_thirds {
        LIVE_LINE_COUNT
    } else {
        two_thirds
    };
    let actual_live = if a >= 2 {
        a
    } else {
        2
    };
    (actual_live, screen_lines - actual_live - 1)
}

/// The divider line between scrollback and live view: ` LIVE ` centred in
/// dashes across `cols` columns.
pub open spec fn divider(cols: usize) -> Seq<char> {
    let side = (if cols >= 6 {
        cols - 6
    } else {
        0
    }) / 2;
    let rest = if cols >= side + 6 {
        cols - (side + 6)
    } else {
        0
    };
    Seq::new(side as nat, |i: int| '-') + " LIVE "@ + Seq::new(rest as nat, |i: int| '-')
}

/// A run of `n` dashes appended to `s`.
fn push_dashes(s: &mut String, n: usize)
    ensures
        final(s)@ == old(s)@ + Seq::new(n as nat, |i: int| '-'),
{
    let mut k: usize = 0;
    while k < n
        invariant
            k <= n,
            s@ == old(s)@ + Seq::new(k as nat, |i: int| '-'),
        decreases n - k,
    {
        s.push('-');
        assert(old(s)@ + Seq::new((k + 1) as nat, |i: int| '-') =~= (old(s)@ + Seq::new(
            k as nat,
            |i: int| '-',
        )).push('-'));
        k = k + 1;
    }
}

/// The divider line between scrollback and live view.
pub fn divider_text(cols: usize) -> (s: String)
    ensures
        s@ == divider(cols),
{
    let label = " LIVE ";
    let side = cols.saturating_sub(6) / 2;
    let rest = cols.saturating_sub(side + 6);
    let mut s = String::new();
    push_dashes(&mut s, side);
    s.append(label);
    push_dashes(&mut s, rest);
    s
}

/// Whether a row draws anything.
pub open spec fn has_content(text: Seq<char>) -> bool {
    exists|i: int| 0 <= i < text.len() && visible_char(#[trigger] text[i])
}

/// Whether a text draws anything.
pub fn text_has_content(text: &String) -> (b: bool)
    ensures
        b == has_content(text@),
{
    let v = crate::text::chars_of(text.as_str());
    let mut i: usize = 0;
    while i < v.len()
        invariant
            i <= v@.len(),
            v@ == text@,
            forall|k: int| 0 <= k < i ==> !visible_char(#[trigger] v@[k]),
        decreases v@.len() - i,
    {
        if !is_whitespace(v[i]) && v[i] != '\0' {
            assert(visible_char(v@[i as int]));
            return true;
        }
        i = i + 1;
    }
    false
}

/// The grid line of the first row that draws anything, or 0.
pub open spec fn first_content_line(rows: Seq<RowView>) -> i32
    decreases rows.len(),
{
    if rows.len() == 0 {
        0
    } else if has_content(rows[0].text) {
        rows[0].line
    } else {
        first_content_line(rows.drop_first())
    }
}

/// The grid line of the first row that draws anything, or 0.
pub fn first_content_line_exec(rows: &[Row]) -> (l: i32)
    ensures
        l == first_content_line(rows_view(rows@)),
{
    let mut i: usize = 0;
    assert(rows_view(rows@).skip(0) == rows_view(rows@));
    while i < rows.len()
        invariant
            i <= rows@.len(),
            first_content_line(rows_view(rows@)) == first_content_line(rows_view(rows@).skip(
                i as int,
            )),
        decreases rows@.len() - i,
    {
        assert(rows_view(rows@).skip(i as int)[0] == rows@[i as int]@);
        assert(rows_view(rows@).skip(i as int).drop_first() == rows_view(rows@).skip(i + 1));
        if text_has_content(&rows[i].text) {
            return rows[i].line;
        }
        i = i + 1;
    }
    assert(rows_view(rows@).skip(i as int).len() == 0);
    0
}

// ---------------------------------------------------------------------------
// Screen slots
// ---------------------------------------------------------------------------

/// Where rows go on screen, counted in text rows from the top of the
/// terminal area: each drawn row as (its index, its slot).
pub open spec fn shifted_slots(rows: Seq<RowView>, first: i32, screen_lines: usize, k: nat) -> Seq<
    (usize, usize),
>
    decreases k,
{
    if k == 0 || k > rows.len() {
        seq![]
    } else {
        let prev = shifted_slots(rows, first, screen_lines, (k - 1) as nat);
        let r = rows[k - 1];
        let slot = r.line - first;
        if 0 <= slot < screen_lines && has_content(r.text) {
            prev.push(((k - 1) as usize, slot as usize))
        } else {
            prev
        }
    }
}

/// The unscrolled view: the first row that draws anything goes to the top;
/// every row goes as many slots below it as its grid line is below that
/// row's; rows that draw nothing or fall outside the screen are left out.
pub open spec fn normal_slots(rows: Seq<RowView>, screen_lines: usize) -> Seq<(usize, usize)> {
    shifted_slots(rows, first_content_line(rows), screen_lines, rows.len())
}

/// Rows placed one per slot from `base` on, the first `limit` of them;
/// rows that draw nothing keep their slot empty.
pub open spec fn indexed_slots(rows: Seq<RowView>, limit: usize, base: usize, k: nat) -> Seq<
    (usize, usize),
>
    decreases k,
{
    if k == 0 || k > rows.len() {
        seq![]
    } else {
        let prev = indexed_slots(rows, limit, base, (k - 1) as nat);
        if k - 1 < limit && has_content(rows[k - 1].text) {
            prev.push(((k - 1) as usize, (base + k - 1) as usize))
        } else {
            prev
        }
    }
}

/// The slots of the rows of a view, the divider and the cursor.
pub struct ScreenSlots {
    /// (index of a displayed row, its slot).
    pub rows: Vec<(usize, usize)>,
    /// (index of a live row, its slot); empty when not scrolled.
    pub live: Vec<(usize, usize)>,
    /// The slot of the divider line when scrolled.
    pub divider: Option<usize>,
    /// The slot of the cursor (above the terminal area when negative).
    pub cursor: i64,
}

/// The cursor's slot: below the divider, in the live rows, when scrolled
/// (its line 0 is the last live row, never above the first); otherwise as
/// far below the first drawing row as its grid line is below that row's.
pub open spec fn cursor_slot(rows: Seq<RowView>, scrolled: bool, screen_lines: usize, cursor_line: i32) -> int {
    if scrolled {
        let live = live_rows_shown(screen_lines);
        let in_live = cursor_line + live - 1;
        (screen_lines - live - 1) + 1 + (if in_live > 0 {
            in_live
        } else {
            0
        })
    } else {
        cursor_line - first_content_line(rows)
    }
}

/// The displayed rows placed in slots `< limit` from `base`.
fn place_indexed(rows: &[Row], limit: usize, base: usize) -> (v: Vec<(usize, usize)>)
    requires
        base + rows@.len() <= usize::MAX,
    ensures
        v@ == indexed_slots(rows_view(rows@), limit, base, rows@.len() as nat),
{
    let ghost rv = rows_view(rows@);
    let mut v: Vec<(usize, usize)> = Vec::new();
    let mut i: usize = 0;
    while i < rows.len()
        invariant
            i <= rows@.len(),
            base + rows@.len() <= usize::MAX,
            rv == rows_view(rows@),
            v@ == indexed_slots(rv, limit, base, i as nat),
        decreases rows@.len() - i,
    {
        assert(rv[i as int] == rows@[i as int]@);
        if i < limit && text_has_content(&rows[i].text) {
            v.push((i, base + i));
        }
        i = i + 1;
    }
    v
}

/// The displayed rows of the unscrolled view placed in slots.
fn place_shifted(rows: &[Row], screen_lines: usize) -> (v: Vec<(usize, usize)>)
    ensures
        v@ == normal_slots(rows_view(rows@), screen_lines),
{
    let ghost rv = rows_view(rows@);
    let first = first_content_line_exec(rows);
    let mut v: Vec<(usize, usize)> = Vec::new();
    let mut i: usize = 0;
    while i < rows.len()
        invariant
            i <= rows@.len(),
            rv == rows_view(rows@),
            first == first_content_line(rv),
            v@ == shifted_slots(rv, first, screen_lines, i as nat),
        decreases rows@.len() - i,
    {
        assert(rv[i as int] == rows@[i as int]@);
        let slot: i64 = rows[i].line as i64 - first as i64;
        if slot >= 0 && (slot as u64) < (screen_lines as u64) && text_has_content(&rows[i].text) {
            v.push((i, slot as usize));
        }
        i = i + 1;
    }
    v
}

/// Places the rows of a frame on screen: when scrolled, the scrollback
/// rows from the top, the divider, then the live rows; otherwise the rows
/// shifted so that the first drawing row is at the top. Also places the cursor.
pub fn screen_slots(
    rows: &[Row],
    live_rows: &[Row],
    scrolled: bool,
    screen_lines: usize,
    cursor_line: i32,
) -> (s: ScreenSlots)
    requires
        scrolled ==> screen_lines >= live_rows_shown(screen_lines) + 1,
        rows@.len() <= usize::MAX - screen_lines,
        live_rows@.len() <= usize::MAX - screen_lines,
        screen_lines <= i32::MAX,
    ensures
        scrolled ==> {
            let live = live_rows_shown(screen_lines);
            let back = (screen_lines - live - 1) as usize;
            &&& s.rows@ == indexed_slots(rows_view(rows@), back, 0, rows@.len() as nat)
            &&& s.live@ == indexed_slots(
                rows_view(live_rows@),
                live,
                (back + 1) as usize,
                live_rows@.len() as nat,
            )
            &&& s.divider == Some(back)
        },
        !scrolled ==> s.rows@ == normal_slots(rows_view(rows@), screen_lines) && s.live@.len() == 0
            && s.divider is None,
        s.cursor == cursor_slot(rows_view(rows@), scrolled, screen_lines, cursor_line),
{
    if scrolled {
        let (live, back) = split_layout(screen_lines);
        let placed = place_indexed(rows, back, 0);
        let live_placed = place_indexed(live_rows, live, back + 1);
        let in_live: i64 = cursor_line as i64 + live as i64 - 1;
        let row_in_live: i64 = if in_live > 0 {
            in_live
        } else {
            0
        };
        let cursor: i64 = back as i64 + 1 + row_in_live;
        ScreenSlots { rows: placed, live: live_placed, divider: Some(back), cursor }
    } else {
        let placed = place_shifted(rows, screen_lines);
        let first = first_content_line_exec(rows);
        ScreenSlots {
            rows: placed,
            live: Vec::new(),
            divider: None,
            cursor: cursor_line as i64 - first as i64,
        }
    }
}

// ---------------------------------------------------------------------------
// The renderer's state between frames
// ---------------------------------------------------------------------------

/// What the terminal shows this frame.
pub struct FrameInput {
    /// The displayed cells, in display order.
    pub cells: Vec<RenderCell>,
    pub selection: Option<SelectionRange>,
    /// How far the view is scrolled back (0: at the bottom).
    pub display_offset: usize,
    /// When scrolled: the bottom lines of the grid, top to bottom.
    pub live_lines: Vec<Vec<(char, TermColor)>>,
    pub cursor_line: i32,
    pub cursor_col: usize,
}

/// What the renderer draws this frame.
pub struct FramePlan {
    pub rows: Vec<Row>,
    pub live_rows: Vec<Row>,
    pub content_hash: u64,
    pub scrolled: bool,
    /// Whether the drawing has to be rebuilt.
    pub rebuild: bool,
}

/// The content hash of a frame: the selection, the displayed cells, the
/// live view's text when scrolled, then the cursor and its blink state.
pub open spec fn frame_hash(input: FrameInput, live: Seq<RowView>, blink: bool) -> u64 {
    let h0: u64 = match input.selection {
        Some(s) => hash_selection(0, s),
        None => 0,
    };
    let h1 = hash_cells(h0, input.cells@);
    let h2 = if input.display_offset > 0 {
        hash_rows(h1, live)
    } else {
        h1
    };
    hash_cursor(h2, input.cursor_line, input.cursor_col, blink)
}

/// What planning the frame `input` does to the state `s0`, giving `s1`
/// and the plan: the rows are built, the content hashed, and, when the
/// hash changed or the view is scrolled, the new hash recorded and the
/// URLs on screen found again.
pub open spec fn frame_planned(
    s0: RendererState,
    s1: RendererState,
    input: FrameInput,
    plan: FramePlan,
) -> bool {
    &&& rows_view(plan.rows@) == rows_of(input.cells@, input.selection)
    &&& plan.scrolled == (input.display_offset > 0)
    &&& rows_view(plan.live_rows@) == (if plan.scrolled {
        live_rows_of(lines_view(input.live_lines@))
    } else {
        Seq::empty()
    })
    &&& plan.content_hash == frame_hash(input, rows_view(plan.live_rows@), s0.cursor_blink_visible)
    &&& plan.rebuild == (plan.content_hash != s0.last_content_hash || plan.scrolled)
    &&& plan.rebuild ==> s1.last_content_hash == plan.content_hash && urls_view(s1.detected_urls@)
        == urls_of(rows_view(plan.rows@))
    &&& !plan.rebuild ==> s1.last_content_hash == s0.last_content_hash && s1.detected_urls@
        == s0.detected_urls@
    &&& s1.cursor_blink_visible == s0.cursor_blink_visible
    &&& s1.cursor_active == s0.cursor_active
}

/// `s1` is `s0` with the cursor's blink visibility flipped.
pub open spec fn blink_toggled(s0: RendererState, s1: RendererState) -> bool {
    s1 == (RendererState { cursor_blink_visible: !s0.cursor_blink_visible, ..s0 })
}

/// The renderer's state kept between frames: the last content hash, the
/// URLs found on screen, and the cursor blink state.
pub struct RendererState {
    pub last_content_hash: u64,
    pub detected_urls: Vec<DetectedUrl>,
    pub cursor_blink_visible: bool,
    pub cursor_active: bool,
}

impl RendererState {
    /// The state before the first frame.
    pub fn new() -> (s: Self)
        ensures
            s.last_content_hash == 0,
            s.detected_urls@.len() == 0,
            s.cursor_blink_visible,
            !s.cursor_active,
    {
        RendererState {
            last_content_hash: 0,
            detected_urls: Vec::new(),
            cursor_blink_visible: true,
            cursor_active: false,
        }
    }

    /// Input arrived: the cursor becomes active and visible.
    pub fn mark_input(&mut self)
        ensures
            *final(self) == (RendererState {
                cursor_active: true,
                cursor_blink_visible: true,
                ..*old(self)
            }),
    {
        self.cursor_active = true;
        self.cursor_blink_visible = true;
    }

    /// A blink tick: the cursor's visibility flips; a redraw is always wanted.
    pub fn toggle_cursor_blink(&mut self) -> (redraw: bool)
        ensures
            redraw,
            blink_toggled(*old(self), *final(self)),
    {
        self.cursor_blink_visible = !self.cursor_blink_visible;
        true
    }

    /// Check if a terminal cell position (col, line) is on a detected URL.
    /// Returns the URL string if found.
    pub fn url_at_cell(&self, col: usize, line: i32) -> (r: Option<&str>)
        ensures
            match r {
                Some(u) => url_at(urls_view(self.detected_urls@), col, line) == Some(u@),
                None => url_at(urls_view(self.detected_urls@), col, line) is None,
            },
    {
        let ghost us = urls_view(self.detected_urls@);
        let mut i: usize = 0;
        assert(us.skip(0) == us);
        while i < self.detected_urls.len()
            invariant
                i <= self.detected_urls@.len(),
                us == urls_view(self.detected_urls@),
                url_at(us, col, line) == url_at(us.skip(i as int), col, line),
            decreases self.detected_urls@.len() - i,
        {
            assert(us.skip(i as int)[0] == self.detected_urls@[i as int]@);
            assert(us.skip(i as int).drop_first() == us.skip(i + 1));
            let u = &self.detected_urls[i];
            if u.line == line && col >= u.col_start && col < u.col_end {
                return Some(u.url.as_str());
            }
            i = i + 1;
        }
        assert(us.skip(i as int).len() == 0);
        None
    }

    /// Plans a frame: builds the rows (and, when scrolled, the live rows),
    /// hashes the content, and, when the content changed or the view is
    /// scrolled, records the new hash and finds the URLs on screen.
    pub fn plan_frame(&mut self, input: &FrameInput) -> (plan: FramePlan)
        requires
            hashable_cells(input.cells@),
            input.cursor_col as int * 17 <= u64::MAX,
            input.live_lines@.len() <= i32::MAX,
        ensures
            frame_planned(*old(self), *final(self), *input, plan),
    {
        let rows = build_rows(&input.cells, &input.selection);
        let scrolled = input.display_offset > 0;
        let live_rows = if scrolled {
            build_live_rows(&input.live_lines)
        } else {
            Vec::new()
        };
        assert(scrolled ==> rows_view(live_rows@) == live_rows_of(lines_view(input.live_lines@)));
        assert(!scrolled ==> rows_view(live_rows@) =~= Seq::<RowView>::empty());
        let h0: u64 = match &input.selection {
            Some(s) => 0u64.wrapping_mul(31).wrapping_add(
                (s.start_line as i64 as u64).wrapping_mul(101),
            ).wrapping_add((s.start_col as u64).wrapping_mul(103)).wrapping_add(
                (s.end_line as i64 as u64).wrapping_mul(107),
            ).wrapping_add((s.end_col as u64).wrapping_mul(109)),
            None => 0,
        };
        let h1 = hash_cells_exec(h0, &input.cells);
        let h2 = if scrolled {
            hash_rows_exec(h1, &live_rows)
        } else {
            h1
        };
        let blink_bit: u64 = if self.cursor_blink_visible {
            1
        } else {
            0
        };
        let hash = h2.wrapping_mul(31).wrapping_add(
            (input.cursor_line as i64 as u64).wrapping_mul(13),
        ).wrapping_add(input.cursor_col as u64 * 17).wrapping_add(blink_bit);
        let rebuild = hash != self.last_content_hash || scrolled;
        if rebuild {
            self.detected_urls = detect_urls(&rows);
            self.last_content_hash = hash;
        }
        FramePlan { rows, live_rows, content_hash: hash, scrolled, rebuild }
    }
}

// ---------------------------------------------------------------------------
// Laws
// ---------------------------------------------------------------------------

/// The divider spans the terminal: exactly `cols` characters when there
/// are at least six columns (the label's width), the label alone otherwise.
pub proof fn law_divider_width(cols: usize)
    ensures
        cols >= 6 ==> divider(cols).len() == cols,
        cols < 6 ==> divider(cols) == " LIVE "@,
{
    reveal_strlit(" LIVE ");
    if cols < 6 {
        assert(Seq::new(0, |i: int| '-') + " LIVE "@ + Seq::new(0, |i: int| '-') =~= " LIVE "@);
    }
}

/// A URL reported at a cell is one of the detected URLs, on that line and
/// covering that column.
pub proof fn law_url_at_covers(urls: Seq<DetectedUrlView>, col: usize, line: i32)
    ensures
        url_at(urls, col, line) matches Some(u) ==> exists|i: int|
            0 <= i < urls.len() && (#[trigger] urls[i]).url == u && urls[i].line == line
                && urls[i].col_start <= col && col < urls[i].col_end,
    decreases urls.len(),
{
    if urls.len() > 0 {
        if !(urls[0].line == line && urls[0].col_start <= col && col < urls[0].col_end) {
            law_url_at_covers(urls.drop_first(), col, line);
            if url_at(urls, col, line) is Some {
                let u = url_at(urls, col, line)->0;
                let i = choose|i: int|
                    0 <= i < urls.drop_first().len() && (#[trigger] urls.drop_first()[i]).url == u
                        && urls.drop_first()[i].line == line && urls.drop_first()[i].col_start <= col
                        && col < urls.drop_first()[i].col_end;
                assert(urls[i + 1] == urls.drop_first()[i]);
            }
        } else {
            assert(urls[0].url == url_at(urls, col, line)->0);
        }
    }
}

proof fn lemma_shifted_slots_bounded(rows: Seq<RowView>, first: i32, screen_lines: usize, k: nat)
    ensures
        forall|j: int|
            0 <= j < shifted_slots(rows, first, screen_lines, k).len() ==> (#[trigger] shifted_slots(
                rows,
                first,
                screen_lines,
                k,
            )[j]).1 < screen_lines,
    decreases k,
{
    if k > 0 && k <= rows.len() {
        lemma_shifted_slots_bounded(rows, first, screen_lines, (k - 1) as nat);
        let prev = shifted_slots(rows, first, screen_lines, (k - 1) as nat);
        let cur = shifted_slots(rows, first, screen_lines, k);
        assert forall|j: int| 0 <= j < cur.len() implies (#[trigger] cur[j]).1 < screen_lines by {
            if j < prev.len() {
                assert(cur[j] == prev[j]);
            }
        }
    }
}

proof fn lemma_indexed_slots_bounded(rows: Seq<RowView>, limit: usize, base: usize, k: nat)
    requires
        base + limit <= usize::MAX,
    ensures
        forall|j: int|
            0 <= j < indexed_slots(rows, limit, base, k).len() ==> base <= (#[trigger] indexed_slots(
                rows,
                limit,
                base,
                k,
            )[j]).1 < base + limit,
    decreases k,
{
    if k > 0 && k <= rows.len() {
        lemma_indexed_slots_bounded(rows, limit, base, (k - 1) as nat);
        let prev = indexed_slots(rows, limit, base, (k - 1) as nat);
        let cur = indexed_slots(rows, limit, base, k);
        assert forall|j: int| 0 <= j < cur.len() implies base <= (#[trigger] cur[j]).1 < base
            + limit by {
            if j < prev.len() {
                assert(cur[j] == prev[j]);
            }
        }
    }
}

/// Every row drawn lies inside the terminal area: unscrolled, within the
/// screen's lines; scrolled, the scrollback rows above the divider and the
/// live rows below it, within the screen.
pub proof fn law_rows_on_screen(rows: Seq<RowView>, live_rows: Seq<RowView>, screen_lines: usize)
    requires
        screen_lines >= live_rows_shown(screen_lines) + 1,
    ensures
        forall|j: int|
            0 <= j < normal_slots(rows, screen_lines).len() ==> (#[trigger] normal_slots(
                rows,
                screen_lines,
            )[j]).1 < screen_lines,
        ({
            let live = live_rows_shown(screen_lines);
            let back = (screen_lines - live - 1) as usize;
            &&& forall|j: int|
                0 <= j < indexed_slots(rows, back, 0, rows.len()).len() ==> (#[trigger] indexed_slots(
                    rows,
                    back,
                    0,
                    rows.len(),
                )[j]).1 < back
            &&& forall|j: int|
                0 <= j < indexed_slots(live_rows, live, (back + 1) as usize, live_rows.len()).len()
                    ==> back < (#[trigger] indexed_slots(
                    live_rows,
                    live,
                    (back + 1) as usize,
                    live_rows.len(),
                )[j]).1 < screen_lines
        }),
{
    let live = live_rows_shown(screen_lines);
    let back = (screen_lines - live - 1) as usize;
    lemma_shifted_slots_bounded(rows, first_content_line(rows), screen_lines, rows.len());
    lemma_indexed_slots_bounded(rows, back, 0, rows.len());
    lemma_indexed_slots_bounded(live_rows, live, (back + 1) as usize, live_rows.len());
}

/// Two blink ticks leave the renderer's state as it was.
pub proof fn law_blink_twice(s0: RendererState, s1: RendererState, s2: RendererState)
    requires
        blink_toggled(s0, s1),
        blink_toggled(s1, s2),
    ensures
        s2 == s0,
{
}

/// The number a selection adds to the content hash: its corners weighted
/// by 101, 103, 107 and 109 (lines taken as 64-bit two's complement),
/// modulo 2^64; no selection adds 0.
pub open spec fn selection_weight(sel: Option<SelectionRange>) -> int {
    match sel {
        None => 0,
        Some(s) => ((s.start_line as i64 as u64) as int * 101 + (s.start_col as u64) as int * 103
            + (s.end_line as i64 as u64) as int * 107 + (s.end_col as u64) as int * 109)
            % 0x1_0000_0000_0000_0000,
    }
}

proof fn lemma_wrapping_add_mod(x: u64, y: u64)
    ensures
        x.wrapping_add(y) as int == (x + y) % 0x1_0000_0000_0000_0000,
{
    let m: int = 0x1_0000_0000_0000_0000;
    if x + y > u64::MAX {
        vstd::arithmetic::div_mod::lemma_fundamental_div_mod_converse(x + y, m, 1, x + y - m);
    } else {
        vstd::arithmetic::div_mod::lemma_small_mod((x + y) as nat, m as nat);
    }
}

proof fn lemma_wrapping_mul_mod(x: u64, y: u64)
    ensures
        x.wrapping_mul(y) as int == (x * y) % 0x1_0000_0000_0000_0000,
{
}

proof fn lemma_wrapping_add_injective(x: u64, y: u64, c: u64)
    requires
        x.wrapping_add(c) == y.wrapping_add(c),
    ensures
        x == y,
{
}

proof fn lemma_undo_mul31(x: u64)
    ensures
        (x.wrapping_mul(31) as int * 0xEF7B_DEF7_BDEF_7BDF) % 0x1_0000_0000_0000_0000 == x,
{
    let m: int = 0x1_0000_0000_0000_0000;
    let inv: int = 0xEF7B_DEF7_BDEF_7BDF;
    let q: int = 29;
    assert(31 * inv == 1 + q * m);
    lemma_wrapping_mul_mod(x, 31);
    vstd::arithmetic::div_mod::lemma_mul_mod_noop_left(x * 31, inv, m);
    assert((x * 31) * inv == x + (x * q) * m) by (nonlinear_arith)
        requires
            31 * inv == 1 + q * m,
    ;
    vstd::arithmetic::div_mod::lemma_mod_multiples_vanish(x * q, x as int, m);
    assert((x * q) * m == m * (x * q)) by (nonlinear_arith);
    vstd::arithmetic::div_mod::lemma_small_mod(x as nat, m as nat);
}

proof fn lemma_wrapping_mul31_injective(x: u64, y: u64)
    requires
        x.wrapping_mul(31) == y.wrapping_mul(31),
    ensures
        x == y,
{
    lemma_undo_mul31(x);
    lemma_undo_mul31(y);
}

proof fn lemma_hash_cell_injective(h1: u64, h2: u64, cell: RenderCell)
    requires
        hash_cell(h1, cell) == hash_cell(h2, cell),
    ensures
        h1 == h2,
{
    let a = (cell.col as u64 * 97) as u64;
    let b = (cell.line as i64 as u64).wrapping_mul(7919);
    lemma_wrapping_add_injective(h1.wrapping_mul(31).wrapping_add(cell.c as u64).wrapping_add(a),
        h2.wrapping_mul(31).wrapping_add(cell.c as u64).wrapping_add(a), b);
    lemma_wrapping_add_injective(h1.wrapping_mul(31).wrapping_add(cell.c as u64),
        h2.wrapping_mul(31).wrapping_add(cell.c as u64), a);
    lemma_wrapping_add_injective(h1.wrapping_mul(31), h2.wrapping_mul(31), cell.c as u64);
    lemma_wrapping_mul31_injective(h1, h2);
}

proof fn lemma_hash_cells_injective(h1: u64, h2: u64, cells: Seq<RenderCell>)
    requires
        hash_cells(h1, cells) == hash_cells(h2, cells),
    ensures
        h1 == h2,
    decreases cells.len(),
{
    if cells.len() > 0 {
        lemma_hash_cell_injective(hash_cells(h1, cells.drop_last()), hash_cells(h2, cells.drop_last()), cells.last());
        lemma_hash_cells_injective(h1, h2, cells.drop_last());
    }
}

proof fn lemma_hash_chars_injective(h1: u64, h2: u64, cs: Seq<char>)
    requires
        hash_chars(h1, cs) == hash_chars(h2, cs),
    ensures
        h1 == h2,
    decreases cs.len(),
{
    if cs.len() > 0 {
        let g1 = hash_chars(h1, cs.drop_last());
        let g2 = hash_chars(h2, cs.drop_last());
        lemma_wrapping_add_injective(g1.wrapping_mul(31), g2.wrapping_mul(31), cs.last() as u64);
        lemma_wrapping_mul31_injective(g1, g2);
        lemma_hash_chars_injective(h1, h2, cs.drop_last());
    }
}

proof fn lemma_hash_rows_injective(h1: u64, h2: u64, rows: Seq<RowView>)
    requires
        hash_rows(h1, rows) == hash_rows(h2, rows),
    ensures
        h1 == h2,
    decreases rows.len(),
{
    if rows.len() > 0 {
        lemma_hash_chars_injective(hash_rows(h1, rows.drop_last()), hash_rows(h2, rows.drop_last()), rows.last().text);
        lemma_hash_rows_injective(h1, h2, rows.drop_last());
    }
}

proof fn lemma_hash_cursor_injective(h1: u64, h2: u64, line: i32, col: usize, blink: bool)
    requires
        hash_cursor(h1, line, col, blink) == hash_cursor(h2, line, col, blink),
    ensures
        h1 == h2,
{
    let a = (line as i64 as u64).wrapping_mul(13);
    let b = (col as u64 * 17) as u64;
    let c: u64 = if blink { 1 } else { 0 };
    lemma_wrapping_add_injective(h1.wrapping_mul(31).wrapping_add(a).wrapping_add(b),
        h2.wrapping_mul(31).wrapping_add(a).wrapping_add(b), c);
    lemma_wrapping_add_injective(h1.wrapping_mul(31).wrapping_add(a), h2.wrapping_mul(31).wrapping_add(a), b);
    lemma_wrapping_add_injective(h1.wrapping_mul(31), h2.wrapping_mul(31), a);
    lemma_wrapping_mul31_injective(h1, h2);
}

proof fn lemma_selection_start(sel: Option<SelectionRange>)
    ensures
        (match sel {
            Some(s) => hash_selection(0, s),
            None => 0u64,
        }) as int == selection_weight(sel),
{
    let m: int = 0x1_0000_0000_0000_0000;
    if sel is Some {
        let s = sel->0;
        let a = (s.start_line as i64 as u64);
        let b = (s.start_col as u64);
        let c = (s.end_line as i64 as u64);
        let d = (s.end_col as u64);
        lemma_wrapping_mul_mod(0, 31);
        lemma_wrapping_mul_mod(a, 101);
        lemma_wrapping_mul_mod(b, 103);
        lemma_wrapping_mul_mod(c, 107);
        lemma_wrapping_mul_mod(d, 109);
        let wa = a.wrapping_mul(101);
        let wb = b.wrapping_mul(103);
        let wc = c.wrapping_mul(107);
        let wd = d.wrapping_mul(109);
        let z = 0u64.wrapping_mul(31);
        assert(z == 0);
        lemma_wrapping_add_mod(z, wa);
        let s1 = z.wrapping_add(wa);
        assert(s1 == wa) by {
            vstd::arithmetic::div_mod::lemma_small_mod(wa as nat, m as nat);
        }
        lemma_wrapping_add_mod(s1, wb);
        let s2 = s1.wrapping_add(wb);
        lemma_wrapping_add_mod(s2, wc);
        let s3 = s2.wrapping_add(wc);
        lemma_wrapping_add_mod(s3, wd);
        let s4 = s3.wrapping_add(wd);
        assert(s4 == hash_selection(0, s));
        let pa = a * 101;
        let pb = b * 103;
        let pc = c * 107;
        let pd = d * 109;
        vstd::arithmetic::div_mod::lemma_add_mod_noop(pa, pb, m);
        vstd::arithmetic::div_mod::lemma_add_mod_noop(pa + pb, pc, m);
        vstd::arithmetic::div_mod::lemma_add_mod_noop(pa + pb + pc, pd, m);
        vstd::arithmetic::div_mod::lemma_mod_twice(pa + pb, m);
        vstd::arithmetic::div_mod::lemma_mod_twice(pa + pb + pc, m);
    }
}

/// The content hash tells selections apart: two frames that differ only in
/// the selection, with different selection weights, hash differently.
pub proof fn law_selection_changes_hash(a: FrameInput, b: FrameInput, live: Seq<RowView>, blink: bool)
    requires
        a.cells@ == b.cells@,
        a.display_offset == b.display_offset,
        a.cursor_line == b.cursor_line,
        a.cursor_col == b.cursor_col,
        selection_weight(a.selection) != selection_weight(b.selection),
    ensures
        frame_hash(a, live, blink) != frame_hash(b, live, blink),
{
    lemma_selection_start(a.selection);
    lemma_selection_start(b.selection);
    let ha: u64 = match a.selection {
        Some(s) => hash_selection(0, s),
        None => 0,
    };
    let hb: u64 = match b.selection {
        Some(s) => hash_selection(0, s),
        None => 0,
    };
    if frame_hash(a, live, blink) == frame_hash(b, live, blink) {
        let h1a = hash_cells(ha, a.cells@);
        let h1b = hash_cells(hb, b.cells@);
        let h2a = if a.display_offset > 0 { hash_rows(h1a, live) } else { h1a };
        let h2b = if b.display_offset > 0 { hash_rows(h1b, live) } else { h1b };
        lemma_hash_cursor_injective(h2a, h2b, a.cursor_line, a.cursor_col, blink);
        if a.display_offset > 0 {
            lemma_hash_rows_injective(h1a, h1b, live);
        }
        lemma_hash_cells_injective(ha, hb, a.cells@);
    }
}

/// A change of selection is redrawn: after planning a frame, planning one
/// that differs from it only in the selection (with a different selection
/// weight) gives a different content hash and rebuilds the drawing.
pub proof fn law_selection_change_redraws(
    s0: RendererState,
    s1: RendererState,
    s2: RendererState,
    a: FrameInput,
    b: FrameInput,
    first: FramePlan,
    second: FramePlan,
)
    requires
        frame_planned(s0, s1, a, first),
        frame_planned(s1, s2, b, second),
        a.cells@ == b.cells@,
        a.display_offset == b.display_offset,
        a.live_lines@ == b.live_lines@,
        a.cursor_line == b.cursor_line,
        a.cursor_col == b.cursor_col,
        selection_weight(a.selection) != selection_weight(b.selection),
    ensures
        first.content_hash != second.content_hash,
        second.rebuild,
{
    assert(rows_view(first.live_rows@) == rows_view(second.live_rows@));
    law_selection_changes_hash(a, b, rows_view(first.live_rows@), s0.cursor_blink_visible);
}

/// Planning the same unscrolled frame twice rebuilds nothing the second
/// time: the recorded hash and the URLs found stay as the first plan left
/// them, and both plans have the same rows.
pub proof fn law_same_frame_not_rebuilt(
    s0: RendererState,
    s1: RendererState,
    s2: RendererState,
    input: FrameInput,
    first: FramePlan,
    second: FramePlan,
)
    requires
        frame_planned(s0, s1, input, first),
        frame_planned(s1, s2, input, second),
        input.display_offset == 0,
    ensures
        !second.rebuild,
        s2.last_content_hash == s1.last_content_hash,
        s2.detected_urls@ == s1.detected_urls@,
        rows_view(second.rows@) == rows_view(first.rows@),
{
    assert(rows_view(first.live_rows@) == rows_view(second.live_rows@));
}

} // verus!
