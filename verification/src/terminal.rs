//! Terminal-side decisions: the visible text of the screen, the side a
//! selection grows from, and the bytes sent to the shell for a key press.
use vstd::prelude::*;
use vstd::string::StringSliceAdditionalSpecFns;

use crate::text::{is_ws, lemma_trim_end_clean, trim_end, trim_end_chars, Trim};

verus! {

// ---------------------------------------------------------------------------
// Visible text
// ---------------------------------------------------------------------------

/// Reading displayed cells (grid line, character) in display order: the
/// finished non-blank lines, the line being read (`i32::MIN` before the
/// first cell) and its characters.
pub struct TextScan {
    pub lines: Seq<Seq<char>>,
    pub line: i32,
    pub chars: Seq<char>,
}

/// `ls` with `t` added when it is not empty.
pub open spec fn push_nonempty(ls: Seq<Seq<char>>, t: Seq<char>) -> Seq<Seq<char>> {
    if t.len() > 0 {
        ls.push(t)
    } else {
        ls
    }
}

/// The state after reading `cells` in order: a change of line finishes the
/// line being read (kept, without trailing whitespace, when not blank).
pub open spec fn text_scan(cells: Seq<(i32, char)>) -> TextScan
    decreases cells.len(),
{
    if cells.len() == 0 {
        TextScan { lines: seq![], line: i32::MIN, chars: seq![] }
    } else {
        let st = text_scan(cells.drop_last());
        let (line, c) = cells.last();
        if line != st.line {
            if st.line != i32::MIN {
                TextScan {
                    lines: push_nonempty(st.lines, trim_end(st.chars)),
                    line,
                    chars: seq![c],
                }
            } else {
                TextScan { lines: st.lines, line, chars: st.chars.push(c) }
            }
        } else {
            TextScan { lines: st.lines, line, chars: st.chars.push(c) }
        }
    }
}

/// The lines joined with `\n` between them.
pub open spec fn join_lines(ls: Seq<Seq<char>>) -> Seq<char>
    decreases ls.len(),
{
    if ls.len() == 0 {
        seq![]
    } else if ls.len() == 1 {
        ls[0]
    } else {
        join_lines(ls.drop_last()) + seq!['\n'] + ls.last()
    }
}

/// The non-blank lines of the screen, without trailing whitespace.
pub open spec fn visible_lines(cells: Seq<(i32, char)>) -> Seq<Seq<char>> {
    let st = text_scan(cells);
    if st.chars.len() > 0 {
        push_nonempty(st.lines, trim_end(st.chars))
    } else {
        st.lines
    }
}

/// The visible text of the screen: its non-blank lines without trailing
/// whitespace, joined with `\n`.
pub open spec fn visible_text_of(cells: Seq<(i32, char)>) -> Seq<char> {
    join_lines(visible_lines(cells))
}

/// A line is kept as seen: not empty, and not ending in whitespace.
pub open spec fn clean_line(l: Seq<char>) -> bool {
    l.len() > 0 && !is_ws(l.last())
}

proof fn lemma_push_nonempty_clean(ls: Seq<Seq<char>>, raw: Seq<char>)
    requires
        forall|i: int| 0 <= i < ls.len() ==> clean_line(#[trigger] ls[i]),
    ensures
        forall|i: int|
            0 <= i < push_nonempty(ls, trim_end(raw)).len() ==> clean_line(
                #[trigger] push_nonempty(ls, trim_end(raw))[i],
            ),
{
    lemma_trim_end_clean(raw, Trim::Whitespace);
}

proof fn lemma_scan_lines_clean(cells: Seq<(i32, char)>)
    ensures
        forall|i: int|
            0 <= i < text_scan(cells).lines.len() ==> clean_line(#[trigger] text_scan(cells).lines[i]),
    decreases cells.len(),
{
    if cells.len() > 0 {
        let st = text_scan(cells.drop_last());
        lemma_scan_lines_clean(cells.drop_last());
        lemma_push_nonempty_clean(st.lines, st.chars);
    }
}

/// The visible text holds trimmed lines only: each line of it is not empty
/// and has no trailing whitespace.
pub proof fn law_visible_lines_trimmed(cells: Seq<(i32, char)>)
    ensures
        forall|i: int|
            0 <= i < visible_lines(cells).len() ==> clean_line(#[trigger] visible_lines(cells)[i]),
{
    let st = text_scan(cells);
    lemma_scan_lines_clean(cells);
    lemma_push_nonempty_clean(st.lines, st.chars);
}

/// `s` with the characters `t` appended.
fn append_chars(s: &mut String, t: &[char])
    ensures
        final(s)@ == old(s)@ + t@,
{
    let mut i: usize = 0;
    while i < t.len()
        invariant
            i <= t@.len(),
            s@ == old(s)@ + t@.take(i as int),
        decreases t@.len() - i,
    {
        s.push(t[i]);
        assert(old(s)@ + t@.take(i + 1) =~= (old(s)@ + t@.take(i as int)).push(t@[i as int]));
        i = i + 1;
    }
    assert(t@.take(t@.len() as int) == t@);
}

/// Joins lines with `\n`.
fn join_exec(ls: &[Vec<char>]) -> (s: String)
    ensures
        s@ == join_lines(ls@.map_values(|l: Vec<char>| l@)),
{
    let ghost lv = ls@.map_values(|l: Vec<char>| l@);
    let mut s = String::new();
    let mut i: usize = 0;
    while i < ls.len()
        invariant
            i <= ls@.len(),
            lv == ls@.map_values(|l: Vec<char>| l@),
            s@ == join_lines(lv.take(i as int)),
        decreases ls@.len() - i,
    {
        assert(lv.take(i + 1).drop_last() == lv.take(i as int));
        assert(lv.take(i + 1).last() == ls@[i as int]@);
        if i > 0 {
            s.push('\n');
        } else {
            assert(s@ == Seq::<char>::empty());
        }
        append_chars(&mut s, &ls[i]);
        if i == 0 {
            assert(lv.take(1)[0] == ls@[0]@);
            assert(s@ =~= join_lines(lv.take(1)));
        } else {
            assert(s@ =~= join_lines(lv.take(i + 1)));
        }
        i = i + 1;
    }
    assert(lv.take(ls@.len() as int) == lv);
    s
}

/// Get visible terminal text as a string (for scanning/detection): the
/// displayed cells (grid line, character) in display order become lines
/// without trailing whitespace; blank lines are left out.
pub fn visible_text(cells: &[(i32, char)]) -> (text: String)
    ensures
        text@ == visible_text_of(cells@),
{
    let mut lines: Vec<Vec<char>> = Vec::new();
    let mut current_line: i32 = i32::MIN;
    let mut current: Vec<char> = Vec::new();
    let mut i: usize = 0;
    assert(lines@.map_values(|l: Vec<char>| l@) =~= text_scan(cells@.take(0)).lines);
    while i < cells.len()
        invariant
            i <= cells@.len(),
            lines@.map_values(|l: Vec<char>| l@) == text_scan(cells@.take(i as int)).lines,
            current_line == text_scan(cells@.take(i as int)).line,
            current@ == text_scan(cells@.take(i as int)).chars,
        decreases cells@.len() - i,
    {
        let (line, c) = cells[i];
        assert(cells@.take(i + 1).drop_last() == cells@.take(i as int));
        assert(cells@.take(i + 1).last() == (line, c));
        if line != current_line {
            if current_line != i32::MIN {
                let trimmed = trim_end_chars(&current, Trim::Whitespace);
                if trimmed.len() > 0 {
                    let ghost prev = lines@;
                    lines.push(trimmed);
                    assert(lines@.map_values(|l: Vec<char>| l@) =~= prev.map_values(
                        |l: Vec<char>| l@,
                    ).push(trimmed@));
                }
                current = Vec::new();
            }
            current_line = line;
        }
        current.push(c);
        assert(current@ == text_scan(cells@.take(i + 1)).chars);
        i = i + 1;
    }
    assert(cells@.take(cells@.len() as int) == cells@);
    if current.len() > 0 {
        let trimmed = trim_end_chars(&current, Trim::Whitespace);
        if trimmed.len() > 0 {
            let ghost prev = lines@;
            lines.push(trimmed);
            assert(lines@.map_values(|l: Vec<char>| l@) =~= prev.map_values(|l: Vec<char>| l@).push(
                trimmed@,
            ));
        }
    }
    join_exec(&lines)
}

// ---------------------------------------------------------------------------
// Selection
// ---------------------------------------------------------------------------

/// The side of a cell a selection point is anchored to.
#[derive(Debug, Clone, Copy, PartialEq, Eq, Structural)]
pub enum Side {
    Left,
    Right,
}

/// The side an updated selection end takes: `Left` when dragging to or
/// before the start (up, or left on the start's line), `Right` otherwise
/// and when no start was recorded.
pub open spec fn selection_side_spec(start: Option<(usize, i32)>, col: usize, line: i32) -> Side {
    match start {
        Some((sc, sl)) => if line < sl || (line == sl && col <= sc) {
            Side::Left
        } else {
            Side::Right
        },
        None => Side::Right,
    }
}

/// The side an updated selection end takes.
pub fn selection_side(start: Option<(usize, i32)>, col: usize, line: i32) -> (s: Side)
    ensures
        s == selection_side_spec(start, col, line),
{
    match start {
        Some((sc, sl)) => {
            if line < sl || (line == sl && col <= sc) {
                Side::Left
            } else {
                Side::Right
            }
        },
        None => Side::Right,
    }
}

// ---------------------------------------------------------------------------
// Keyboard input
// ---------------------------------------------------------------------------

/// The keys that send a fixed sequence to the shell.
#[derive(Debug, Clone, Copy, PartialEq, Eq, Structural)]
pub enum NamedKey {
    Enter,
    Backspace,
    Tab,
    Escape,
    ArrowUp,
    ArrowDown,
    ArrowRight,
    ArrowLeft,
    Home,
    End,
    PageUp,
    PageDown,
    Delete,
}

/// The bytes a named key sends (xterm sequences).
pub open spec fn key_sequence(k: NamedKey) -> Seq<u8> {
    match k {
        NamedKey::Enter => seq![0x0du8],
        NamedKey::Backspace => seq![0x7fu8],
        NamedKey::Tab => seq![0x09u8],
        NamedKey::Escape => seq![0x1bu8],
        NamedKey::ArrowUp => seq![0x1bu8, 0x5bu8, 0x41u8],
        NamedKey::ArrowDown => seq![0x1bu8, 0x5bu8, 0x42u8],
        NamedKey::ArrowRight => seq![0x1bu8, 0x5bu8, 0x43u8],
        NamedKey::ArrowLeft => seq![0x1bu8, 0x5bu8, 0x44u8],
        NamedKey::Home => seq![0x1bu8, 0x5bu8, 0x48u8],
        NamedKey::End => seq![0x1bu8, 0x5bu8, 0x46u8],
        NamedKey::PageUp => seq![0x1bu8, 0x5bu8, 0x35u8, 0x7eu8],
        NamedKey::PageDown => seq![0x1bu8, 0x5bu8, 0x36u8, 0x7eu8],
        NamedKey::Delete => seq![0x1bu8, 0x5bu8, 0x33u8, 0x7eu8],
    }
}

/// A byte vector holding `s`.
fn bytes_of(s: &[u8]) -> (v: Vec<u8>)
    ensures
        v@ == s@,
{
    let mut v: Vec<u8> = Vec::new();
    let mut i: usize = 0;
    while i < s.len()
        invariant
            i <= s@.len(),
            v@ == s@.take(i as int),
        decreases s@.len() - i,
    {
        v.push(s[i]);
        assert(s@.take(i + 1) == s@.take(i as int).push(s@[i as int]));
        i = i + 1;
    }
    assert(s@.take(s@.len() as int) == s@);
    v
}

/// The bytes a named key sends.
pub fn key_bytes(k: NamedKey) -> (b: Vec<u8>)
    ensures
        b@ == key_sequence(k),
{
    let mut b: Vec<u8> = Vec::new();
    match k {
        NamedKey::Enter => {
            b.push(0x0d);
        },
        NamedKey::Backspace => {
            b.push(0x7f);
        },
        NamedKey::Tab => {
            b.push(0x09);
        },
        NamedKey::Escape => {
            b.push(0x1b);
        },
        NamedKey::ArrowUp => {
            b.push(0x1b);
            b.push(0x5b);
            b.push(0x41);
        },
        NamedKey::ArrowDown => {
            b.push(0x1b);
            b.push(0x5b);
            b.push(0x42);
        },
        NamedKey::ArrowRight => {
            b.push(0x1b);
            b.push(0x5b);
            b.push(0x43);
        },
        NamedKey::ArrowLeft => {
            b.push(0x1b);
            b.push(0x5b);
            b.push(0x44);
        },
        NamedKey::Home => {
            b.push(0x1b);
            b.push(0x5b);
            b.push(0x48);
        },
        NamedKey::End => {
            b.push(0x1b);
            b.push(0x5b);
            b.push(0x46);
        },
        NamedKey::PageUp => {
            b.push(0x1b);
            b.push(0x5b);
            b.push(0x35);
            b.push(0x7e);
        },
        NamedKey::PageDown => {
            b.push(0x1b);
            b.push(0x5b);
            b.push(0x36);
            b.push(0x7e);
        },
        NamedKey::Delete => {
            b.push(0x1b);
            b.push(0x5b);
            b.push(0x33);
            b.push(0x7e);
        },
    }
    assert(b@ =~= key_sequence(k));
    b
}

/// The bytes a key press sends to the shell: a named key's sequence, else
/// the UTF-8 of the text the key produced; nothing when it produced none.
pub open spec fn input_bytes(key: Option<NamedKey>, text: Option<Seq<char>>) -> Option<Seq<u8>> {
    match key {
        Some(k) => Some(key_sequence(k)),
        None => match text {
            Some(t) => Some(vstd::utf8::encode_utf8(t)),
            None => None,
        },
    }
}

/// The bytes a key press sends to the shell.
pub fn terminal_input(key: Option<NamedKey>, text: Option<&str>) -> (b: Option<Vec<u8>>)
    ensures
        match b {
            Some(v) => input_bytes(
                key,
                match text {
                    Some(t) => Some(t@),
                    None => None,
                },
            ) == Some(v@),
            None => input_bytes(
                key,
                match text {
                    Some(t) => Some(t@),
                    None => None,
                },
            ) is None,
        },
{
    match key {
        Some(k) => Some(key_bytes(k)),
        None => match text {
            Some(t) => {
                let v = bytes_of(t.as_bytes());
                assert(v@ == t.spec_bytes());
                Some(v)
            },
            None => None,
        },
    }
}

/// Whether the UI layer keeps a window event to itself: when it consumed
/// it, unless it is a key press and no text field (the new-branch dialog)
/// is open.
pub fn ui_keeps_event(consumed: bool, is_keyboard: bool, dialog_open: bool) -> (b: bool)
    ensures
        b == (consumed && (!is_keyboard || dialog_open)),
{
    consumed && (!is_keyboard || dialog_open)
}

} // verus!
