//! Detection of URLs, application launches, build messages and file
//! activity in terminal output, and the grouping of detected items that
//! the portal side panel shows.
use vstd::prelude::*;
use vstd::utf8::encode_utf8;
use vstd::string::StringSliceAdditionalSpecFns;

use crate::text::{
    chars_equal, chars_of, contains, occurs_at, contains_char, contains_exec, find, find_exec, is_ws, lines,
    seqs_of, slice_chars, split_lines, split_words, string_from_chars, trim, trim_by, trim_chars,
    trim_end_by, trim_end_chars, words, Trim,
};

verus! {

// ---------------------------------------------------------------------------
// Time stamps
// ---------------------------------------------------------------------------

/// `std::time::Instant`, carried through as an opaque value.
#[verifier::external_type_specification]
#[verifier::external_body]
pub struct ExInstant(std::time::Instant);

/// `Instant` is `Copy`: its `Clone::clone` returns the same instant.
pub assume_specification[ <std::time::Instant as Clone>::clone ](i: &std::time::Instant) -> (r:
    std::time::Instant)
    ensures
        r == *i,
;

/// Calls `std::time::Instant::now`; nothing is stated of the instant it returns.
#[verifier::external_body]
fn instant_now() -> std::time::Instant {
    std::time::Instant::now()
}

// ---------------------------------------------------------------------------
// Detected items
// ---------------------------------------------------------------------------

/// The kind of a detected item.
#[derive(Debug, Clone, PartialEq)]
pub enum DetectedKind {
    Url,
    FilePath,
    BuildOutput,
    AppLaunch(String),
}

/// The contents of a [`DetectedKind`].
pub enum DetectedKindView {
    Url,
    FilePath,
    BuildOutput,
    AppLaunch(Seq<char>),
}

impl View for DetectedKind {
    type V = DetectedKindView;

    open spec fn view(&self) -> DetectedKindView {
        match self {
            DetectedKind::Url => DetectedKindView::Url,
            DetectedKind::FilePath => DetectedKindView::FilePath,
            DetectedKind::BuildOutput => DetectedKindView::BuildOutput,
            DetectedKind::AppLaunch(name) => DetectedKindView::AppLaunch(name@),
        }
    }
}

/// The label shown for a kind: its name, or the application's name.
pub open spec fn kind_label(k: DetectedKindView) -> Seq<char> {
    match k {
        DetectedKindView::Url => "URL"@,
        DetectedKindView::FilePath => "File"@,
        DetectedKindView::BuildOutput => "Build"@,
        DetectedKindView::AppLaunch(name) => name,
    }
}

/// The colour (red, green, blue) in which a kind is shown.
pub open spec fn kind_color(k: DetectedKindView) -> (u8, u8, u8) {
    match k {
        DetectedKindView::Url => (114, 159, 207),
        DetectedKindView::FilePath => (138, 226, 52),
        DetectedKindView::BuildOutput => (252, 233, 79),
        DetectedKindView::AppLaunch(_) => (173, 127, 168),
    }
}

impl DetectedKind {
    /// The label shown for this kind.
    pub fn label(&self) -> (l: &str)
        ensures
            l@ == kind_label(self@),
    {
        match self {
            DetectedKind::Url => "URL",
            DetectedKind::FilePath => "File",
            DetectedKind::BuildOutput => "Build",
            DetectedKind::AppLaunch(name) => name.as_str(),
        }
    }

    /// The colour (red, green, blue) in which this kind is shown.
    pub fn color(&self) -> (c: (u8, u8, u8))
        ensures
            c == kind_color(self@),
    {
        match self {
            DetectedKind::Url => (114, 159, 207),
            DetectedKind::FilePath => (138, 226, 52),
            DetectedKind::BuildOutput => (252, 233, 79),
            DetectedKind::AppLaunch(_) => (173, 127, 168),
        }
    }
}

/// A detected app or resource from terminal output.
#[derive(Debug, Clone)]
pub struct DetectedItem {
    pub kind: DetectedKind,
    pub value: String,
    pub timestamp: std::time::Instant,
}

/// The contents of a [`DetectedItem`] apart from its time stamp.
pub struct ItemView {
    pub kind: DetectedKindView,
    pub value: Seq<char>,
}

impl View for DetectedItem {
    type V = ItemView;

    open spec fn view(&self) -> ItemView {
        ItemView { kind: self.kind@, value: self.value@ }
    }
}

/// The contents of a sequence of detected items.
pub open spec fn items_view(v: Seq<DetectedItem>) -> Seq<ItemView> {
    v.map_values(|i: DetectedItem| i@)
}

/// The kind of a line of output of a tracked process.
#[derive(Debug, Clone, PartialEq, Eq, Structural)]
pub enum OutputKind {
    Stdout,
    Stderr,
    Info,
}

/// A tracked running process launched from the terminal.
#[derive(Debug, Clone)]
pub struct TrackedProcess {
    pub name: String,
    pub command: String,
    pub output_lines: Vec<(String, OutputKind)>,
    pub running: bool,
}

/// What the user asked for in the portal panel.
pub enum PortalAction {
    OpenUrl(String),
    OpenFile(String),
    Close,
    ToggleCollapse,
    ClearItems,
    EmbedByName(String),
    EmbedByPid(u32),
    ReleaseEmbed,
    GrabWindow,
}

// ---------------------------------------------------------------------------
// The detection rules
// ---------------------------------------------------------------------------

/// The application name of a whitelisted command.
pub open spec fn whitelisted_app(cmd: Seq<char>) -> Option<Seq<char>> {
    if cmd == "code"@ {
        Some("VS Code"@)
    } else if cmd == "cursor"@ {
        Some("Cursor"@)
    } else if cmd == "vim"@ {
        Some("Vim"@)
    } else if cmd == "nvim"@ {
        Some("Neovim"@)
    } else if cmd == "nano"@ {
        Some("Nano"@)
    } else if cmd == "firefox"@ {
        Some("Firefox"@)
    } else if cmd == "chromium"@ {
        Some("Chromium"@)
    } else if cmd == "google-chrome"@ {
        Some("Chrome"@)
    } else if cmd == "brave"@ {
        Some("Brave"@)
    } else if cmd == "brave-browser"@ {
        Some("Brave"@)
    } else if cmd == "cargo"@ {
        Some("Cargo"@)
    } else if cmd == "npm"@ {
        Some("npm"@)
    } else if cmd == "pnpm"@ {
        Some("pnpm"@)
    } else if cmd == "yarn"@ {
        Some("Yarn"@)
    } else if cmd == "python"@ {
        Some("Python"@)
    } else if cmd == "node"@ {
        Some("Node.js"@)
    } else if cmd == "docker"@ {
        Some("Docker"@)
    } else if cmd == "git"@ {
        Some("Git"@)
    } else if cmd == "make"@ {
        Some("Make"@)
    } else if cmd == "cmake"@ {
        Some("CMake"@)
    } else if cmd == "go"@ {
        Some("Go"@)
    } else if cmd == "rustc"@ {
        Some("Rust"@)
    } else if cmd == "unity"@ {
        Some("Unity"@)
    } else if cmd == "godot"@ {
        Some("Godot"@)
    } else if cmd == "blender"@ {
        Some("Blender"@)
    } else {
        None
    }
}

/// The part of `s` after the last `c` (all of `s` when `c` does not occur).
pub open spec fn after_last(s: Seq<char>, c: char) -> Seq<char>
    decreases s.len(),
{
    if s.len() == 0 {
        s
    } else if s.last() == c {
        seq![]
    } else {
        after_last(s.drop_last(), c).push(s.last())
    }
}

/// The first word of `s`, if it has one.
pub open spec fn first_word(s: Seq<char>) -> Option<Seq<char>> {
    if words(s).len() > 0 {
        Some(words(s)[0])
    } else {
        None
    }
}

/// The number of bytes of the UTF-8 encoding of `s` (`str::len`).
pub open spec fn byte_len(s: Seq<char>) -> int {
    encode_utf8(s).len() as int
}

/// Whether a cleaned word is reported as a URL.
pub open spec fn is_url_word(c: Seq<char>) -> bool {
    ("http://"@.is_prefix_of(c) || "https://"@.is_prefix_of(c)) && byte_len(c) > 10
}

/// The URL items of the words `ws`: each word trimmed of characters that are
/// neither alphanumeric nor `: / . - _`, kept when it is an http(s) URL
/// longer than 10 bytes.
pub open spec fn url_word_items(ws: Seq<Seq<char>>) -> Seq<ItemView>
    decreases ws.len(),
{
    if ws.len() == 0 {
        seq![]
    } else {
        let rest = url_word_items(ws.drop_last());
        let c = trim_by(ws.last(), Trim::UrlEdge);
        if is_url_word(c) {
            rest.push(ItemView { kind: DetectedKindView::Url, value: c })
        } else {
            rest
        }
    }
}

/// The `localhost:PORT` item of a trimmed line: the first word from the
/// first `localhost:` on, its trailing characters other than alphanumerics
/// and `:` removed, behind `http://`; kept when longer than 17 bytes.
pub open spec fn localhost_item(t: Seq<char>) -> Option<ItemView> {
    match find(t, "localhost:"@) {
        None => None,
        Some(p) => {
            let rest = t.skip(p);
            let token = match first_word(rest) {
                Some(w) => w,
                None => rest,
            };
            let url = "http://"@ + trim_end_by(token, Trim::PortEdge);
            if url.contains(':') && byte_len(url) > 17 {
                Some(ItemView { kind: DetectedKindView::Url, value: url })
            } else {
                None
            }
        },
    }
}

/// The command part of a trimmed line: what follows the first `$ ` (a
/// dollar sign and a space), or the whole line.
pub open spec fn command_part(t: Seq<char>) -> Seq<char> {
    match find(t, seq!['$', ' ']) {
        Some(p) => t.skip(p + 2),
        None => t,
    }
}

/// The command name of a trimmed line: the first word of its command part
/// after its last `/`.
pub open spec fn command_name(t: Seq<char>) -> Seq<char> {
    let w = match first_word(command_part(t)) {
        Some(w) => w,
        None => seq![],
    };
    after_last(w, '/')
}

/// The application launch item of a trimmed line.
pub open spec fn app_item(t: Seq<char>) -> Option<ItemView> {
    match whitelisted_app(command_name(t)) {
        Some(app) => Some(ItemView { kind: DetectedKindView::AppLaunch(app), value: command_part(t) }),
        None => None,
    }
}

/// The first 120 characters of `t`.
pub open spec fn take120(t: Seq<char>) -> Seq<char> {
    if t.len() <= 120 {
        t
    } else {
        t.take(120)
    }
}

/// The build error item of a trimmed line (`error[E` or `error:`).
pub open spec fn error_item(t: Seq<char>) -> Option<ItemView> {
    if contains(t, "error[E"@) || contains(t, "error:"@) {
        Some(ItemView { kind: DetectedKindView::BuildOutput, value: take120(t) })
    } else {
        None
    }
}

/// The build warning item of a trimmed line (`warning:` without `generated`).
pub open spec fn warning_item(t: Seq<char>) -> Option<ItemView> {
    if contains(t, "warning:"@) && !contains(t, "generated"@) {
        Some(ItemView { kind: DetectedKindView::BuildOutput, value: take120(t) })
    } else {
        None
    }
}

/// The file activity item of a trimmed line (`Compiling `, `Creating ` or
/// `Writing ` with a `/`).
pub open spec fn file_item(t: Seq<char>) -> Option<ItemView> {
    if (contains(t, "Compiling "@) || contains(t, "Creating "@) || contains(t, "Writing "@))
        && t.contains('/') {
        Some(ItemView { kind: DetectedKindView::FilePath, value: t })
    } else {
        None
    }
}

/// An optional item as a sequence of zero or one items.
pub open spec fn opt_items(o: Option<ItemView>) -> Seq<ItemView> {
    match o {
        Some(i) => seq![i],
        None => seq![],
    }
}

/// The items detected in one line, in the order they are reported.
pub open spec fn line_items(line: Seq<char>) -> Seq<ItemView> {
    let t = trim(line);
    if t.len() == 0 {
        seq![]
    } else {
        url_word_items(words(t)) + opt_items(localhost_item(t)) + opt_items(app_item(t))
            + opt_items(error_item(t)) + opt_items(warning_item(t)) + opt_items(file_item(t))
    }
}

/// The items detected in the lines `ls`, line by line.
pub open spec fn lines_items(ls: Seq<Seq<char>>) -> Seq<ItemView>
    decreases ls.len(),
{
    if ls.len() == 0 {
        seq![]
    } else {
        lines_items(ls.drop_last()) + line_items(ls.last())
    }
}

/// The items detected in terminal output `text`.
pub open spec fn scanned_items(text: Seq<char>) -> Seq<ItemView> {
    lines_items(lines(text))
}

// ---------------------------------------------------------------------------
// Executable detection
// ---------------------------------------------------------------------------

/// The application name of a whitelisted command.
fn app_for_command(cmd: &[char]) -> (r: Option<&'static str>)
    ensures
        match r {
            Some(a) => whitelisted_app(cmd@) == Some(a@),
            None => whitelisted_app(cmd@) is None,
        },
{
    let c = cmd;
    if chars_equal(c, &chars_of("code")) {
        Some("VS Code")
    } else if chars_equal(c, &chars_of("cursor")) {
        Some("Cursor")
    } else if chars_equal(c, &chars_of("vim")) {
        Some("Vim")
    } else if chars_equal(c, &chars_of("nvim")) {
        Some("Neovim")
    } else if chars_equal(c, &chars_of("nano")) {
        Some("Nano")
    } else if chars_equal(c, &chars_of("firefox")) {
        Some("Firefox")
    } else if chars_equal(c, &chars_of("chromium")) {
        Some("Chromium")
    } else if chars_equal(c, &chars_of("google-chrome")) {
        Some("Chrome")
    } else if chars_equal(c, &chars_of("brave")) {
        Some("Brave")
    } else if chars_equal(c, &chars_of("brave-browser")) {
        Some("Brave")
    } else if chars_equal(c, &chars_of("cargo")) {
        Some("Cargo")
    } else if chars_equal(c, &chars_of("npm")) {
        Some("npm")
    } else if chars_equal(c, &chars_of("pnpm")) {
        Some("pnpm")
    } else if chars_equal(c, &chars_of("yarn")) {
        Some("Yarn")
    } else if chars_equal(c, &chars_of("python")) {
        Some("Python")
    } else if chars_equal(c, &chars_of("node")) {
        Some("Node.js")
    } else if chars_equal(c, &chars_of("docker")) {
        Some("Docker")
    } else if chars_equal(c, &chars_of("git")) {
        Some("Git")
    } else if chars_equal(c, &chars_of("make")) {
        Some("Make")
    } else if chars_equal(c, &chars_of("cmake")) {
        Some("CMake")
    } else if chars_equal(c, &chars_of("go")) {
        Some("Go")
    } else if chars_equal(c, &chars_of("rustc")) {
        Some("Rust")
    } else if chars_equal(c, &chars_of("unity")) {
        Some("Unity")
    } else if chars_equal(c, &chars_of("godot")) {
        Some("Godot")
    } else if chars_equal(c, &chars_of("blender")) {
        Some("Blender")
    } else {
        None
    }
}

proof fn lemma_after_last(s: Seq<char>, c: char, k: int)
    requires
        0 <= k <= s.len(),
        forall|j: int| k <= j < s.len() ==> s[j] != c,
        k == 0 || s[k - 1] == c,
    ensures
        after_last(s, c) == s.skip(k),
    decreases s.len(),
{
    if s.len() == k {
        if k > 0 {
            assert(s.last() == c);
        }
        assert(s.skip(k) =~= seq![]);
    } else {
        lemma_after_last(s.drop_last(), c, k);
        assert(s.drop_last().skip(k).push(s.last()) =~= s.skip(k));
    }
}

/// The part of `s` after its last `/`.
fn after_last_slash(s: &[char]) -> (r: Vec<char>)
    ensures
        r@ == after_last(s@, '/'),
{
    let mut k = s.len();
    while k > 0 && s[k - 1] != '/'
        invariant
            k <= s@.len(),
            forall|j: int| k <= j < s@.len() ==> s@[j] != '/',
        decreases k,
    {
        k = k - 1;
    }
    proof {
        lemma_after_last(s@, '/', k as int);
    }
    assert(s@.subrange(k as int, s@.len() as int) == s@.skip(k as int));
    slice_chars(s, k, s.len())
}

/// The first word of `s`, if it has one.
fn first_word_exec(s: &[char]) -> (r: Option<Vec<char>>)
    ensures
        match r {
            Some(w) => first_word(s@) == Some(w@),
            None => first_word(s@) is None,
        },
{
    let mut ws = split_words(s);
    if ws.len() > 0 {
        let w = ws.swap_remove(0);
        assert(seqs_of(ws@) == seqs_of(ws@));
        Some(w)
    } else {
        None
    }
}

/// A `String` holding all of `v`.
fn string_of(v: &[char]) -> (s: String)
    ensures
        s@ == v@,
{
    assert(v@.subrange(0, v@.len() as int) == v@);
    string_from_chars(v, 0, v.len())
}

/// The UTF-8 length of a string.
fn utf8_len(s: &String) -> (n: usize)
    ensures
        n == byte_len(s@),
{
    let b = s.as_str().as_bytes();
    b.len()
}

/// A detected item of the given kind and value.
fn item(kind: DetectedKind, value: String, now: std::time::Instant) -> (i: DetectedItem)
    ensures
        i@ == (ItemView { kind: kind@, value: value@ }),
        i.timestamp == now,
{
    DetectedItem { kind, value, timestamp: now }
}

/// All items in `v` carry the time stamp `now`.
pub open spec fn all_stamped(v: Seq<DetectedItem>, now: std::time::Instant) -> bool {
    forall|k: int| 0 <= k < v.len() ==> #[trigger] v[k].timestamp == now
}

/// Appends one item, keeping the contents relation.
fn push_item(items: &mut Vec<DetectedItem>, i: DetectedItem, now: std::time::Instant)
    requires
        all_stamped(old(items)@, now),
        i.timestamp == now,
    ensures
        items_view(final(items)@) == items_view(old(items)@).push(i@),
        all_stamped(final(items)@, now),
{
    items.push(i);
    assert(items_view(items@) =~= items_view(old(items)@).push(i@));
}

/// Appends the URL items of the words of a trimmed line.
fn push_url_word_items(t: &[char], now: std::time::Instant, items: &mut Vec<DetectedItem>)
    requires
        all_stamped(old(items)@, now),
    ensures
        items_view(final(items)@) == items_view(old(items)@) + url_word_items(words(t@)),
        all_stamped(final(items)@, now),
{
    let ws = split_words(t);
    let ghost ws_s = words(t@);
    let ghost start = items_view(items@);
    let http = chars_of("http://");
    let https = chars_of("https://");
    let mut i: usize = 0;
    assert(start + url_word_items(ws_s.take(0)) =~= start);
    while i < ws.len()
        invariant
            i <= ws@.len(),
            seqs_of(ws@) == ws_s,
            http@ == "http://"@,
            https@ == "https://"@,
            all_stamped(items@, now),
            items_view(items@) == start + url_word_items(ws_s.take(i as int)),
        decreases ws@.len() - i,
    {
        assert(ws_s[i as int] == ws@[i as int]@);
        assert(ws_s.take(i + 1).drop_last() == ws_s.take(i as int));
        let clean = trim_chars(&ws[i], Trim::UrlEdge);
        if (starts_with_lit(&clean, &http) || starts_with_lit(&clean, &https)) {
            let s = string_of(&clean);
            if utf8_len(&s) > 10 {
                let it = item(DetectedKind::Url, s, now);
                push_item(items, it, now);
                assert(items_view(items@) =~= start + url_word_items(ws_s.take(i + 1)));
            } else {
                assert(items_view(items@) =~= start + url_word_items(ws_s.take(i + 1)));
            }
        } else {
            assert(items_view(items@) =~= start + url_word_items(ws_s.take(i + 1)));
        }
        i = i + 1;
    }
    assert(ws_s.take(ws@.len() as int) == ws_s);
}

/// Whether `p` is a prefix of `s`.
fn starts_with_lit(s: &[char], p: &[char]) -> (r: bool)
    ensures
        r == p@.is_prefix_of(s@),
{
    crate::text::starts_with(s, p)
}

/// The `localhost:PORT` item of a trimmed line.
fn localhost_item_exec(t: &[char], now: std::time::Instant) -> (r: Option<DetectedItem>)
    ensures
        opt_item_view(r) == localhost_item(t@),
        r matches Some(i) ==> i.timestamp == now,
{
    let pat = chars_of("localhost:");
    let found = find_exec(t, &pat);
    match found {
        None => None,
        Some(p) => {
            assert(occurs_at(t@, pat@, p as int));
            let rest = slice_chars(t, p, t.len());
            assert(rest@ == t@.skip(p as int));
            let token = match first_word_exec(&rest) {
                Some(w) => w,
                None => rest,
            };
            let tail = trim_end_chars(&token, Trim::PortEdge);
            let mut url = string_of(&chars_of("http://"));
            let tail_s = string_of(&tail);
            url.append(tail_s.as_str());
            let url_v = chars_of(url.as_str());
            if contains_char(&url_v, ':') && utf8_len(&url) > 17 {
                Some(item(DetectedKind::Url, url, now))
            } else {
                None
            }
        },
    }
}

/// The command part of a trimmed line.
fn command_part_exec(t: &[char]) -> (r: Vec<char>)
    ensures
        r@ == command_part(t@),
{
    let mut pat: Vec<char> = Vec::new();
    pat.push('$');
    pat.push(' ');
    assert(pat@ =~= seq!['$', ' ']);
    let found = find_exec(t, &pat);
    match found {
        Some(p) => {
            assert(occurs_at(t@, pat@, p as int));
            let e = t.len();
            assert(p + 2 <= e);
            let r = slice_chars(t, p + 2, e);
            assert(r@ == t@.skip(p + 2));
            r
        },
        None => {
            let r = slice_chars(t, 0, t.len());
            assert(r@ == t@);
            r
        },
    }
}

/// The application launch item of a trimmed line.
fn app_item_exec(t: &[char], now: std::time::Instant) -> (r: Option<DetectedItem>)
    ensures
        opt_item_view(r) == app_item(t@),
        r matches Some(i) ==> i.timestamp == now,
{
    let cmd_part = command_part_exec(t);
    let first = match first_word_exec(&cmd_part) {
        Some(w) => w,
        None => Vec::new(),
    };
    assert(first@ == (match first_word(command_part(t@)) {
        Some(w) => w,
        None => seq![],
    }));
    let name = after_last_slash(&first);
    match app_for_command(&name) {
        Some(app) => {
            let kind = DetectedKind::AppLaunch(app.to_owned());
            Some(item(kind, string_of(&cmd_part), now))
        },
        None => None,
    }
}

/// The first 120 characters of `t`.
fn take120_exec(t: &[char]) -> (r: String)
    ensures
        r@ == take120(t@),
{
    if t.len() <= 120 {
        string_of(t)
    } else {
        string_from_chars(t, 0, 120)
    }
}

/// Whether the literal `p` occurs in `t`.
fn contains_lit(t: &[char], p: &str) -> (r: bool)
    ensures
        r == contains(t@, p@),
{
    let pv = chars_of(p);
    contains_exec(t, &pv)
}

/// The contents of an optional item.
pub open spec fn opt_item_view(o: Option<DetectedItem>) -> Option<ItemView> {
    match o {
        Some(i) => Some(i@),
        None => None,
    }
}

/// Appends an optional item.
fn push_opt(items: &mut Vec<DetectedItem>, o: Option<DetectedItem>, now: std::time::Instant)
    requires
        all_stamped(old(items)@, now),
        o matches Some(i) ==> i.timestamp == now,
    ensures
        items_view(final(items)@) == items_view(old(items)@) + opt_items(opt_item_view(o)),
        all_stamped(final(items)@, now),
{
    match o {
        Some(i) => {
            push_item(items, i, now);
            assert(items_view(items@) =~= items_view(old(items)@) + opt_items(opt_item_view(o)));
        },
        None => {
            assert(items_view(items@) =~= items_view(old(items)@) + opt_items(opt_item_view(o)));
        },
    }
}

/// The build error item of a trimmed line.
fn error_item_exec(t: &[char], now: std::time::Instant) -> (r: Option<DetectedItem>)
    ensures
        opt_item_view(r) == error_item(t@),
        r matches Some(i) ==> i.timestamp == now,
{
    if contains_lit(t, "error[E") || contains_lit(t, "error:") {
        Some(item(DetectedKind::BuildOutput, take120_exec(t), now))
    } else {
        None
    }
}

/// The build warning item of a trimmed line.
fn warning_item_exec(t: &[char], now: std::time::Instant) -> (r: Option<DetectedItem>)
    ensures
        opt_item_view(r) == warning_item(t@),
        r matches Some(i) ==> i.timestamp == now,
{
    if contains_lit(t, "warning:") && !contains_lit(t, "generated") {
        Some(item(DetectedKind::BuildOutput, take120_exec(t), now))
    } else {
        None
    }
}

/// The file activity item of a trimmed line.
fn file_item_exec(t: &[char], now: std::time::Instant) -> (r: Option<DetectedItem>)
    ensures
        opt_item_view(r) == file_item(t@),
        r matches Some(i) ==> i.timestamp == now,
{
    if (contains_lit(t, "Compiling ") || contains_lit(t, "Creating ") || contains_lit(
        t,
        "Writing ",
    )) && contains_char(t, '/') {
        Some(item(DetectedKind::FilePath, string_of(t), now))
    } else {
        None
    }
}

/// Appends the items detected in one line.
fn push_line_items(line: &[char], now: std::time::Instant, items: &mut Vec<DetectedItem>)
    requires
        all_stamped(old(items)@, now),
    ensures
        items_view(final(items)@) == items_view(old(items)@) + line_items(line@),
        all_stamped(final(items)@, now),
{
    let ghost start = items_view(items@);
    let t = trim_chars(line, Trim::Whitespace);
    if t.len() == 0 {
        assert(items_view(items@) =~= start + line_items(line@));
        return;
    }
    push_url_word_items(&t, now, items);
    let ghost s1 = items_view(items@);
    push_opt(items, localhost_item_exec(&t, now), now);
    let ghost s2 = items_view(items@);
    push_opt(items, app_item_exec(&t, now), now);
    let ghost s3 = items_view(items@);
    push_opt(items, error_item_exec(&t, now), now);
    let ghost s4 = items_view(items@);
    push_opt(items, warning_item_exec(&t, now), now);
    let ghost s5 = items_view(items@);
    push_opt(items, file_item_exec(&t, now), now);
    proof {
        let t_s = t@;
        assert(s1 == start + url_word_items(words(t_s)));
        assert(s2 == s1 + opt_items(localhost_item(t_s)));
        assert(s3 == s2 + opt_items(app_item(t_s)));
        assert(s4 == s3 + opt_items(error_item(t_s)));
        assert(s5 == s4 + opt_items(warning_item(t_s)));
        assert(items_view(items@) == s5 + opt_items(file_item(t_s)));
        assert(items_view(items@) =~= start + line_items(line@));
    }
}

/// Scan terminal output text for detectable items: per line, URLs,
/// `localhost:PORT` addresses, whitelisted application launches, build
/// errors and warnings, and file activity; all stamped with one instant.
pub fn scan_output(text: &str) -> (items: Vec<DetectedItem>)
    ensures
        items_view(items@) == scanned_items(text@),
        forall|i: int, j: int|
            0 <= i < items@.len() && 0 <= j < items@.len() ==> items@[i].timestamp
                == items@[j].timestamp,
{
    let now = instant_now();
    let v = chars_of(text);
    let ls = split_lines(&v);
    let ghost ls_s = lines(text@);
    let mut items: Vec<DetectedItem> = Vec::new();
    assert(items_view(items@) =~= lines_items(ls_s.take(0)));
    let mut i: usize = 0;
    while i < ls.len()
        invariant
            i <= ls@.len(),
            seqs_of(ls@) == ls_s,
            all_stamped(items@, now),
            items_view(items@) == lines_items(ls_s.take(i as int)),
        decreases ls@.len() - i,
    {
        assert(ls_s[i as int] == ls@[i as int]@);
        assert(ls_s.take(i + 1).drop_last() == ls_s.take(i as int));
        push_line_items(&ls[i], now, &mut items);
        i = i + 1;
    }
    assert(ls_s.take(ls@.len() as int) == ls_s);
    items
}

// ---------------------------------------------------------------------------
// Laws
// ---------------------------------------------------------------------------

proof fn lemma_lines_items_concat(a: Seq<Seq<char>>, b: Seq<Seq<char>>)
    ensures
        lines_items(a + b) == lines_items(a) + lines_items(b),
    decreases b.len(),
{
    if b.len() == 0 {
        assert(a + b =~= a);
        assert(lines_items(a) + lines_items(b) =~= lines_items(a));
    } else {
        lemma_lines_items_concat(a, b.drop_last());
        assert((a + b).drop_last() =~= a + b.drop_last());
        assert((a + b).last() == b.last());
        assert(lines_items(a) + (lines_items(b.drop_last()) + line_items(b.last())) =~= (
        lines_items(a) + lines_items(b.drop_last())) + line_items(b.last()));
    }
}

/// Output is scanned line by line: the items of two outputs joined at a
/// line boundary are the items of the first, then those of the second.
pub proof fn law_scan_concat(a: Seq<char>, b: Seq<char>)
    requires
        a.len() == 0 || a.last() == '\n',
    ensures
        scanned_items(a + b) == scanned_items(a) + scanned_items(b),
{
    crate::text::law_lines_concat(a, b);
    lemma_lines_items_concat(lines(a), lines(b));
}

/// What every reported item satisfies: URLs start with `http://` or
/// `https://`, build messages are at most 120 characters.
pub open spec fn well_formed_item(i: ItemView) -> bool {
    &&& (i.kind == DetectedKindView::Url ==> ("http://"@.is_prefix_of(i.value)
        || "https://"@.is_prefix_of(i.value)))
    &&& (i.kind == DetectedKindView::BuildOutput ==> i.value.len() <= 120)
}

/// Every item of `s` is well formed.
pub open spec fn all_well_formed(s: Seq<ItemView>) -> bool {
    forall|k: int| 0 <= k < s.len() ==> well_formed_item(#[trigger] s[k])
}

proof fn lemma_concat_well_formed(a: Seq<ItemView>, b: Seq<ItemView>)
    requires
        all_well_formed(a),
        all_well_formed(b),
    ensures
        all_well_formed(a + b),
{
    assert forall|k: int| 0 <= k < (a + b).len() implies well_formed_item(#[trigger] (a + b)[k]) by {
        if k < a.len() {
            assert((a + b)[k] == a[k]);
        } else {
            assert((a + b)[k] == b[k - a.len()]);
        }
    }
}

proof fn lemma_url_words_well_formed(ws: Seq<Seq<char>>)
    ensures
        all_well_formed(url_word_items(ws)),
    decreases ws.len(),
{
    if ws.len() > 0 {
        lemma_url_words_well_formed(ws.drop_last());
        let rest = url_word_items(ws.drop_last());
        let c = trim_by(ws.last(), Trim::UrlEdge);
        if is_url_word(c) {
            let it = ItemView { kind: DetectedKindView::Url, value: c };
            assert(well_formed_item(it));
            lemma_concat_well_formed(rest, seq![it]);
            assert(rest + seq![it] =~= rest.push(it));
        }
    }
}

proof fn lemma_opt_well_formed(o: Option<ItemView>)
    requires
        o matches Some(i) ==> well_formed_item(i),
    ensures
        all_well_formed(opt_items(o)),
{
}

proof fn lemma_line_items_well_formed(line: Seq<char>)
    ensures
        all_well_formed(line_items(line)),
{
    let t = trim(line);
    if t.len() > 0 {
        lemma_url_words_well_formed(words(t));
        match find(t, "localhost:"@) {
            Some(p) => {
                let rest = t.skip(p);
                let token = match first_word(rest) {
                    Some(w) => w,
                    None => rest,
                };
                let url = "http://"@ + trim_end_by(token, Trim::PortEdge);
                assert(url.subrange(0, "http://"@.len() as int) =~= "http://"@);
            },
            None => {},
        }
        lemma_opt_well_formed(localhost_item(t));
        lemma_opt_well_formed(app_item(t));
        lemma_opt_well_formed(error_item(t));
        lemma_opt_well_formed(warning_item(t));
        lemma_opt_well_formed(file_item(t));
        let a = url_word_items(words(t));
        lemma_concat_well_formed(a, opt_items(localhost_item(t)));
        let b = a + opt_items(localhost_item(t));
        lemma_concat_well_formed(b, opt_items(app_item(t)));
        let c = b + opt_items(app_item(t));
        lemma_concat_well_formed(c, opt_items(error_item(t)));
        let d = c + opt_items(error_item(t));
        lemma_concat_well_formed(d, opt_items(warning_item(t)));
        let e = d + opt_items(warning_item(t));
        lemma_concat_well_formed(e, opt_items(file_item(t)));
    }
}

proof fn lemma_lines_items_well_formed(ls: Seq<Seq<char>>)
    ensures
        all_well_formed(lines_items(ls)),
    decreases ls.len(),
{
    if ls.len() > 0 {
        lemma_lines_items_well_formed(ls.drop_last());
        lemma_line_items_well_formed(ls.last());
        lemma_concat_well_formed(lines_items(ls.drop_last()), line_items(ls.last()));
    }
}

/// Every URL reported starts with `http://` or `https://`, and every build
/// message reported is at most 120 characters long.
pub proof fn law_items_well_formed(text: Seq<char>)
    ensures
        all_well_formed(scanned_items(text)),
{
    lemma_lines_items_well_formed(lines(text));
}

proof fn lemma_whitelist()
    ensures
        whitelisted_app("code"@) == Some("VS Code"@),
        whitelisted_app("cursor"@) == Some("Cursor"@),
        whitelisted_app("vim"@) == Some("Vim"@),
        whitelisted_app("nvim"@) == Some("Neovim"@),
        whitelisted_app("nano"@) == Some("Nano"@),
        whitelisted_app("firefox"@) == Some("Firefox"@),
        whitelisted_app("chromium"@) == Some("Chromium"@),
        whitelisted_app("google-chrome"@) == Some("Chrome"@),
        whitelisted_app("brave"@) == Some("Brave"@),
        whitelisted_app("brave-browser"@) == Some("Brave"@),
        whitelisted_app("cargo"@) == Some("Cargo"@),
        whitelisted_app("npm"@) == Some("npm"@),
        whitelisted_app("pnpm"@) == Some("pnpm"@),
        whitelisted_app("yarn"@) == Some("Yarn"@),
        whitelisted_app("python"@) == Some("Python"@),
        whitelisted_app("node"@) == Some("Node.js"@),
        whitelisted_app("docker"@) == Some("Docker"@),
        whitelisted_app("git"@) == Some("Git"@),
        whitelisted_app("make"@) == Some("Make"@),
        whitelisted_app("cmake"@) == Some("CMake"@),
        whitelisted_app("go"@) == Some("Go"@),
        whitelisted_app("rustc"@) == Some("Rust"@),
        whitelisted_app("unity"@) == Some("Unity"@),
        whitelisted_app("godot"@) == Some("Godot"@),
        whitelisted_app("blender"@) == Some("Blender"@),
{
    assert(whitelisted_app("code"@) == Some("VS Code"@)) by {
        reveal_strlit("code");
    }
    assert(whitelisted_app("cursor"@) == Some("Cursor"@)) by {
        reveal_strlit("cursor");
        reveal_strlit("code");
        assert("cursor"@.len() != "code"@.len());
        assert("cursor"@ != "code"@);
    }
    assert(whitelisted_app("vim"@) == Some("Vim"@)) by {
        reveal_strlit("vim");
        reveal_strlit("code");
        assert("vim"@.len() != "code"@.len());
        assert("vim"@ != "code"@);
        reveal_strlit("cursor");
        assert("vim"@.len() != "cursor"@.len());
        assert("vim"@ != "cursor"@);
    }
    assert(whitelisted_app("nvim"@) == Some("Neovim"@)) by {
        reveal_strlit("nvim");
        reveal_strlit("code");
        assert("nvim"@[0] != "code"@[0]);
        assert("nvim"@ != "code"@);
        reveal_strlit("cursor");
        assert("nvim"@.len() != "cursor"@.len());
        assert("nvim"@ != "cursor"@);
        reveal_strlit("vim");
        assert("nvim"@.len() != "vim"@.len());
        assert("nvim"@ != "vim"@);
    }
    assert(whitelisted_app("nano"@) == Some("Nano"@)) by {
        reveal_strlit("nano");
        reveal_strlit("code");
        assert("nano"@[0] != "code"@[0]);
        assert("nano"@ != "code"@);
        reveal_strlit("cursor");
        assert("nano"@.len() != "cursor"@.len());
        assert("nano"@ != "cursor"@);
        reveal_strlit("vim");
        assert("nano"@.len() != "vim"@.len());
        assert("nano"@ != "vim"@);
        reveal_strlit("nvim");
        assert("nano"@[1] != "nvim"@[1]);
        assert("nano"@ != "nvim"@);
    }
    assert(whitelisted_app("firefox"@) == Some("Firefox"@)) by {
        reveal_strlit("firefox");
        reveal_strlit("code");
        assert("firefox"@.len() != "code"@.len());
        assert("firefox"@ != "code"@);
        reveal_strlit("cursor");
        assert("firefox"@.len() != "cursor"@.len());
        assert("firefox"@ != "cursor"@);
        reveal_strlit("vim");
        assert("firefox"@.len() != "vim"@.len());
        assert("firefox"@ != "vim"@);
        reveal_strlit("nvim");
        assert("firefox"@.len() != "nvim"@.len());
        assert("firefox"@ != "nvim"@);
        reveal_strlit("nano");
        assert("firefox"@.len() != "nano"@.len());
        assert("firefox"@ != "nano"@);
    }
    assert(whitelisted_app("chromium"@) == Some("Chromium"@)) by {
        reveal_strlit("chromium");
        reveal_strlit("code");
        assert("chromium"@.len() != "code"@.len());
        assert("chromium"@ != "code"@);
        reveal_strlit("cursor");
        assert("chromium"@.len() != "cursor"@.len());
        assert("chromium"@ != "cursor"@);
        reveal_strlit("vim");
        assert("chromium"@.len() != "vim"@.len());
        assert("chromium"@ != "vim"@);
        reveal_strlit("nvim");
        assert("chromium"@.len() != "nvim"@.len());
        assert("chromium"@ != "nvim"@);
        reveal_strlit("nano");
        assert("chromium"@.len() != "nano"@.len());
        assert("chromium"@ != "nano"@);
        reveal_strlit("firefox");
        assert("chromium"@.len() != "firefox"@.len());
        assert("chromium"@ != "firefox"@);
    }
    assert(whitelisted_app("google-chrome"@) == Some("Chrome"@)) by {
        reveal_strlit("google-chrome");
        reveal_strlit("code");
        assert("google-chrome"@.len() != "code"@.len());
        assert("google-chrome"@ != "code"@);
        reveal_strlit("cursor");
        assert("google-chrome"@.len() != "cursor"@.len());
        assert("google-chrome"@ != "cursor"@);
        reveal_strlit("vim");
        assert("google-chrome"@.len() != "vim"@.len());
        assert("google-chrome"@ != "vim"@);
        reveal_strlit("nvim");
        assert("google-chrome"@.len() != "nvim"@.len());
        assert("google-chrome"@ != "nvim"@);
        reveal_strlit("nano");
        assert("google-chrome"@.len() != "nano"@.len());
        assert("google-chrome"@ != "nano"@);
        reveal_strlit("firefox");
        assert("google-chrome"@.len() != "firefox"@.len());
        assert("google-chrome"@ != "firefox"@);
        reveal_strlit("chromium");
        assert("google-chrome"@.len() != "chromium"@.len());
        assert("google-chrome"@ != "chromium"@);
    }
    assert(whitelisted_app("brave"@) == Some("Brave"@)) by {
        reveal_strlit("brave");
        reveal_strlit("code");
        assert("brave"@.len() != "code"@.len());
        assert("brave"@ != "code"@);
        reveal_strlit("cursor");
        assert("brave"@.len() != "cursor"@.len());
        assert("brave"@ != "cursor"@);
        reveal_strlit("vim");
        assert("brave"@.len() != "vim"@.len());
        assert("brave"@ != "vim"@);
        reveal_strlit("nvim");
        assert("brave"@.len() != "nvim"@.len());
        assert("brave"@ != "nvim"@);
        reveal_strlit("nano");
        assert("brave"@.len() != "nano"@.len());
        assert("brave"@ != "nano"@);
        reveal_strlit("firefox");
        assert("brave"@.len() != "firefox"@.len());
        assert("brave"@ != "firefox"@);
        reveal_strlit("chromium");
        assert("brave"@.len() != "chromium"@.len());
        assert("brave"@ != "chromium"@);
        reveal_strlit("google-chrome");
        assert("brave"@.len() != "google-chrome"@.len());
        assert("brave"@ != "google-chrome"@);
    }
    assert(whitelisted_app("brave-browser"@) == Some("Brave"@)) by {
        reveal_strlit("brave-browser");
        reveal_strlit("code");
        assert("brave-browser"@.len() != "code"@.len());
        assert("brave-browser"@ != "code"@);
        reveal_strlit("cursor");
        assert("brave-browser"@.len() != "cursor"@.len());
        assert("brave-browser"@ != "cursor"@);
        reveal_strlit("vim");
        assert("brave-browser"@.len() != "vim"@.len());
        assert("brave-browser"@ != "vim"@);
        reveal_strlit("nvim");
        assert("brave-browser"@.len() != "nvim"@.len());
        assert("brave-browser"@ != "nvim"@);
        reveal_strlit("nano");
        assert("brave-browser"@.len() != "nano"@.len());
        assert("brave-browser"@ != "nano"@);
        reveal_strlit("firefox");
        assert("brave-browser"@.len() != "firefox"@.len());
        assert("brave-browser"@ != "firefox"@);
        reveal_strlit("chromium");
        assert("brave-browser"@.len() != "chromium"@.len());
        assert("brave-browser"@ != "chromium"@);
        reveal_strlit("google-chrome");
        assert("brave-browser"@[0] != "google-chrome"@[0]);
        assert("brave-browser"@ != "google-chrome"@);
        reveal_strlit("brave");
        assert("brave-browser"@.len() != "brave"@.len());
        assert("brave-browser"@ != "brave"@);
    }
    assert(whitelisted_app("cargo"@) == Some("Cargo"@)) by {
        reveal_strlit("cargo");
        reveal_strlit("code");
        assert("cargo"@.len() != "code"@.len());
        assert("cargo"@ != "code"@);
        reveal_strlit("cursor");
        assert("cargo"@.len() != "cursor"@.len());
        assert("cargo"@ != "cursor"@);
        reveal_strlit("vim");
        assert("cargo"@.len() != "vim"@.len());
        assert("cargo"@ != "vim"@);
        reveal_strlit("nvim");
        assert("cargo"@.len() != "nvim"@.len());
        assert("cargo"@ != "nvim"@);
        reveal_strlit("nano");
        assert("cargo"@.len() != "nano"@.len());
        assert("cargo"@ != "nano"@);
        reveal_strlit("firefox");
        assert("cargo"@.len() != "firefox"@.len());
        assert("cargo"@ != "firefox"@);
        reveal_strlit("chromium");
        assert("cargo"@.len() != "chromium"@.len());
        assert("cargo"@ != "chromium"@);
        reveal_strlit("google-chrome");
        assert("cargo"@.len() != "google-chrome"@.len());
        assert("cargo"@ != "google-chrome"@);
        reveal_strlit("brave");
        assert("cargo"@[0] != "brave"@[0]);
        assert("cargo"@ != "brave"@);
        reveal_strlit("brave-browser");
        assert("cargo"@.len() != "brave-browser"@.len());
        assert("cargo"@ != "brave-browser"@);
    }
    assert(whitelisted_app("npm"@) == Some("npm"@)) by {
        reveal_strlit("npm");
        reveal_strlit("code");
        assert("npm"@.len() != "code"@.len());
        assert("npm"@ != "code"@);
        reveal_strlit("cursor");
        assert("npm"@.len() != "cursor"@.len());
        assert("npm"@ != "cursor"@);
        reveal_strlit("vim");
        assert("npm"@[0] != "vim"@[0]);
        assert("npm"@ != "vim"@);
        reveal_strlit("nvim");
        assert("npm"@.len() != "nvim"@.len());
        assert("npm"@ != "nvim"@);
        reveal_strlit("nano");
        assert("npm"@.len() != "nano"@.len());
        assert("npm"@ != "nano"@);
        reveal_strlit("firefox");
        assert("npm"@.len() != "firefox"@.len());
        assert("npm"@ != "firefox"@);
        reveal_strlit("chromium");
        assert("npm"@.len() != "chromium"@.len());
        assert("npm"@ != "chromium"@);
        reveal_strlit("google-chrome");
        assert("npm"@.len() != "google-chrome"@.len());
        assert("npm"@ != "google-chrome"@);
        reveal_strlit("brave");
        assert("npm"@.len() != "brave"@.len());
        assert("npm"@ != "brave"@);
        reveal_strlit("brave-browser");
        assert("npm"@.len() != "brave-browser"@.len());
        assert("npm"@ != "brave-browser"@);
        reveal_strlit("cargo");
        assert("npm"@.len() != "cargo"@.len());
        assert("npm"@ != "cargo"@);
    }
    assert(whitelisted_app("pnpm"@) == Some("pnpm"@)) by {
        reveal_strlit("pnpm");
        reveal_strlit("code");
        assert("pnpm"@[0] != "code"@[0]);
        assert("pnpm"@ != "code"@);
        reveal_strlit("cursor");
        assert("pnpm"@.len() != "cursor"@.len());
        assert("pnpm"@ != "cursor"@);
        reveal_strlit("vim");
        assert("pnpm"@.len() != "vim"@.len());
        assert("pnpm"@ != "vim"@);
        reveal_strlit("nvim");
        assert("pnpm"@[0] != "nvim"@[0]);
        assert("pnpm"@ != "nvim"@);
        reveal_strlit("nano");
        assert("pnpm"@[0] != "nano"@[0]);
        assert("pnpm"@ != "nano"@);
        reveal_strlit("firefox");
        assert("pnpm"@.len() != "firefox"@.len());
        assert("pnpm"@ != "firefox"@);
        reveal_strlit("chromium");
        assert("pnpm"@.len() != "chromium"@.len());
        assert("pnpm"@ != "chromium"@);
        reveal_strlit("google-chrome");
        assert("pnpm"@.len() != "google-chrome"@.len());
        assert("pnpm"@ != "google-chrome"@);
        reveal_strlit("brave");
        assert("pnpm"@.len() != "brave"@.len());
        assert("pnpm"@ != "brave"@);
        reveal_strlit("brave-browser");
        assert("pnpm"@.len() != "brave-browser"@.len());
        assert("pnpm"@ != "brave-browser"@);
        reveal_strlit("cargo");
        assert("pnpm"@.len() != "cargo"@.len());
        assert("pnpm"@ != "cargo"@);
        reveal_strlit("npm");
        assert("pnpm"@.len() != "npm"@.len());
        assert("pnpm"@ != "npm"@);
    }
    assert(whitelisted_app("yarn"@) == Some("Yarn"@)) by {
        reveal_strlit("yarn");
        reveal_strlit("code");
        assert("yarn"@[0] != "code"@[0]);
        assert("yarn"@ != "code"@);
        reveal_strlit("cursor");
        assert("yarn"@.len() != "cursor"@.len());
        assert("yarn"@ != "cursor"@);
        reveal_strlit("vim");
        assert("yarn"@.len() != "vim"@.len());
        assert("yarn"@ != "vim"@);
        reveal_strlit("nvim");
        assert("yarn"@[0] != "nvim"@[0]);
        assert("yarn"@ != "nvim"@);
        reveal_strlit("nano");
        assert("yarn"@[0] != "nano"@[0]);
        assert("yarn"@ != "nano"@);
        reveal_strlit("firefox");
        assert("yarn"@.len() != "firefox"@.len());
        assert("yarn"@ != "firefox"@);
        reveal_strlit("chromium");
        assert("yarn"@.len() != "chromium"@.len());
        assert("yarn"@ != "chromium"@);
        reveal_strlit("google-chrome");
        assert("yarn"@.len() != "google-chrome"@.len());
        assert("yarn"@ != "google-chrome"@);
        reveal_strlit("brave");
        assert("yarn"@.len() != "brave"@.len());
        assert("yarn"@ != "brave"@);
        reveal_strlit("brave-browser");
        assert("yarn"@.len() != "brave-browser"@.len());
        assert("yarn"@ != "brave-browser"@);
        reveal_strlit("cargo");
        assert("yarn"@.len() != "cargo"@.len());
        assert("yarn"@ != "cargo"@);
        reveal_strlit("npm");
        assert("yarn"@.len() != "npm"@.len());
        assert("yarn"@ != "npm"@);
        reveal_strlit("pnpm");
        assert("yarn"@[0] != "pnpm"@[0]);
        assert("yarn"@ != "pnpm"@);
    }
    assert(whitelisted_app("python"@) == Some("Python"@)) by {
        reveal_strlit("python");
        reveal_strlit("code");
        assert("python"@.len() != "code"@.len());
        assert("python"@ != "code"@);
        reveal_strlit("cursor");
        assert("python"@[0] != "cursor"@[0]);
        assert("python"@ != "cursor"@);
        reveal_strlit("vim");
        assert("python"@.len() != "vim"@.len());
        assert("python"@ != "vim"@);
        reveal_strlit("nvim");
        assert("python"@.len() != "nvim"@.len());
        assert("python"@ != "nvim"@);
        reveal_strlit("nano");
        assert("python"@.len() != "nano"@.len());
        assert("python"@ != "nano"@);
        reveal_strlit("firefox");
        assert("python"@.len() != "firefox"@.len());
        assert("python"@ != "firefox"@);
        reveal_strlit("chromium");
        assert("python"@.len() != "chromium"@.len());
        assert("python"@ != "chromium"@);
        reveal_strlit("google-chrome");
        assert("python"@.len() != "google-chrome"@.len());
        assert("python"@ != "google-chrome"@);
        reveal_strlit("brave");
        assert("python"@.len() != "brave"@.len());
        assert("python"@ != "brave"@);
        reveal_strlit("brave-browser");
        assert("python"@.len() != "brave-browser"@.len());
        assert("python"@ != "brave-browser"@);
        reveal_strlit("cargo");
        assert("python"@.len() != "cargo"@.len());
        assert("python"@ != "cargo"@);
        reveal_strlit("npm");
        assert("python"@.len() != "npm"@.len());
        assert("python"@ != "npm"@);
        reveal_strlit("pnpm");
        assert("python"@.len() != "pnpm"@.len());
        assert("python"@ != "pnpm"@);
        reveal_strlit("yarn");
        assert("python"@.len() != "yarn"@.len());
        assert("python"@ != "yarn"@);
    }
    assert(whitelisted_app("node"@) == Some("Node.js"@)) by {
        reveal_strlit("node");
        reveal_strlit("code");
        assert("node"@[0] != "code"@[0]);
        assert("node"@ != "code"@);
        reveal_strlit("cursor");
        assert("node"@.len() != "cursor"@.len());
        assert("node"@ != "cursor"@);
        reveal_strlit("vim");
        assert("node"@.len() != "vim"@.len());
        assert("node"@ != "vim"@);
        reveal_strlit("nvim");
        assert("node"@[1] != "nvim"@[1]);
        assert("node"@ != "nvim"@);
        reveal_strlit("nano");
        assert("node"@[1] != "nano"@[1]);
        assert("node"@ != "nano"@);
        reveal_strlit("firefox");
        assert("node"@.len() != "firefox"@.len());
        assert("node"@ != "firefox"@);
        reveal_strlit("chromium");
        assert("node"@.len() != "chromium"@.len());
        assert("node"@ != "chromium"@);
        reveal_strlit("google-chrome");
        assert("node"@.len() != "google-chrome"@.len());
        assert("node"@ != "google-chrome"@);
        reveal_strlit("brave");
        assert("node"@.len() != "brave"@.len());
        assert("node"@ != "brave"@);
        reveal_strlit("brave-browser");
        assert("node"@.len() != "brave-browser"@.len());
        assert("node"@ != "brave-browser"@);
        reveal_strlit("cargo");
        assert("node"@.len() != "cargo"@.len());
        assert("node"@ != "cargo"@);
        reveal_strlit("npm");
        assert("node"@.len() != "npm"@.len());
        assert("node"@ != "npm"@);
        reveal_strlit("pnpm");
        assert("node"@[0] != "pnpm"@[0]);
        assert("node"@ != "pnpm"@);
        reveal_strlit("yarn");
        assert("node"@[0] != "yarn"@[0]);
        assert("node"@ != "yarn"@);
        reveal_strlit("python");
        assert("node"@.len() != "python"@.len());
        assert("node"@ != "python"@);
    }
    assert(whitelisted_app("docker"@) == Some("Docker"@)) by {
        reveal_strlit("docker");
        reveal_strlit("code");
        assert("docker"@.len() != "code"@.len());
        assert("docker"@ != "code"@);
        reveal_strlit("cursor");
        assert("docker"@[0] != "cursor"@[0]);
        assert("docker"@ != "cursor"@);
        reveal_strlit("vim");
        assert("docker"@.len() != "vim"@.len());
        assert("docker"@ != "vim"@);
        reveal_strlit("nvim");
        assert("docker"@.len() != "nvim"@.len());
        assert("docker"@ != "nvim"@);
        reveal_strlit("nano");
        assert("docker"@.len() != "nano"@.len());
        assert("docker"@ != "nano"@);
        reveal_strlit("firefox");
        assert("docker"@.len() != "firefox"@.len());
        assert("docker"@ != "firefox"@);
        reveal_strlit("chromium");
        assert("docker"@.len() != "chromium"@.len());
        assert("docker"@ != "chromium"@);
        reveal_strlit("google-chrome");
        assert("docker"@.len() != "google-chrome"@.len());
        assert("docker"@ != "google-chrome"@);
        reveal_strlit("brave");
        assert("docker"@.len() != "brave"@.len());
        assert("docker"@ != "brave"@);
        reveal_strlit("brave-browser");
        assert("docker"@.len() != "brave-browser"@.len());
        assert("docker"@ != "brave-browser"@);
        reveal_strlit("cargo");
        assert("docker"@.len() != "cargo"@.len());
        assert("docker"@ != "cargo"@);
        reveal_strlit("npm");
        assert("docker"@.len() != "npm"@.len());
        assert("docker"@ != "npm"@);
        reveal_strlit("pnpm");
        assert("docker"@.len() != "pnpm"@.len());
        assert("docker"@ != "pnpm"@);
        reveal_strlit("yarn");
        assert("docker"@.len() != "yarn"@.len());
        assert("docker"@ != "yarn"@);
        reveal_strlit("python");
        assert("docker"@[0] != "python"@[0]);
        assert("docker"@ != "python"@);
        reveal_strlit("node");
        assert("docker"@.len() != "node"@.len());
        assert("docker"@ != "node"@);
    }
    assert(whitelisted_app("git"@) == Some("Git"@)) by {
        reveal_strlit("git");
        reveal_strlit("code");
        assert("git"@.len() != "code"@.len());
        assert("git"@ != "code"@);
        reveal_strlit("cursor");
        assert("git"@.len() != "cursor"@.len());
        assert("git"@ != "cursor"@);
        reveal_strlit("vim");
        assert("git"@[0] != "vim"@[0]);
        assert("git"@ != "vim"@);
        reveal_strlit("nvim");
        assert("git"@.len() != "nvim"@.len());
        assert("git"@ != "nvim"@);
        reveal_strlit("nano");
        assert("git"@.len() != "nano"@.len());
        assert("git"@ != "nano"@);
        reveal_strlit("firefox");
        assert("git"@.len() != "firefox"@.len());
        assert("git"@ != "firefox"@);
        reveal_strlit("chromium");
        assert("git"@.len() != "chromium"@.len());
        assert("git"@ != "chromium"@);
        reveal_strlit("google-chrome");
        assert("git"@.len() != "google-chrome"@.len());
        assert("git"@ != "google-chrome"@);
        reveal_strlit("brave");
        assert("git"@.len() != "brave"@.len());
        assert("git"@ != "brave"@);
        reveal_strlit("brave-browser");
        assert("git"@.len() != "brave-browser"@.len());
        assert("git"@ != "brave-browser"@);
        reveal_strlit("cargo");
        assert("git"@.len() != "cargo"@.len());
        assert("git"@ != "cargo"@);
        reveal_strlit("npm");
        assert("git"@[0] != "npm"@[0]);
        assert("git"@ != "npm"@);
        reveal_strlit("pnpm");
        assert("git"@.len() != "pnpm"@.len());
        assert("git"@ != "pnpm"@);
        reveal_strlit("yarn");
        assert("git"@.len() != "yarn"@.len());
        assert("git"@ != "yarn"@);
        reveal_strlit("python");
        assert("git"@.len() != "python"@.len());
        assert("git"@ != "python"@);
        reveal_strlit("node");
        assert("git"@.len() != "node"@.len());
        assert("git"@ != "node"@);
        reveal_strlit("docker");
        assert("git"@.len() != "docker"@.len());
        assert("git"@ != "docker"@);
    }
    assert(whitelisted_app("make"@) == Some("Make"@)) by {
        reveal_strlit("make");
        reveal_strlit("code");
        assert("make"@[0] != "code"@[0]);
        assert("make"@ != "code"@);
        reveal_strlit("cursor");
        assert("make"@.len() != "cursor"@.len());
        assert("make"@ != "cursor"@);
        reveal_strlit("vim");
        assert("make"@.len() != "vim"@.len());
        assert("make"@ != "vim"@);
        reveal_strlit("nvim");
        assert("make"@[0] != "nvim"@[0]);
        assert("make"@ != "nvim"@);
        reveal_strlit("nano");
        assert("make"@[0] != "nano"@[0]);
        assert("make"@ != "nano"@);
        reveal_strlit("firefox");
        assert("make"@.len() != "firefox"@.len());
        assert("make"@ != "firefox"@);
        reveal_strlit("chromium");
        assert("make"@.len() != "chromium"@.len());
        assert("make"@ != "chromium"@);
        reveal_strlit("google-chrome");
        assert("make"@.len() != "google-chrome"@.len());
        assert("make"@ != "google-chrome"@);
        reveal_strlit("brave");
        assert("make"@.len() != "brave"@.len());
        assert("make"@ != "brave"@);
        reveal_strlit("brave-browser");
        assert("make"@.len() != "brave-browser"@.len());
        assert("make"@ != "brave-browser"@);
        reveal_strlit("cargo");
        assert("make"@.len() != "cargo"@.len());
        assert("make"@ != "cargo"@);
        reveal_strlit("npm");
        assert("make"@.len() != "npm"@.len());
        assert("make"@ != "npm"@);
        reveal_strlit("pnpm");
        assert("make"@[0] != "pnpm"@[0]);
        assert("make"@ != "pnpm"@);
        reveal_strlit("yarn");
        assert("make"@[0] != "yarn"@[0]);
        assert("make"@ != "yarn"@);
        reveal_strlit("python");
        assert("make"@.len() != "python"@.len());
        assert("make"@ != "python"@);
        reveal_strlit("node");
        assert("make"@[0] != "node"@[0]);
        assert("make"@ != "node"@);
        reveal_strlit("docker");
        assert("make"@.len() != "docker"@.len());
        assert("make"@ != "docker"@);
        reveal_strlit("git");
        assert("make"@.len() != "git"@.len());
        assert("make"@ != "git"@);
    }
    assert(whitelisted_app("cmake"@) == Some("CMake"@)) by {
        reveal_strlit("cmake");
        reveal_strlit("code");
        assert("cmake"@.len() != "code"@.len());
        assert("cmake"@ != "code"@);
        reveal_strlit("cursor");
        assert("cmake"@.len() != "cursor"@.len());
        assert("cmake"@ != "cursor"@);
        reveal_strlit("vim");
        assert("cmake"@.len() != "vim"@.len());
        assert("cmake"@ != "vim"@);
        reveal_strlit("nvim");
        assert("cmake"@.len() != "nvim"@.len());
        assert("cmake"@ != "nvim"@);
        reveal_strlit("nano");
        assert("cmake"@.len() != "nano"@.len());
        assert("cmake"@ != "nano"@);
        reveal_strlit("firefox");
        assert("cmake"@.len() != "firefox"@.len());
        assert("cmake"@ != "firefox"@);
        reveal_strlit("chromium");
        assert("cmake"@.len() != "chromium"@.len());
        assert("cmake"@ != "chromium"@);
        reveal_strlit("google-chrome");
        assert("cmake"@.len() != "google-chrome"@.len());
        assert("cmake"@ != "google-chrome"@);
        reveal_strlit("brave");
        assert("cmake"@[0] != "brave"@[0]);
        assert("cmake"@ != "brave"@);
        reveal_strlit("brave-browser");
        assert("cmake"@.len() != "brave-browser"@.len());
        assert("cmake"@ != "brave-browser"@);
        reveal_strlit("cargo");
        assert("cmake"@[1] != "cargo"@[1]);
        assert("cmake"@ != "cargo"@);
        reveal_strlit("npm");
        assert("cmake"@.len() != "npm"@.len());
        assert("cmake"@ != "npm"@);
        reveal_strlit("pnpm");
        assert("cmake"@.len() != "pnpm"@.len());
        assert("cmake"@ != "pnpm"@);
        reveal_strlit("yarn");
        assert("cmake"@.len() != "yarn"@.len());
        assert("cmake"@ != "yarn"@);
        reveal_strlit("python");
        assert("cmake"@.len() != "python"@.len());
        assert("cmake"@ != "python"@);
        reveal_strlit("node");
        assert("cmake"@.len() != "node"@.len());
        assert("cmake"@ != "node"@);
        reveal_strlit("docker");
        assert("cmake"@.len() != "docker"@.len());
        assert("cmake"@ != "docker"@);
        reveal_strlit("git");
        assert("cmake"@.len() != "git"@.len());
        assert("cmake"@ != "git"@);
        reveal_strlit("make");
        assert("cmake"@.len() != "make"@.len());
        assert("cmake"@ != "make"@);
    }
    assert(whitelisted_app("go"@) == Some("Go"@)) by {
        reveal_strlit("go");
        reveal_strlit("code");
        assert("go"@.len() != "code"@.len());
        assert("go"@ != "code"@);
        reveal_strlit("cursor");
        assert("go"@.len() != "cursor"@.len());
        assert("go"@ != "cursor"@);
        reveal_strlit("vim");
        assert("go"@.len() != "vim"@.len());
        assert("go"@ != "vim"@);
        reveal_strlit("nvim");
        assert("go"@.len() != "nvim"@.len());
        assert("go"@ != "nvim"@);
        reveal_strlit("nano");
        assert("go"@.len() != "nano"@.len());
        assert("go"@ != "nano"@);
        reveal_strlit("firefox");
        assert("go"@.len() != "firefox"@.len());
        assert("go"@ != "firefox"@);
        reveal_strlit("chromium");
        assert("go"@.len() != "chromium"@.len());
        assert("go"@ != "chromium"@);
        reveal_strlit("google-chrome");
        assert("go"@.len() != "google-chrome"@.len());
        assert("go"@ != "google-chrome"@);
        reveal_strlit("brave");
        assert("go"@.len() != "brave"@.len());
        assert("go"@ != "brave"@);
        reveal_strlit("brave-browser");
        assert("go"@.len() != "brave-browser"@.len());
        assert("go"@ != "brave-browser"@);
        reveal_strlit("cargo");
        assert("go"@.len() != "cargo"@.len());
        assert("go"@ != "cargo"@);
        reveal_strlit("npm");
        assert("go"@.len() != "npm"@.len());
        assert("go"@ != "npm"@);
        reveal_strlit("pnpm");
        assert("go"@.len() != "pnpm"@.len());
        assert("go"@ != "pnpm"@);
        reveal_strlit("yarn");
        assert("go"@.len() != "yarn"@.len());
        assert("go"@ != "yarn"@);
        reveal_strlit("python");
        assert("go"@.len() != "python"@.len());
        assert("go"@ != "python"@);
        reveal_strlit("node");
        assert("go"@.len() != "node"@.len());
        assert("go"@ != "node"@);
        reveal_strlit("docker");
        assert("go"@.len() != "docker"@.len());
        assert("go"@ != "docker"@);
        reveal_strlit("git");
        assert("go"@.len() != "git"@.len());
        assert("go"@ != "git"@);
        reveal_strlit("make");
        assert("go"@.len() != "make"@.len());
        assert("go"@ != "make"@);
        reveal_strlit("cmake");
        assert("go"@.len() != "cmake"@.len());
        assert("go"@ != "cmake"@);
    }
    assert(whitelisted_app("rustc"@) == Some("Rust"@)) by {
        reveal_strlit("rustc");
        reveal_strlit("code");
        assert("rustc"@.len() != "code"@.len());
        assert("rustc"@ != "code"@);
        reveal_strlit("cursor");
        assert("rustc"@.len() != "cursor"@.len());
        assert("rustc"@ != "cursor"@);
        reveal_strlit("vim");
        assert("rustc"@.len() != "vim"@.len());
        assert("rustc"@ != "vim"@);
        reveal_strlit("nvim");
        assert("rustc"@.len() != "nvim"@.len());
        assert("rustc"@ != "nvim"@);
        reveal_strlit("nano");
        assert("rustc"@.len() != "nano"@.len());
        assert("rustc"@ != "nano"@);
        reveal_strlit("firefox");
        assert("rustc"@.len() != "firefox"@.len());
        assert("rustc"@ != "firefox"@);
        reveal_strlit("chromium");
        assert("rustc"@.len() != "chromium"@.len());
        assert("rustc"@ != "chromium"@);
        reveal_strlit("google-chrome");
        assert("rustc"@.len() != "google-chrome"@.len());
        assert("rustc"@ != "google-chrome"@);
        reveal_strlit("brave");
        assert("rustc"@[0] != "brave"@[0]);
        assert("rustc"@ != "brave"@);
        reveal_strlit("brave-browser");
        assert("rustc"@.len() != "brave-browser"@.len());
        assert("rustc"@ != "brave-browser"@);
        reveal_strlit("cargo");
        assert("rustc"@[0] != "cargo"@[0]);
        assert("rustc"@ != "cargo"@);
        reveal_strlit("npm");
        assert("rustc"@.len() != "npm"@.len());
        assert("rustc"@ != "npm"@);
        reveal_strlit("pnpm");
        assert("rustc"@.len() != "pnpm"@.len());
        assert("rustc"@ != "pnpm"@);
        reveal_strlit("yarn");
        assert("rustc"@.len() != "yarn"@.len());
        assert("rustc"@ != "yarn"@);
        reveal_strlit("python");
        assert("rustc"@.len() != "python"@.len());
        assert("rustc"@ != "python"@);
        reveal_strlit("node");
        assert("rustc"@.len() != "node"@.len());
        assert("rustc"@ != "node"@);
        reveal_strlit("docker");
        assert("rustc"@.len() != "docker"@.len());
        assert("rustc"@ != "docker"@);
        reveal_strlit("git");
        assert("rustc"@.len() != "git"@.len());
        assert("rustc"@ != "git"@);
        reveal_strlit("make");
        assert("rustc"@.len() != "make"@.len());
        assert("rustc"@ != "make"@);
        reveal_strlit("cmake");
        assert("rustc"@[0] != "cmake"@[0]);
        assert("rustc"@ != "cmake"@);
        reveal_strlit("go");
        assert("rustc"@.len() != "go"@.len());
        assert("rustc"@ != "go"@);
    }
    assert(whitelisted_app("unity"@) == Some("Unity"@)) by {
        reveal_strlit("unity");
        reveal_strlit("code");
        assert("unity"@.len() != "code"@.len());
        assert("unity"@ != "code"@);
        reveal_strlit("cursor");
        assert("unity"@.len() != "cursor"@.len());
        assert("unity"@ != "cursor"@);
        reveal_strlit("vim");
        assert("unity"@.len() != "vim"@.len());
        assert("unity"@ != "vim"@);
        reveal_strlit("nvim");
        assert("unity"@.len() != "nvim"@.len());
        assert("unity"@ != "nvim"@);
        reveal_strlit("nano");
        assert("unity"@.len() != "nano"@.len());
        assert("unity"@ != "nano"@);
        reveal_strlit("firefox");
        assert("unity"@.len() != "firefox"@.len());
        assert("unity"@ != "firefox"@);
        reveal_strlit("chromium");
        assert("unity"@.len() != "chromium"@.len());
        assert("unity"@ != "chromium"@);
        reveal_strlit("google-chrome");
        assert("unity"@.len() != "google-chrome"@.len());
        assert("unity"@ != "google-chrome"@);
        reveal_strlit("brave");
        assert("unity"@[0] != "brave"@[0]);
        assert("unity"@ != "brave"@);
        reveal_strlit("brave-browser");
        assert("unity"@.len() != "brave-browser"@.len());
        assert("unity"@ != "brave-browser"@);
        reveal_strlit("cargo");
        assert("unity"@[0] != "cargo"@[0]);
        assert("unity"@ != "cargo"@);
        reveal_strlit("npm");
        assert("unity"@.len() != "npm"@.len());
        assert("unity"@ != "npm"@);
        reveal_strlit("pnpm");
        assert("unity"@.len() != "pnpm"@.len());
        assert("unity"@ != "pnpm"@);
        reveal_strlit("yarn");
        assert("unity"@.len() != "yarn"@.len());
        assert("unity"@ != "yarn"@);
        reveal_strlit("python");
        assert("unity"@.len() != "python"@.len());
        assert("unity"@ != "python"@);
        reveal_strlit("node");
        assert("unity"@.len() != "node"@.len());
        assert("unity"@ != "node"@);
        reveal_strlit("docker");
        assert("unity"@.len() != "docker"@.len());
        assert("unity"@ != "docker"@);
        reveal_strlit("git");
        assert("unity"@.len() != "git"@.len());
        assert("unity"@ != "git"@);
        reveal_strlit("make");
        assert("unity"@.len() != "make"@.len());
        assert("unity"@ != "make"@);
        reveal_strlit("cmake");
        assert("unity"@[0] != "cmake"@[0]);
        assert("unity"@ != "cmake"@);
        reveal_strlit("go");
        assert("unity"@.len() != "go"@.len());
        assert("unity"@ != "go"@);
        reveal_strlit("rustc");
        assert("unity"@[0] != "rustc"@[0]);
        assert("unity"@ != "rustc"@);
    }
    assert(whitelisted_app("godot"@) == Some("Godot"@)) by {
        reveal_strlit("godot");
        reveal_strlit("code");
        assert("godot"@.len() != "code"@.len());
        assert("godot"@ != "code"@);
        reveal_strlit("cursor");
        assert("godot"@.len() != "cursor"@.len());
        assert("godot"@ != "cursor"@);
        reveal_strlit("vim");
        assert("godot"@.len() != "vim"@.len());
        assert("godot"@ != "vim"@);
        reveal_strlit("nvim");
        assert("godot"@.len() != "nvim"@.len());
        assert("godot"@ != "nvim"@);
        reveal_strlit("nano");
        assert("godot"@.len() != "nano"@.len());
        assert("godot"@ != "nano"@);
        reveal_strlit("firefox");
        assert("godot"@.len() != "firefox"@.len());
        assert("godot"@ != "firefox"@);
        reveal_strlit("chromium");
        assert("godot"@.len() != "chromium"@.len());
        assert("godot"@ != "chromium"@);
        reveal_strlit("google-chrome");
        assert("godot"@.len() != "google-chrome"@.len());
        assert("godot"@ != "google-chrome"@);
        reveal_strlit("brave");
        assert("godot"@[0] != "brave"@[0]);
        assert("godot"@ != "brave"@);
        reveal_strlit("brave-browser");
        assert("godot"@.len() != "brave-browser"@.len());
        assert("godot"@ != "brave-browser"@);
        reveal_strlit("cargo");
        assert("godot"@[0] != "cargo"@[0]);
        assert("godot"@ != "cargo"@);
        reveal_strlit("npm");
        assert("godot"@.len() != "npm"@.len());
        assert("godot"@ != "npm"@);
        reveal_strlit("pnpm");
        assert("godot"@.len() != "pnpm"@.len());
        assert("godot"@ != "pnpm"@);
        reveal_strlit("yarn");
        assert("godot"@.len() != "yarn"@.len());
        assert("godot"@ != "yarn"@);
        reveal_strlit("python");
        assert("godot"@.len() != "python"@.len());
        assert("godot"@ != "python"@);
        reveal_strlit("node");
        assert("godot"@.len() != "node"@.len());
        assert("godot"@ != "node"@);
        reveal_strlit("docker");
        assert("godot"@.len() != "docker"@.len());
        assert("godot"@ != "docker"@);
        reveal_strlit("git");
        assert("godot"@.len() != "git"@.len());
        assert("godot"@ != "git"@);
        reveal_strlit("make");
        assert("godot"@.len() != "make"@.len());
        assert("godot"@ != "make"@);
        reveal_strlit("cmake");
        assert("godot"@[0] != "cmake"@[0]);
        assert("godot"@ != "cmake"@);
        reveal_strlit("go");
        assert("godot"@.len() != "go"@.len());
        assert("godot"@ != "go"@);
        reveal_strlit("rustc");
        assert("godot"@[0] != "rustc"@[0]);
        assert("godot"@ != "rustc"@);
        reveal_strlit("unity");
        assert("godot"@[0] != "unity"@[0]);
        assert("godot"@ != "unity"@);
    }
    assert(whitelisted_app("blender"@) == Some("Blender"@)) by {
        reveal_strlit("blender");
        reveal_strlit("code");
        assert("blender"@.len() != "code"@.len());
        assert("blender"@ != "code"@);
        reveal_strlit("cursor");
        assert("blender"@.len() != "cursor"@.len());
        assert("blender"@ != "cursor"@);
        reveal_strlit("vim");
        assert("blender"@.len() != "vim"@.len());
        assert("blender"@ != "vim"@);
        reveal_strlit("nvim");
        assert("blender"@.len() != "nvim"@.len());
        assert("blender"@ != "nvim"@);
        reveal_strlit("nano");
        assert("blender"@.len() != "nano"@.len());
        assert("blender"@ != "nano"@);
        reveal_strlit("firefox");
        assert("blender"@[0] != "firefox"@[0]);
        assert("blender"@ != "firefox"@);
        reveal_strlit("chromium");
        assert("blender"@.len() != "chromium"@.len());
        assert("blender"@ != "chromium"@);
        reveal_strlit("google-chrome");
        assert("blender"@.len() != "google-chrome"@.len());
        assert("blender"@ != "google-chrome"@);
        reveal_strlit("brave");
        assert("blender"@.len() != "brave"@.len());
        assert("blender"@ != "brave"@);
        reveal_strlit("brave-browser");
        assert("blender"@.len() != "brave-browser"@.len());
        assert("blender"@ != "brave-browser"@);
        reveal_strlit("cargo");
        assert("blender"@.len() != "cargo"@.len());
        assert("blender"@ != "cargo"@);
        reveal_strlit("npm");
        assert("blender"@.len() != "npm"@.len());
        assert("blender"@ != "npm"@);
        reveal_strlit("pnpm");
        assert("blender"@.len() != "pnpm"@.len());
        assert("blender"@ != "pnpm"@);
        reveal_strlit("yarn");
        assert("blender"@.len() != "yarn"@.len());
        assert("blender"@ != "yarn"@);
        reveal_strlit("python");
        assert("blender"@.len() != "python"@.len());
        assert("blender"@ != "python"@);
        reveal_strlit("node");
        assert("blender"@.len() != "node"@.len());
        assert("blender"@ != "node"@);
        reveal_strlit("docker");
        assert("blender"@.len() != "docker"@.len());
        assert("blender"@ != "docker"@);
        reveal_strlit("git");
        assert("blender"@.len() != "git"@.len());
        assert("blender"@ != "git"@);
        reveal_strlit("make");
        assert("blender"@.len() != "make"@.len());
        assert("blender"@ != "make"@);
        reveal_strlit("cmake");
        assert("blender"@.len() != "cmake"@.len());
        assert("blender"@ != "cmake"@);
        reveal_strlit("go");
        assert("blender"@.len() != "go"@.len());
        assert("blender"@ != "go"@);
        reveal_strlit("rustc");
        assert("blender"@.len() != "rustc"@.len());
        assert("blender"@ != "rustc"@);
        reveal_strlit("unity");
        assert("blender"@.len() != "unity"@.len());
        assert("blender"@ != "unity"@);
        reveal_strlit("godot");
        assert("blender"@.len() != "godot"@.len());
        assert("blender"@ != "godot"@);
    }
}

/// The item launching application `app` with the command `value`.
pub open spec fn launch_item(app: Seq<char>, value: Seq<char>) -> ItemView {
    ItemView { kind: DetectedKindView::AppLaunch(app), value }
}

proof fn lemma_app_item_listed(t: Seq<char>)
    requires
        t.len() > 0,
        trim(t) == t,
    ensures
        app_item(t) matches Some(x) ==> line_items(t).contains(x),
{
    if app_item(t) is Some {
        let x = app_item(t)->0;
        let a = url_word_items(words(t)) + opt_items(localhost_item(t));
        let b = a + opt_items(app_item(t));
        assert(b[a.len() as int] == x);
        let all = line_items(t);
        assert(all == b + opt_items(error_item(t)) + opt_items(warning_item(t)) + opt_items(
            file_item(t),
        ));
        assert(all[a.len() as int] == x);
    }
}

/// Application launches: a trimmed line whose command name (the first word
/// after the first `$ `, or of the whole line, taken after its last `/`) is
/// one of the listed commands yields an item launching the listed
/// application, whose value is the command part of the line.
pub proof fn law_app_launches(t: Seq<char>)
    requires
        t.len() > 0,
        trim(t) == t,
    ensures
        command_name(t) == "code"@ ==> line_items(t).contains(launch_item("VS Code"@, command_part(t))),
        command_name(t) == "cursor"@ ==> line_items(t).contains(launch_item("Cursor"@, command_part(t))),
        command_name(t) == "vim"@ ==> line_items(t).contains(launch_item("Vim"@, command_part(t))),
        command_name(t) == "nvim"@ ==> line_items(t).contains(launch_item("Neovim"@, command_part(t))),
        command_name(t) == "nano"@ ==> line_items(t).contains(launch_item("Nano"@, command_part(t))),
        command_name(t) == "firefox"@ ==> line_items(t).contains(launch_item("Firefox"@, command_part(t))),
        command_name(t) == "chromium"@ ==> line_items(t).contains(launch_item("Chromium"@, command_part(t))),
        command_name(t) == "google-chrome"@ ==> line_items(t).contains(launch_item("Chrome"@, command_part(t))),
        command_name(t) == "brave"@ ==> line_items(t).contains(launch_item("Brave"@, command_part(t))),
        command_name(t) == "brave-browser"@ ==> line_items(t).contains(launch_item("Brave"@, command_part(t))),
        command_name(t) == "cargo"@ ==> line_items(t).contains(launch_item("Cargo"@, command_part(t))),
        command_name(t) == "npm"@ ==> line_items(t).contains(launch_item("npm"@, command_part(t))),
        command_name(t) == "pnpm"@ ==> line_items(t).contains(launch_item("pnpm"@, command_part(t))),
        command_name(t) == "yarn"@ ==> line_items(t).contains(launch_item("Yarn"@, command_part(t))),
        command_name(t) == "python"@ ==> line_items(t).contains(launch_item("Python"@, command_part(t))),
        command_name(t) == "node"@ ==> line_items(t).contains(launch_item("Node.js"@, command_part(t))),
        command_name(t) == "docker"@ ==> line_items(t).contains(launch_item("Docker"@, command_part(t))),
        command_name(t) == "git"@ ==> line_items(t).contains(launch_item("Git"@, command_part(t))),
        command_name(t) == "make"@ ==> line_items(t).contains(launch_item("Make"@, command_part(t))),
        command_name(t) == "cmake"@ ==> line_items(t).contains(launch_item("CMake"@, command_part(t))),
        command_name(t) == "go"@ ==> line_items(t).contains(launch_item("Go"@, command_part(t))),
        command_name(t) == "rustc"@ ==> line_items(t).contains(launch_item("Rust"@, command_part(t))),
        command_name(t) == "unity"@ ==> line_items(t).contains(launch_item("Unity"@, command_part(t))),
        command_name(t) == "godot"@ ==> line_items(t).contains(launch_item("Godot"@, command_part(t))),
        command_name(t) == "blender"@ ==> line_items(t).contains(launch_item("Blender"@, command_part(t))),
{
    lemma_whitelist();
    lemma_app_item_listed(t);
}

/// Build messages and file activity: a trimmed line that mentions
/// `error[E` or `error:` yields a build item of its first 120 characters;
/// one that mentions `warning:` but not `generated` yields one too; one
/// that mentions `Compiling `, `Creating ` or `Writing ` and has a `/`
/// yields a file item of the whole line.
pub proof fn law_build_and_file_items(t: Seq<char>)
    requires
        t.len() > 0,
        trim(t) == t,
    ensures
        contains(t, "error[E"@) || contains(t, "error:"@) ==> line_items(t).contains(
            ItemView {
                kind: DetectedKindView::BuildOutput,
                value: if t.len() <= 120 { t } else { t.take(120) },
            },
        ),
        contains(t, "warning:"@) && !contains(t, "generated"@) ==> line_items(t).contains(
            ItemView {
                kind: DetectedKindView::BuildOutput,
                value: if t.len() <= 120 { t } else { t.take(120) },
            },
        ),
        (contains(t, "Compiling "@) || contains(t, "Creating "@) || contains(t, "Writing "@))
            && t.contains('/') ==> line_items(t).contains(
            ItemView { kind: DetectedKindView::FilePath, value: t },
        ),
{
    let a = url_word_items(words(t)) + opt_items(localhost_item(t)) + opt_items(app_item(t));
    let b = a + opt_items(error_item(t));
    let c = b + opt_items(warning_item(t));
    let all = line_items(t);
    assert(all == c + opt_items(file_item(t)));
    if error_item(t) is Some {
        assert(b[a.len() as int] == error_item(t)->0);
        assert(all[a.len() as int] == error_item(t)->0);
    }
    if warning_item(t) is Some {
        assert(c[b.len() as int] == warning_item(t)->0);
        assert(all[b.len() as int] == warning_item(t)->0);
    }
    if file_item(t) is Some {
        assert(all[c.len() as int] == file_item(t)->0);
    }
}

} // verus!
