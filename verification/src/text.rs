//! Character-level text primitives shared by the parsers and scanners:
//! whitespace, line splitting, word splitting, trimming, searching.
//!
//! Text is modelled as `Seq<char>`, the view of `str` and `String`.
use vstd::prelude::*;

verus! {

/// `String::push` appends one character at the end of the string.
pub assume_specification[ String::push ](string: &mut String, ch: char)
    ensures
        final(string)@ == old(string)@.push(ch),
;

// ---------------------------------------------------------------------------
// Whitespace
// ---------------------------------------------------------------------------

/// The Unicode `White_Space` property (the 25 code points of `char::is_whitespace`).
pub open spec fn is_ws(c: char) -> bool {
    let u = c as u32;
    ||| 0x9 <= u <= 0xd
    ||| u == 0x20
    ||| u == 0x85
    ||| u == 0xa0
    ||| u == 0x1680
    ||| 0x2000 <= u <= 0x200a
    ||| u == 0x2028
    ||| u == 0x2029
    ||| u == 0x202f
    ||| u == 0x205f
    ||| u == 0x3000
}

/// Whether `c` is a whitespace character.
pub fn is_whitespace(c: char) -> (b: bool)
    ensures
        b == is_ws(c),
{
    let u = c as u32;
    (0x9 <= u && u <= 0xd) || u == 0x20 || u == 0x85 || u == 0xa0 || u == 0x1680 || (0x2000
        <= u && u <= 0x200a) || u == 0x2028 || u == 0x2029 || u == 0x202f || u == 0x205f || u
        == 0x3000
}

// ---------------------------------------------------------------------------
// Conversions
// ---------------------------------------------------------------------------

/// The characters of `s`, in order.
pub fn chars_of(s: &str) -> (v: Vec<char>)
    ensures
        v@ == s@,
{
    let mut v: Vec<char> = Vec::new();
    for c in iter: s.chars()
        invariant
            v@ == iter.seq().take(iter.index() as int),
    {
        v.push(c);
    }
    v
}

/// A `String` holding `v[from..to]`.
pub fn string_from_chars(v: &[char], from: usize, to: usize) -> (s: String)
    requires
        from <= to <= v@.len(),
    ensures
        s@ == v@.subrange(from as int, to as int),
{
    let mut s = String::new();
    let mut i = from;
    while i < to
        invariant
            from <= i <= to <= v@.len(),
            s@ == v@.subrange(from as int, i as int),
        decreases to - i,
    {
        s.push(v[i]);
        i = i + 1;
    }
    s
}

/// A new vector holding `v[from..to]`.
pub fn slice_chars(v: &[char], from: usize, to: usize) -> (r: Vec<char>)
    requires
        from <= to <= v@.len(),
    ensures
        r@ == v@.subrange(from as int, to as int),
{
    let mut r: Vec<char> = Vec::new();
    let mut i = from;
    while i < to
        invariant
            from <= i <= to <= v@.len(),
            r@ == v@.subrange(from as int, i as int),
        decreases to - i,
    {
        r.push(v[i]);
        i = i + 1;
    }
    r
}

/// Whether two strings hold the same characters.
pub fn str_equals(a: &str, b: &str) -> (r: bool)
    ensures
        r == (a@ == b@),
{
    let va = chars_of(a);
    let vb = chars_of(b);
    chars_equal(&va, &vb)
}

/// Whether two character sequences are equal.
pub fn chars_equal(a: &[char], b: &[char]) -> (r: bool)
    ensures
        r == (a@ == b@),
{
    if a.len() != b.len() {
        return false;
    }
    let mut i: usize = 0;
    while i < a.len()
        invariant
            a@.len() == b@.len(),
            i <= a@.len(),
            a@.take(i as int) == b@.take(i as int),
        decreases a@.len() - i,
    {
        if a[i] != b[i] {
            assert(a@[i as int] != b@[i as int]);
            return false;
        }
        assert(a@.take(i + 1) == a@.take(i as int).push(a@[i as int]));
        assert(b@.take(i + 1) == b@.take(i as int).push(b@[i as int]));
        i = i + 1;
    }
    assert(a@.take(a@.len() as int) == a@);
    assert(b@.take(b@.len() as int) == b@);
    true
}

// ---------------------------------------------------------------------------
// Prefixes and substring search
// ---------------------------------------------------------------------------

/// `s` with the prefix `p` removed, when `s` starts with `p`.
pub open spec fn strip_prefix(s: Seq<char>, p: Seq<char>) -> Option<Seq<char>> {
    if p.is_prefix_of(s) {
        Some(s.skip(p.len() as int))
    } else {
        None
    }
}

/// Whether `p` occurs in `s` starting at index `i`.
pub open spec fn occurs_at(s: Seq<char>, p: Seq<char>, i: int) -> bool {
    0 <= i && i + p.len() <= s.len() && s.subrange(i, i + p.len()) == p
}

/// Whether `p` occurs anywhere in `s`.
pub open spec fn contains(s: Seq<char>, p: Seq<char>) -> bool {
    exists|i: int| occurs_at(s, p, i)
}

/// The first index at which `p` occurs in `s`, if any.
#[verifier::opaque]
pub open spec fn find(s: Seq<char>, p: Seq<char>) -> Option<int> {
    if contains(s, p) {
        Some(choose|i: int| occurs_at(s, p, i) && forall|j: int| 0 <= j < i ==> !occurs_at(s, p, j))
    } else {
        None
    }
}

/// Whether `p` is a prefix of `s`.
pub fn starts_with(s: &[char], p: &[char]) -> (r: bool)
    ensures
        r == p@.is_prefix_of(s@),
{
    occurs_at_exec(s, p, 0)
}

/// Whether `p` occurs in `s` at index `i`.
pub fn occurs_at_exec(s: &[char], p: &[char], i: usize) -> (r: bool)
    ensures
        r == occurs_at(s@, p@, i as int),
        i == 0 ==> (r == p@.is_prefix_of(s@)),
{
    if i > s.len() || p.len() > s.len() - i {
        return false;
    }
    let mut k: usize = 0;
    while k < p.len()
        invariant
            i + p@.len() <= s@.len(),
            s@.len() <= usize::MAX,
            k <= p@.len(),
            forall|j: int| 0 <= j < k ==> s@[i + j] == p@[j],
        decreases p@.len() - k,
    {
        if s[i + k] != p[k] {
            assert(s@.subrange(i as int, i + p@.len())[k as int] != p@[k as int]);
            return false;
        }
        k = k + 1;
    }
    assert(s@.subrange(i as int, i + p@.len()) == p@);
    true
}

/// The first index at which `p` occurs in `s`, if any.
pub fn find_exec(s: &[char], p: &[char]) -> (r: Option<usize>)
    ensures
        match r {
            Some(i) => find(s@, p@) == Some(i as int) && occurs_at(s@, p@, i as int),
            None => find(s@, p@) is None,
        },
        r is Some <==> contains(s@, p@),
{
    reveal(find);
    if p.len() > s.len() {
        assert forall|j: int| !occurs_at(s@, p@, j) by {}
        return None;
    }
    let last = s.len() - p.len();
    let mut i: usize = 0;
    loop
        invariant
            i <= last,
            last + p@.len() == s@.len(),
            forall|j: int| 0 <= j < i ==> !occurs_at(s@, p@, j),
        ensures
            forall|j: int| 0 <= j <= last ==> !occurs_at(s@, p@, j),
        decreases last - i,
    {
        if occurs_at_exec(s, p, i) {
            proof {
                reveal(find);
                assert(contains(s@, p@));
                let c = choose|c: int|
                    occurs_at(s@, p@, c) && forall|j: int| 0 <= j < c ==> !occurs_at(s@, p@, j);
                assert(occurs_at(s@, p@, i as int) && forall|j: int|
                    0 <= j < i ==> !occurs_at(s@, p@, j));
                if c < i {
                } else if c > i {
                    assert(!occurs_at(s@, p@, i as int));
                }
            }
            return Some(i);
        }
        if i == last {
            break;
        }
        i = i + 1;
    }
    assert forall|j: int| !occurs_at(s@, p@, j) by {
        if 0 <= j <= last {
        }
    }
    None
}

/// Whether `p` occurs anywhere in `s`.
pub fn contains_exec(s: &[char], p: &[char]) -> (r: bool)
    ensures
        r == contains(s@, p@),
{
    let f = find_exec(s, p);
    f.is_some()
}

/// Whether the character `c` occurs in `s`.
pub fn contains_char(s: &[char], c: char) -> (r: bool)
    ensures
        r == s@.contains(c),
{
    let mut i: usize = 0;
    while i < s.len()
        invariant
            i <= s@.len(),
            forall|j: int| 0 <= j < i ==> s@[j] != c,
        decreases s@.len() - i,
    {
        if s[i] == c {
            assert(s@[i as int] == c);
            return true;
        }
        i = i + 1;
    }
    false
}

// ---------------------------------------------------------------------------
// Lines (as `str::lines`)
// ---------------------------------------------------------------------------

/// A line with one trailing carriage return removed, if there is one.
pub open spec fn strip_cr(l: Seq<char>) -> Seq<char> {
    if l.len() > 0 && l.last() == '\r' {
        l.drop_last()
    } else {
        l
    }
}

/// Reading `s` left to right: the lines ended so far and the line in progress.
pub open spec fn lines_scan(s: Seq<char>) -> (Seq<Seq<char>>, Seq<char>)
    decreases s.len(),
{
    if s.len() == 0 {
        (seq![], seq![])
    } else {
        let (done, cur) = lines_scan(s.drop_last());
        if s.last() == '\n' {
            (done.push(strip_cr(cur)), seq![])
        } else {
            (done, cur.push(s.last()))
        }
    }
}

/// The lines of `s`, as `str::lines` gives them: split at `\n`, one `\r`
/// before each `\n` dropped, and no empty last line after a final `\n`.
pub open spec fn lines(s: Seq<char>) -> Seq<Seq<char>> {
    let (done, cur) = lines_scan(s);
    if cur.len() > 0 {
        done.push(cur)
    } else {
        done
    }
}

/// Splitting into lines at a line boundary: when `a` is empty or ends with
/// `\n`, the lines of `a + b` are the lines of `a` followed by those of `b`.
pub proof fn law_lines_concat(a: Seq<char>, b: Seq<char>)
    requires
        a.len() == 0 || a.last() == '\n',
    ensures
        lines(a + b) == lines(a) + lines(b),
{
    lemma_lines_scan_concat(a, b);
    let (da, ca) = lines_scan(a);
    assert(ca.len() == 0) by {
        if a.len() > 0 {
            let (d0, c0) = lines_scan(a.drop_last());
        }
    }
    let (db, cb) = lines_scan(b);
    if cb.len() > 0 {
        assert(da + db.push(cb) =~= (da + db).push(cb));
    }
}

proof fn lemma_lines_scan_concat(a: Seq<char>, b: Seq<char>)
    requires
        a.len() == 0 || a.last() == '\n',
    ensures
        lines_scan(a + b).0 == lines_scan(a).0 + lines_scan(b).0,
        lines_scan(a + b).1 == lines_scan(b).1,
    decreases b.len(),
{
    if b.len() == 0 {
        assert(a + b =~= a);
        if a.len() > 0 {
            let (d0, c0) = lines_scan(a.drop_last());
        }
        assert(lines_scan(a).0 + Seq::<Seq<char>>::empty() =~= lines_scan(a).0);
    } else {
        lemma_lines_scan_concat(a, b.drop_last());
        assert((a + b).drop_last() =~= a + b.drop_last());
        assert((a + b).last() == b.last());
        let (dab, cab) = lines_scan(a + b.drop_last());
        let (db, cb) = lines_scan(b.drop_last());
        if b.last() == '\n' {
            assert(lines_scan(a).0 + db.push(strip_cr(cb)) =~= (lines_scan(a).0 + db).push(
                strip_cr(cb),
            ));
        }
    }
}

/// The contents of a sequence of character vectors.
pub open spec fn seqs_of(v: Seq<Vec<char>>) -> Seq<Seq<char>> {
    v.map_values(|l: Vec<char>| l@)
}

/// Splits `s` into its lines.
pub fn split_lines(s: &[char]) -> (r: Vec<Vec<char>>)
    ensures
        seqs_of(r@) == lines(s@),
{
    let mut done: Vec<Vec<char>> = Vec::new();
    let mut cur: Vec<char> = Vec::new();
    let mut i: usize = 0;
    while i < s.len()
        invariant
            i <= s@.len(),
            (seqs_of(done@), cur@) == lines_scan(s@.take(i as int)),
        decreases s@.len() - i,
    {
        let c = s[i];
        assert(s@.take(i + 1).drop_last() == s@.take(i as int));
        if c == '\n' {
            let n = cur.len();
            if n > 0 && cur[n - 1] == '\r' {
                cur.pop();
            }
            done.push(cur);
            cur = Vec::new();
            assert(seqs_of(done@) == lines_scan(s@.take(i as int)).0.push(
                strip_cr(lines_scan(s@.take(i as int)).1),
            ));
        } else {
            cur.push(c);
            assert(seqs_of(done@) == lines_scan(s@.take(i + 1)).0);
        }
        i = i + 1;
    }
    assert(s@.take(s@.len() as int) == s@);
    if cur.len() > 0 {
        done.push(cur);
        assert(seqs_of(done@) == lines(s@));
    }
    done
}

// ---------------------------------------------------------------------------
// Words (as `str::split_whitespace`)
// ---------------------------------------------------------------------------

/// Reading `s` left to right: the words ended so far and the word in progress.
pub open spec fn words_scan(s: Seq<char>) -> (Seq<Seq<char>>, Seq<char>)
    decreases s.len(),
{
    if s.len() == 0 {
        (seq![], seq![])
    } else {
        let (done, cur) = words_scan(s.drop_last());
        if is_ws(s.last()) {
            if cur.len() > 0 {
                (done.push(cur), seq![])
            } else {
                (done, cur)
            }
        } else {
            (done, cur.push(s.last()))
        }
    }
}

/// The words of `s`, as `str::split_whitespace` gives them: the maximal
/// runs of non-whitespace characters, in order.
pub open spec fn words(s: Seq<char>) -> Seq<Seq<char>> {
    let (done, cur) = words_scan(s);
    if cur.len() > 0 {
        done.push(cur)
    } else {
        done
    }
}

/// Splits `s` into its whitespace-separated words.
pub fn split_words(s: &[char]) -> (r: Vec<Vec<char>>)
    ensures
        seqs_of(r@) == words(s@),
{
    let mut done: Vec<Vec<char>> = Vec::new();
    let mut cur: Vec<char> = Vec::new();
    let mut i: usize = 0;
    while i < s.len()
        invariant
            i <= s@.len(),
            (seqs_of(done@), cur@) == words_scan(s@.take(i as int)),
        decreases s@.len() - i,
    {
        let c = s[i];
        assert(s@.take(i + 1).drop_last() == s@.take(i as int));
        if is_whitespace(c) {
            if cur.len() > 0 {
                done.push(cur);
                cur = Vec::new();
                assert(seqs_of(done@) == words_scan(s@.take(i as int)).0.push(
                    words_scan(s@.take(i as int)).1,
                ));
            }
        } else {
            cur.push(c);
            assert(seqs_of(done@) == words_scan(s@.take(i + 1)).0);
        }
        i = i + 1;
    }
    assert(s@.take(s@.len() as int) == s@);
    if cur.len() > 0 {
        done.push(cur);
        assert(seqs_of(done@) == words(s@));
    }
    done
}

// ---------------------------------------------------------------------------
// Trimming
// ---------------------------------------------------------------------------

/// The characters trimmed by the three trimming rules in use.
#[derive(Clone, Copy, PartialEq, Eq, Debug)]
pub enum Trim {
    /// Whitespace (`str::trim`, `str::trim_end`).
    Whitespace,
    /// Neither alphanumeric nor one of `: / . - _` (URL words).
    UrlEdge,
    /// Neither alphanumeric nor `:` (`localhost:PORT` tokens).
    PortEdge,
}

/// Unicode alphanumeric (`char::is_alphanumeric`: `Alphabetic` or `Numeric`).
pub uninterp spec fn spec_is_alphanumeric(c: char) -> bool;

/// Calls `char::is_alphanumeric`; its result is named `spec_is_alphanumeric`.
#[verifier::external_body]
pub(crate) fn is_alphanumeric(c: char) -> (b: bool)
    ensures
        b == spec_is_alphanumeric(c),
{
    c.is_alphanumeric()
}

/// Whether the rule `t` trims the character `c`.
pub open spec fn trims(t: Trim, c: char) -> bool {
    match t {
        Trim::Whitespace => is_ws(c),
        Trim::UrlEdge => !spec_is_alphanumeric(c) && c != ':' && c != '/' && c != '.' && c
            != '-' && c != '_',
        Trim::PortEdge => !spec_is_alphanumeric(c) && c != ':',
    }
}

/// Whether the rule `t` trims the character `c`.
pub fn trims_exec(t: Trim, c: char) -> (b: bool)
    ensures
        b == trims(t, c),
{
    match t {
        Trim::Whitespace => is_whitespace(c),
        Trim::UrlEdge => !is_alphanumeric(c) && c != ':' && c != '/' && c != '.' && c != '-' && c
            != '_',
        Trim::PortEdge => !is_alphanumeric(c) && c != ':',
    }
}

/// `s` without the trailing characters that `t` trims.
pub open spec fn trim_end_by(s: Seq<char>, t: Trim) -> Seq<char>
    decreases s.len(),
{
    if s.len() > 0 && trims(t, s.last()) {
        trim_end_by(s.drop_last(), t)
    } else {
        s
    }
}

/// `s` without the leading characters that `t` trims.
pub open spec fn trim_start_by(s: Seq<char>, t: Trim) -> Seq<char>
    decreases s.len(),
{
    if s.len() > 0 && trims(t, s[0]) {
        trim_start_by(s.drop_first(), t)
    } else {
        s
    }
}

/// `s` without the leading and trailing characters that `t` trims.
pub open spec fn trim_by(s: Seq<char>, t: Trim) -> Seq<char> {
    trim_end_by(trim_start_by(s, t), t)
}

/// `str::trim`: `s` without leading and trailing whitespace.
pub open spec fn trim(s: Seq<char>) -> Seq<char> {
    trim_by(s, Trim::Whitespace)
}

/// `str::trim_end`: `s` without trailing whitespace.
pub open spec fn trim_end(s: Seq<char>) -> Seq<char> {
    trim_end_by(s, Trim::Whitespace)
}

/// What trimming at the end leaves does not end with a character the rule trims.
pub proof fn lemma_trim_end_clean(s: Seq<char>, t: Trim)
    ensures
        trim_end_by(s, t).len() > 0 ==> !trims(t, trim_end_by(s, t).last()),
    decreases s.len(),
{
    if s.len() > 0 && trims(t, s.last()) {
        lemma_trim_end_clean(s.drop_last(), t);
    }
}

proof fn lemma_trim_end_suffix(s: Seq<char>, t: Trim, k: int)
    requires
        0 <= k <= s.len(),
        forall|j: int| k <= j < s.len() ==> trims(t, s[j]),
    ensures
        trim_end_by(s, t) == trim_end_by(s.take(k), t),
    decreases s.len() - k,
{
    if k < s.len() {
        assert(s.drop_last().take(k) == s.take(k));
        lemma_trim_end_suffix(s.drop_last(), t, k);
    } else {
        assert(s.take(k) == s);
    }
}

proof fn lemma_trim_start_prefix(s: Seq<char>, t: Trim, k: int)
    requires
        0 <= k <= s.len(),
        forall|j: int| 0 <= j < k ==> trims(t, s[j]),
    ensures
        trim_start_by(s, t) == trim_start_by(s.skip(k), t),
    decreases k,
{
    if k > 0 {
        assert(s.drop_first().skip(k - 1) == s.skip(k));
        lemma_trim_start_prefix(s.drop_first(), t, k - 1);
    } else {
        assert(s.skip(0) == s);
    }
}

/// The end index of `s[..to]` once the rule `t` has trimmed it at the end.
pub fn trim_end_index(s: &[char], t: Trim, from: usize, to: usize) -> (e: usize)
    requires
        from <= to <= s@.len(),
    ensures
        from <= e <= to,
        s@.subrange(from as int, e as int) == trim_end_by(s@.subrange(from as int, to as int), t),
{
    let mut e = to;
    while e > from && trims_exec(t, s[e - 1])
        invariant
            from <= e <= to <= s@.len(),
            forall|j: int| e <= j < to ==> trims(t, s@[j]),
        decreases e - from,
    {
        e = e - 1;
    }
    let ghost sub = s@.subrange(from as int, to as int);
    proof {
        lemma_trim_end_suffix(sub, t, e - from);
        assert(sub.take(e - from) == s@.subrange(from as int, e as int));
    }
    e
}

/// The start index of `s[from..to]` once the rule `t` has trimmed it at the start.
pub fn trim_start_index(s: &[char], t: Trim, from: usize, to: usize) -> (b: usize)
    requires
        from <= to <= s@.len(),
    ensures
        from <= b <= to,
        s@.subrange(b as int, to as int) == trim_start_by(s@.subrange(from as int, to as int), t),
{
    let mut b = from;
    while b < to && trims_exec(t, s[b])
        invariant
            from <= b <= to <= s@.len(),
            forall|j: int| from <= j < b ==> trims(t, s@[j]),
        decreases to - b,
    {
        b = b + 1;
    }
    let ghost sub = s@.subrange(from as int, to as int);
    proof {
        lemma_trim_start_prefix(sub, t, b - from);
        assert(sub.skip(b - from) == s@.subrange(b as int, to as int));
        if b < to {
            assert(s@.subrange(b as int, to as int)[0] == s@[b as int]);
        }
    }
    b
}

/// `s` trimmed at both ends by the rule `t`.
pub fn trim_chars(s: &[char], t: Trim) -> (r: Vec<char>)
    ensures
        r@ == trim_by(s@, t),
{
    let b = trim_start_index(s, t, 0, s.len());
    let e = trim_end_index(s, t, b, s.len());
    assert(s@.subrange(0, s@.len() as int) == s@);
    slice_chars(s, b, e)
}

/// `s` trimmed at the end by the rule `t`.
pub fn trim_end_chars(s: &[char], t: Trim) -> (r: Vec<char>)
    ensures
        r@ == trim_end_by(s@, t),
{
    let e = trim_end_index(s, t, 0, s.len());
    assert(s@.subrange(0, s@.len() as int) == s@);
    slice_chars(s, 0, e)
}

} // verus!
