//! Parsers for the porcelain output of `git worktree list` and `git status`.
use vstd::prelude::*;
use vstd::string::StringSliceAdditionalSpecFns;
use vstd::utf8::*;

use crate::text::{
    law_lines_concat, lines_scan, chars_equal, chars_of, lines, seqs_of, split_lines, starts_with, str_equals, string_from_chars,
    strip_prefix,
};
use crate::types::{
    opt_view, statuses_view, worktrees_view, GitFileStatus, GitFileStatusView, Worktree,
    WorktreeView,
};

verus! {

// ---------------------------------------------------------------------------
// Branch names
// ---------------------------------------------------------------------------

/// The branch name of a ref: `refs/heads/` removed when the ref starts with it.
pub open spec fn branch_name(reference: Seq<char>) -> Seq<char> {
    match strip_prefix(reference, "refs/heads/"@) {
        Some(name) => name,
        None => reference,
    }
}

/// Extract branch name from a full ref like `refs/heads/main`.
pub fn extract_branch_name(reference: &str) -> (name: &str)
    ensures
        name@ == branch_name(reference@),
{
    let v = chars_of(reference);
    let prefix = chars_of("refs/heads/");
    if starts_with(&v, &prefix) {
        reference.substring_char(prefix.len(), v.len())
    } else {
        reference
    }
}

/// Whether a branch name is `main` or `master`.
pub open spec fn main_branch(name: Seq<char>) -> bool {
    name == "main"@ || name == "master"@
}

/// Check if a branch name is a main/master branch.
pub fn is_main_branch(name: &str) -> (b: bool)
    ensures
        b == main_branch(name@),
{
    str_equals(name, "main") || str_equals(name, "master")
}

// ---------------------------------------------------------------------------
// `git worktree list --porcelain`
// ---------------------------------------------------------------------------

/// The state of a reader of `git worktree list --porcelain` output: the
/// worktrees completed so far and the fields of the record being read.
pub struct WorktreeScan {
    pub done: Seq<WorktreeView>,
    pub path: Option<Seq<char>>,
    pub head: Option<Seq<char>>,
    pub branch: Option<Seq<char>>,
}

/// The state before any line is read.
pub open spec fn worktree_scan_start() -> WorktreeScan {
    WorktreeScan { done: seq![], path: None, head: None, branch: None }
}

/// The completed worktrees, with the record in progress added when it has
/// both a path and a HEAD.
pub open spec fn worktree_scan_flush(st: WorktreeScan) -> Seq<WorktreeView> {
    if st.path is Some && st.head is Some {
        st.done.push(WorktreeView { path: st.path->0, branch: st.branch, head: st.head->0 })
    } else {
        st.done
    }
}

/// Reading one line: `worktree P`, `HEAD H` and `branch R` set a field,
/// `detached` clears the branch, a blank line ends the record (kept when it
/// has a path and a HEAD), any other line changes nothing.
pub open spec fn worktree_line(st: WorktreeScan, line: Seq<char>) -> WorktreeScan {
    if strip_prefix(line, "worktree "@) is Some {
        WorktreeScan { path: strip_prefix(line, "worktree "@), ..st }
    } else if strip_prefix(line, "HEAD "@) is Some {
        WorktreeScan { head: strip_prefix(line, "HEAD "@), ..st }
    } else if strip_prefix(line, "branch "@) is Some {
        WorktreeScan { branch: Some(branch_name(strip_prefix(line, "branch "@)->0)), ..st }
    } else if line == "detached"@ {
        WorktreeScan { branch: None, ..st }
    } else if line.len() == 0 {
        WorktreeScan { done: worktree_scan_flush(st), path: None, head: None, branch: None }
    } else {
        st
    }
}

/// The state after reading the lines `ls` in order.
pub open spec fn worktree_scan(ls: Seq<Seq<char>>) -> WorktreeScan
    decreases ls.len(),
{
    if ls.len() == 0 {
        worktree_scan_start()
    } else {
        worktree_line(worktree_scan(ls.drop_last()), ls.last())
    }
}

/// The worktrees described by `git worktree list --porcelain` output `s`:
/// one per record that has a `worktree` and a `HEAD` line, the last record
/// needing no blank line after it.
pub open spec fn parsed_worktrees(s: Seq<char>) -> Seq<WorktreeView> {
    worktree_scan_flush(worktree_scan(lines(s)))
}

/// Parse `git worktree list --porcelain` output into structured worktrees.
pub fn parse_worktrees(output: &str) -> (worktrees: Vec<Worktree>)
    ensures
        worktrees_view(worktrees@) == parsed_worktrees(output@),
{
    let text = chars_of(output);
    let lines_v = split_lines(&text);
    let p_worktree = chars_of("worktree ");
    let p_head = chars_of("HEAD ");
    let p_branch = chars_of("branch ");
    let w_detached = chars_of("detached");

    let mut worktrees: Vec<Worktree> = Vec::new();
    let mut path: Option<String> = None;
    let mut head: Option<String> = None;
    let mut branch: Option<String> = None;

    let ghost ls = lines(output@);
    assert(worktrees_view(worktrees@) == worktree_scan(ls.take(0)).done);
    let mut i: usize = 0;
    while i < lines_v.len()
        invariant
            i <= lines_v@.len(),
            seqs_of(lines_v@) == ls,
            ls == lines(output@),
            p_worktree@ == "worktree "@,
            p_head@ == "HEAD "@,
            p_branch@ == "branch "@,
            w_detached@ == "detached"@,
            worktree_scan(ls.take(i as int)).done == worktrees_view(worktrees@),
            worktree_scan(ls.take(i as int)).path == opt_view(path),
            worktree_scan(ls.take(i as int)).head == opt_view(head),
            worktree_scan(ls.take(i as int)).branch == opt_view(branch),
        decreases lines_v@.len() - i,
    {
        let line = &lines_v[i];
        assert(ls[i as int] == line@);
        assert(ls.take(i + 1).drop_last() == ls.take(i as int));
        assert(ls.take(i + 1).last() == line@);
        if starts_with(line, &p_worktree) {
            path = Some(string_from_chars(line, p_worktree.len(), line.len()));
        } else if starts_with(line, &p_head) {
            head = Some(string_from_chars(line, p_head.len(), line.len()));
        } else if starts_with(line, &p_branch) {
            let rest = string_from_chars(line, p_branch.len(), line.len());
            branch = Some(extract_branch_name(rest.as_str()).to_owned());
        } else if chars_equal(line, &w_detached) {
            branch = None;
        } else if line.len() == 0 {
            let p = path.take();
            let h = head.take();
            if p.is_some() && h.is_some() {
                let b = branch.take();
                let wt = Worktree { path: p.unwrap(), branch: b, head: h.unwrap() };
                worktrees.push(wt);
                assert(worktrees_view(worktrees@) == worktrees_view(old_worktrees(
                    worktrees@,
                )).push(wt@));
            }
            branch = None;
        }
        i = i + 1;
    }
    assert(ls.take(lines_v@.len() as int) == ls);
    if path.is_some() && head.is_some() {
        let wt = Worktree { path: path.unwrap(), branch, head: head.unwrap() };
        worktrees.push(wt);
        assert(worktrees_view(worktrees@) == worktrees_view(old_worktrees(worktrees@)).push(
            wt@,
        ));
    }
    worktrees
}

/// All but the last worktree of a sequence.
spec fn old_worktrees(v: Seq<Worktree>) -> Seq<Worktree> {
    v.drop_last()
}

// ---------------------------------------------------------------------------
// `git status --porcelain=v1`
// ---------------------------------------------------------------------------

/// The entry read from one status line: the status code is the first two
/// bytes, the path everything after the third, and the index (staged) and
/// worktree (modified) letters count unless they are a space or `?`.
pub open spec fn status_entry(line: Seq<char>) -> GitFileStatusView {
    let b = encode_utf8(line);
    GitFileStatusView {
        path: decode_utf8(b.subrange(3, b.len() as int)),
        status_code: decode_utf8(b.subrange(0, 2)),
        staged: b[0] != 0x20u8 && b[0] != 0x3fu8,
        modified: b[1] != 0x20u8 && b[1] != 0x3fu8,
    }
}

/// Whether a status line is long enough (3 bytes) to be an entry.
pub open spec fn is_status_line(line: Seq<char>) -> bool {
    encode_utf8(line).len() >= 3
}

/// The entries of the status lines `ls`, in order.
pub open spec fn status_entries(ls: Seq<Seq<char>>) -> Seq<GitFileStatusView>
    decreases ls.len(),
{
    if ls.len() == 0 {
        seq![]
    } else if is_status_line(ls.last()) {
        status_entries(ls.drop_last()).push(status_entry(ls.last()))
    } else {
        status_entries(ls.drop_last())
    }
}

/// The file statuses described by `git status --porcelain=v1` output `s`.
pub open spec fn parsed_statuses(s: Seq<char>) -> Seq<GitFileStatusView> {
    status_entries(lines(s))
}

/// Whether every entry line of `s` can be cut after its second and third
/// bytes (the status code and the separating space are whole characters).
pub open spec fn status_lines_cuttable(s: Seq<char>) -> bool {
    forall|i: int|
        0 <= i < lines(s).len() && #[trigger] is_status_line(lines(s)[i]) ==> {
            &&& is_char_boundary(encode_utf8(lines(s)[i]), 2)
            &&& is_char_boundary(encode_utf8(lines(s)[i]), 3)
        }
}

/// Parse `git status --porcelain=v1` output into structured file statuses.
pub fn parse_git_status(output: &str) -> (statuses: Vec<GitFileStatus>)
    requires
        status_lines_cuttable(output@),
    ensures
        statuses_view(statuses@) == parsed_statuses(output@),
{
    broadcast use group_utf8_lib;

    let text = chars_of(output);
    let lines_v = split_lines(&text);
    let ghost ls = lines(output@);
    let mut statuses: Vec<GitFileStatus> = Vec::new();
    assert(statuses_view(statuses@) == status_entries(ls.take(0)));
    let mut i: usize = 0;
    while i < lines_v.len()
        invariant
            i <= lines_v@.len(),
            seqs_of(lines_v@) == ls,
            ls == lines(output@),
            status_lines_cuttable(output@),
            statuses_view(statuses@) == status_entries(ls.take(i as int)),
        decreases lines_v@.len() - i,
    {
        let line_v = &lines_v[i];
        assert(ls[i as int] == line_v@);
        assert(ls.take(i + 1).drop_last() == ls.take(i as int));
        let line_s = string_from_chars(line_v, 0, line_v.len());
        assert(line_v@.subrange(0, line_v@.len() as int) == line_v@);
        let line: &str = line_s.as_str();
        assert(ls.take(i + 1).last() == line_v@);
        let bytes = line.as_bytes();
        if bytes.len() >= 3 {
            assert(line@ == ls[i as int]);
            assert(is_status_line(lines(output@)[i as int]));
            let x = bytes[0];
            let y = bytes[1];
            let (code, _) = line.split_at(2);
            let (_, path) = line.split_at(3);
            let entry = GitFileStatus {
                path: path.to_owned(),
                status_code: code.to_owned(),
                staged: x != 0x20u8 && x != 0x3fu8,
                modified: y != 0x20u8 && y != 0x3fu8,
            };
            proof {
                encode_utf8_decode_utf8(code@);
                encode_utf8_decode_utf8(path@);
                assert(code@ == decode_utf8(code.spec_bytes()));
                assert(path@ == decode_utf8(path.spec_bytes()));
                let se = status_entry(line_v@);
                assert(entry@.path == se.path);
                assert(entry@.status_code == se.status_code);
                assert(entry@.staged == se.staged);
                assert(entry@.modified == se.modified);
                assert(ls.take(i + 1).last() == line_v@);
                assert(is_status_line(ls.take(i + 1).last()));
            }
            statuses.push(entry);
            assert(statuses_view(statuses@) == statuses_view(statuses@.drop_last()).push(
                entry@,
            ));
        }
        i = i + 1;
    }
    assert(ls.take(lines_v@.len() as int) == ls);
    statuses
}

// ---------------------------------------------------------------------------
// Laws
// ---------------------------------------------------------------------------

proof fn lemma_status_entries_concat(a: Seq<Seq<char>>, b: Seq<Seq<char>>)
    ensures
        status_entries(a + b) == status_entries(a) + status_entries(b),
    decreases b.len(),
{
    if b.len() == 0 {
        assert(a + b =~= a);
        assert(status_entries(a) + status_entries(b) =~= status_entries(a));
    } else {
        lemma_status_entries_concat(a, b.drop_last());
        assert((a + b).drop_last() =~= a + b.drop_last());
        assert((a + b).last() == b.last());
        if is_status_line(b.last()) {
            assert(status_entries(a) + status_entries(b.drop_last()).push(status_entry(b.last()))
                =~= (status_entries(a) + status_entries(b.drop_last())).push(
                status_entry(b.last()),
            ));
        }
    }
}

/// `git status` output is read line by line: the entries of two outputs
/// joined at a line boundary are the entries of the first, then those of
/// the second.
pub proof fn law_status_concat(a: Seq<char>, b: Seq<char>)
    requires
        a.len() == 0 || a.last() == '\n',
    ensures
        parsed_statuses(a + b) == parsed_statuses(a) + parsed_statuses(b),
{
    law_lines_concat(a, b);
    lemma_status_entries_concat(lines(a), lines(b));
}

/// The last worktree record needs no blank line after it: adding one to
/// output that ends at a line boundary gives the same worktrees.
pub proof fn law_final_blank_line(s: Seq<char>)
    requires
        s.len() == 0 || s.last() == '\n',
    ensures
        parsed_worktrees(s + seq!['\n']) == parsed_worktrees(s),
{
    law_lines_concat(s, seq!['\n']);
    let one = seq!['\n'];
    assert(one.drop_last() =~= Seq::<char>::empty());
    assert(lines_scan(Seq::<char>::empty()) == (Seq::<Seq<char>>::empty(), Seq::<char>::empty()));
    assert(lines(one) =~= seq![Seq::<char>::empty()]);
    let ls = lines(s);
    assert(lines(s + one) =~= ls.push(Seq::<char>::empty()));
    assert(ls.push(Seq::<char>::empty()).drop_last() =~= ls);
    let st = worktree_scan(ls);
    let e = Seq::<char>::empty();
    assert(!("worktree "@.is_prefix_of(e))) by {
        reveal_strlit("worktree ");
    }
    assert(!("HEAD "@.is_prefix_of(e))) by {
        reveal_strlit("HEAD ");
    }
    assert(!("branch "@.is_prefix_of(e))) by {
        reveal_strlit("branch ");
    }
    assert(e != "detached"@) by {
        reveal_strlit("detached");
    }
}

/// Reading the lines `ls` in order from the state `st`.
spec fn worktree_scan_from(st: WorktreeScan, ls: Seq<Seq<char>>) -> WorktreeScan
    decreases ls.len(),
{
    if ls.len() == 0 {
        st
    } else {
        worktree_line(worktree_scan_from(st, ls.drop_last()), ls.last())
    }
}

/// `st` with the worktrees `d` completed before its own.
spec fn after_done(st: WorktreeScan, d: Seq<WorktreeView>) -> WorktreeScan {
    WorktreeScan { done: d + st.done, ..st }
}

proof fn lemma_scan_split(la: Seq<Seq<char>>, lb: Seq<Seq<char>>)
    ensures
        worktree_scan(la + lb) == worktree_scan_from(worktree_scan(la), lb),
    decreases lb.len(),
{
    if lb.len() == 0 {
        assert(la + lb =~= la);
    } else {
        assert((la + lb).drop_last() =~= la + lb.drop_last());
        assert((la + lb).last() == lb.last());
        lemma_scan_split(la, lb.drop_last());
    }
}

proof fn lemma_scan_from_reset(d: Seq<WorktreeView>, lb: Seq<Seq<char>>)
    ensures
        worktree_scan_from(
            WorktreeScan { done: d, path: None, head: None, branch: None },
            lb,
        ) == after_done(worktree_scan(lb), d),
    decreases lb.len(),
{
    if lb.len() == 0 {
        assert(d + Seq::<WorktreeView>::empty() =~= d);
    } else {
        lemma_scan_from_reset(d, lb.drop_last());
        let x = worktree_scan(lb.drop_last());
        let line = lb.last();
        let st = after_done(x, d);
        if line.len() == 0 && strip_prefix(line, "worktree "@) is None && strip_prefix(line, "HEAD "@)
            is None && strip_prefix(line, "branch "@) is None && line != "detached"@ {
            if x.path is Some && x.head is Some {
                let w = WorktreeView { path: x.path->0, branch: x.branch, head: x.head->0 };
                assert((d + x.done).push(w) =~= d + x.done.push(w));
            }
        }
    }
}

/// Worktree records are independent: the worktrees of two outputs joined
/// after a blank line (which ends the first output's last record) are the
/// worktrees of the first, then those of the second.
pub proof fn law_worktrees_concat(a: Seq<char>, b: Seq<char>)
    requires
        a.len() == 0 || (a.last() == '\n' && lines(a).len() > 0 && lines(a).last().len() == 0),
    ensures
        parsed_worktrees(a + b) == parsed_worktrees(a) + parsed_worktrees(b),
{
    law_lines_concat(a, b);
    let la = lines(a);
    let lb = lines(b);
    lemma_scan_split(la, lb);
    let sa = worktree_scan(la);
    if la.len() > 0 {
        let e = la.last();
        assert(e.len() == 0);
        assert(strip_prefix(e, "worktree "@) is None) by {
            reveal_strlit("worktree ");
        }
        assert(strip_prefix(e, "HEAD "@) is None) by {
            reveal_strlit("HEAD ");
        }
        assert(strip_prefix(e, "branch "@) is None) by {
            reveal_strlit("branch ");
        }
        assert(e != "detached"@) by {
            reveal_strlit("detached");
        }
    } else {
        assert(sa == worktree_scan_start());
    }
    assert(sa.path is None && sa.head is None && sa.branch is None);
    assert(sa == WorktreeScan { done: sa.done, path: None, head: None, branch: None });
    lemma_scan_from_reset(sa.done, lb);
    let sb = worktree_scan(lb);
    if sb.path is Some && sb.head is Some {
        let w = WorktreeView { path: sb.path->0, branch: sb.branch, head: sb.head->0 };
        assert((sa.done + sb.done).push(w) =~= sa.done + sb.done.push(w));
    }
}

proof fn lemma_single_line(line: Seq<char>)
    requires
        !line.contains('\n'),
    ensures
        lines_scan(line) == (Seq::<Seq<char>>::empty(), line),
    decreases line.len(),
{
    if line.len() > 0 {
        assert(!line.drop_last().contains('\n')) by {
            if line.drop_last().contains('\n') {
                let k = choose|k: int| 0 <= k < line.drop_last().len() && line.drop_last()[k] == '\n';
                assert(line[k] == '\n');
            }
        }
        lemma_single_line(line.drop_last());
        assert(line.last() != '\n') by {
            assert(line[line.len() - 1] == line.last());
        }
        assert(line.drop_last().push(line.last()) =~= line);
    }
}

/// One line of `git status --porcelain=v1` output: a line of at least three
/// bytes is one entry, staged unless its first byte (the index letter) is a
/// space or `?`, modified unless its second byte (the worktree letter) is a
/// space or `?`; its status code is its first two bytes and its path what
/// follows the third (when those are character boundaries). A shorter line
/// is no entry.
pub proof fn law_status_line(line: Seq<char>)
    requires
        line.len() > 0,
        !line.contains('\n'),
    ensures
        encode_utf8(line).len() < 3 ==> parsed_statuses(line).len() == 0,
        encode_utf8(line).len() >= 3 ==> {
            let b = encode_utf8(line);
            let e = parsed_statuses(line)[0];
            &&& parsed_statuses(line).len() == 1
            &&& e.staged == (b[0] != 0x20u8 && b[0] != 0x3fu8)
            &&& e.modified == (b[1] != 0x20u8 && b[1] != 0x3fu8)
            &&& (is_char_boundary(b, 2) && is_char_boundary(b, 3)) ==> (encode_utf8(e.status_code)
                == b.subrange(0, 2) && encode_utf8(e.path) == b.subrange(3, b.len() as int))
        },
{
    broadcast use group_utf8_lib;

    lemma_single_line(line);
    assert(lines(line) == seq![line]);
    let ls = lines(line);
    assert(ls.drop_last() =~= Seq::<Seq<char>>::empty());
    assert(ls.last() == line);
    assert(status_entries(ls.drop_last()) =~= Seq::<GitFileStatusView>::empty());
    assert(parsed_statuses(line) == status_entries(ls));
    let b = encode_utf8(line);
    if b.len() >= 3 {
        assert(parsed_statuses(line) =~= seq![status_entry(line)]);
    } else {
        assert(parsed_statuses(line) =~= Seq::<GitFileStatusView>::empty());
    }
    if b.len() >= 3 && is_char_boundary(b, 2) && is_char_boundary(b, 3) {
        assert(valid_utf8(b));
        assert(valid_utf8(b.subrange(0, 3)));
        assert(valid_utf8(b.subrange(3, b.len() as int)));
        let h = b.subrange(0, 3);
        assert(is_char_boundary(h, 2)) by {
            assert(h.subrange(0, 2) =~= b.subrange(0, 2));
            is_char_boundary_iff_not_is_continuation_byte(b, 2);
            is_char_boundary_iff_not_is_continuation_byte(h, 2);
            assert(h[2] == b[2]);
        }
        assert(valid_utf8(h.subrange(0, 2)));
        assert(h.subrange(0, 2) =~= b.subrange(0, 2));
    }
}

} // verus!
