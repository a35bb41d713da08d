//! Untracked-file summaries: parse status-tool output and emit one
//! `New file: <path>` line per untracked entry, in status order.

use vstd::prelude::*;
use vstd::string::StrSliceExecFns;
use vstd::string::StringExecFns;

verus! {

/// The index of the first newline at or after position `p`, or the length of
/// the text when none follows.
pub open spec fn next_nl(s: Seq<char>, p: int) -> int
    decreases s.len() - p,
{
    if p < 0 || p >= s.len() {
        s.len() as int
    } else if s[p] == '\n' {
        p
    } else {
        next_nl(s, p + 1)
    }
}

pub proof fn lemma_next_nl_bounds(s: Seq<char>, p: int)
    requires
        0 <= p <= s.len(),
    ensures
        p <= next_nl(s, p) <= s.len(),
        next_nl(s, p) < s.len() ==> s[next_nl(s, p)] == '\n',
        forall|j: int| p <= j < next_nl(s, p) ==> s[j] != '\n',
    decreases s.len() - p,
{
    if p < s.len() && s[p] != '\n' {
        lemma_next_nl_bounds(s, p + 1);
    }
}

/// Where the first newline of a segment is already known, `next_nl` finds it.
pub proof fn lemma_next_nl_at(s: Seq<char>, p: int, k: int)
    requires
        0 <= p <= k <= s.len(),
        forall|j: int| p <= j < k ==> s[j] != '\n',
        k < s.len() ==> s[k] == '\n',
    ensures
        next_nl(s, p) == k,
    decreases k - p,
{
    if p < k {
        lemma_next_nl_at(s, p + 1, k);
    }
}

/// The line starting at position `p`: the text up to the next newline, with a
/// carriage return stripped when the newline follows one. A final line with
/// no newline after it is taken as it stands.
pub open spec fn line_at(s: Seq<char>, p: int) -> Seq<char> {
    let k = next_nl(s, p);
    if k < s.len() && k > p && s[k - 1] == '\r' {
        s.subrange(p, k - 1)
    } else {
        s.subrange(p, k)
    }
}

/// The lines of the text from position `p` on, split at newlines; a final
/// newline ends the last line rather than opening an empty one.
pub open spec fn lines_from(s: Seq<char>, p: int) -> Seq<Seq<char>>
    decreases s.len() - p,
    via lines_from_decreases
{
    if p < 0 || p >= s.len() {
        Seq::empty()
    } else {
        let k = next_nl(s, p);
        if k >= s.len() {
            seq![line_at(s, p)]
        } else {
            seq![line_at(s, p)] + lines_from(s, k + 1)
        }
    }
}

#[via_fn]
proof fn lines_from_decreases(s: Seq<char>, p: int) {
    if 0 <= p < s.len() {
        lemma_next_nl_bounds(s, p);
    }
}

/// The views of a vector of strings.
pub open spec fn views_of(ss: Seq<String>) -> Seq<Seq<char>> {
    ss.map_values(|s: String| s@)
}

/// Splits a text into its lines, as `lines_from` describes.
pub fn split_lines(s: &str) -> (lines: Vec<String>)
    ensures
        views_of(lines@) == lines_from(s@, 0),
{
    let n = s.unicode_len();
    let mut lines: Vec<String> = Vec::new();
    let mut start: usize = 0;
    let mut i: usize = 0;
    while i < n
        invariant
            0 <= start <= i <= n,
            n == s@.len(),
            forall|j: int| start <= j < i ==> s@[j] != '\n',
            start == 0 || s@[start - 1] == '\n',
            lines_from(s@, 0) =~= views_of(lines@) + lines_from(s@, start as int),
        decreases n - i,
    {
        if s.get_char(i) == '\n' {
            let mut end = i;
            if end > start && s.get_char(end - 1) == '\r' {
                end = end - 1;
            }
            let line = String::from_str(s.substring_char(start, end));
            proof {
                lemma_next_nl_at(s@, start as int, i as int);
                assert(line@ =~= line_at(s@, start as int));
                assert(lines_from(s@, start as int) =~= seq![line_at(s@, start as int)]
                    + lines_from(s@, i + 1));
                assert(views_of(lines@.push(line)) =~= views_of(lines@).push(line@));
                assert(views_of(lines@).push(line@) + lines_from(s@, i + 1) =~= views_of(lines@)
                    + lines_from(s@, start as int));
            }
            lines.push(line);
            start = i + 1;
        }
        i = i + 1;
    }
    if start < n {
        let line = String::from_str(s.substring_char(start, n));
        proof {
            lemma_next_nl_at(s@, start as int, n as int);
            assert(line@ =~= line_at(s@, start as int));
            assert(lines_from(s@, start as int) =~= seq![line_at(s@, start as int)]);
            assert(views_of(lines@.push(line)) =~= views_of(lines@).push(line@));
            assert(views_of(lines@).push(line@) =~= views_of(lines@) + lines_from(
                s@,
                start as int,
            ));
        }
        lines.push(line);
    } else {
        proof {
            assert(lines_from(s@, start as int) =~= Seq::<Seq<char>>::empty());
            assert(views_of(lines@) + lines_from(s@, start as int) =~= views_of(lines@));
        }
    }
    lines
}

/// A status line reporting an untracked file: it opens with two question
/// marks and carries a path after the status field.
pub open spec fn is_untracked(l: Seq<char>) -> bool {
    l.len() >= 3 && l[0] == '?' && l[1] == '?'
}

/// The summary entry an untracked status line yields.
pub open spec fn entry_of(l: Seq<char>) -> Seq<char> {
    "New file: "@ + l.subrange(3, l.len() as int)
}

/// The summary entries of a list of status lines: one per untracked line,
/// in order; tracked and modified lines yield none.
pub open spec fn untracked_entries(lines: Seq<Seq<char>>) -> Seq<Seq<char>>
    decreases lines.len(),
{
    if lines.len() == 0 {
        Seq::empty()
    } else {
        let rest = untracked_entries(lines.drop_first());
        if is_untracked(lines[0]) {
            seq![entry_of(lines[0])] + rest
        } else {
            rest
        }
    }
}

/// Maps status lines to their untracked-file entries.
fn untracked_lines(lines: &Vec<String>) -> (entries: Vec<String>)
    ensures
        views_of(entries@) == untracked_entries(views_of(lines@)),
{
    let mut entries: Vec<String> = Vec::new();
    proof {
        assert(views_of(lines@).skip(0) =~= views_of(lines@));
        assert(views_of(entries@) + untracked_entries(views_of(lines@)) =~= untracked_entries(
            views_of(lines@),
        ));
    }
    let mut i: usize = 0;
    while i < lines.len()
        invariant
            0 <= i <= lines@.len(),
            untracked_entries(views_of(lines@)) =~= views_of(entries@) + untracked_entries(
                views_of(lines@).skip(i as int),
            ),
        decreases lines@.len() - i,
    {
        let line = &lines[i];
        let ghost pre = views_of(lines@).skip(i as int);
        proof {
            assert(pre[0] == line@);
            assert(pre.drop_first() =~= views_of(lines@).skip(i + 1));
        }
        let ln = line.as_str().unicode_len();
        if ln >= 3 && line.as_str().get_char(0) == '?' && line.as_str().get_char(1) == '?' {
            let mut e = String::from_str("New file: ");
            e.append(line.as_str().substring_char(3, ln));
            proof {
                assert(e@ =~= entry_of(line@));
                assert(views_of(entries@.push(e)) =~= views_of(entries@).push(e@));
                assert(views_of(entries@).push(e@) + untracked_entries(pre.drop_first())
                    =~= views_of(entries@) + untracked_entries(pre));
            }
            entries.push(e);
        } else {
            proof {
                assert(!is_untracked(pre[0]));
                assert(untracked_entries(pre) =~= untracked_entries(pre.drop_first()));
            }
        }
        i = i + 1;
    }
    proof {
        assert(views_of(lines@).skip(lines@.len() as int) =~= Seq::<Seq<char>>::empty());
        assert(views_of(entries@) + untracked_entries(Seq::<Seq<char>>::empty()) =~= views_of(
            entries@,
        ));
    }
    entries
}

/// The entries joined with single newlines, no newline at either end.
pub open spec fn join_nl(entries: Seq<Seq<char>>) -> Seq<char>
    decreases entries.len(),
{
    if entries.len() == 0 {
        Seq::empty()
    } else if entries.len() == 1 {
        entries[0]
    } else {
        entries[0] + "\n"@ + join_nl(entries.drop_first())
    }
}

proof fn lemma_join_nl_push(entries: Seq<Seq<char>>, x: Seq<char>)
    requires
        entries.len() > 0,
    ensures
        join_nl(entries.push(x)) =~= join_nl(entries) + "\n"@ + x,
    decreases entries.len(),
{
    let p = entries.push(x);
    if entries.len() == 1 {
        assert(p.drop_first() =~= seq![x]);
        assert(join_nl(seq![x]) == x);
        assert(join_nl(p) =~= entries[0] + "\n"@ + x);
    } else {
        assert(p.drop_first() =~= entries.drop_first().push(x));
        lemma_join_nl_push(entries.drop_first(), x);
        assert(join_nl(p) =~= entries[0] + "\n"@ + (join_nl(entries.drop_first()) + "\n"@ + x));
    }
}

/// Joins the entries with newlines.
fn join_lines(entries: &Vec<String>) -> (r: String)
    ensures
        r@ == join_nl(views_of(entries@)),
{
    let mut r = String::new();
    let mut i: usize = 0;
    while i < entries.len()
        invariant
            0 <= i <= entries@.len(),
            r@ =~= join_nl(views_of(entries@).take(i as int)),
        decreases entries@.len() - i,
    {
        let ghost pre = views_of(entries@).take(i as int);
        if i > 0 {
            r.append("\n");
        }
        r.append(entries[i].as_str());
        proof {
            let post = views_of(entries@).take(i + 1);
            assert(post =~= pre.push(entries@[i as int]@));
            if i == 0 {
                assert(join_nl(post) =~= entries@[0]@);
            } else {
                lemma_join_nl_push(pre, entries@[i as int]@);
            }
        }
        i = i + 1;
    }
    proof {
        assert(views_of(entries@).take(entries@.len() as int) =~= views_of(entries@));
    }
    r
}

/// The untracked-file summary of a status text: its untracked lines mapped to
/// `New file: <path>` entries, in status order, joined with newlines.
pub open spec fn untracked_summary_spec(status: Seq<char>) -> Seq<char> {
    join_nl(untracked_entries(lines_from(status, 0)))
}

/// Builds the untracked-file summary from the captured status output.
pub fn untracked_summary(status: &str) -> (r: String)
    ensures
        r@ == untracked_summary_spec(status@),
{
    let lines = split_lines(status);
    let entries = untracked_lines(&lines);
    join_lines(&entries)
}

/// A status text with no untracked line yields an empty summary.
pub proof fn lemma_no_untracked_no_summary(status: Seq<char>)
    requires
        forall|i: int|
            0 <= i < lines_from(status, 0).len() ==> !is_untracked(lines_from(status, 0)[i]),
    ensures
        untracked_summary_spec(status).len() == 0,
{
    lemma_untracked_entries_empty(lines_from(status, 0));
}

proof fn lemma_untracked_entries_empty(lines: Seq<Seq<char>>)
    requires
        forall|i: int| 0 <= i < lines.len() ==> !is_untracked(lines[i]),
    ensures
        untracked_entries(lines).len() == 0,
    decreases lines.len(),
{
    if lines.len() > 0 {
        assert(forall|i: int|
            0 <= i < lines.drop_first().len() ==> !is_untracked(#[trigger] lines.drop_first()[i]));
        lemma_untracked_entries_empty(lines.drop_first());
    }
}

} // verus!
