//! What the updater reads out of git's output, and the order in which its
//! operations run git.
use vstd::prelude::*;

use crate::progress::{EventView, ProgressEvent};
use crate::text::{
    chars_of, contains_at, contains_seq, find_char, first_index, lemma_first_index_bounds,
    parse_u64_at, parse_u64_spec, push_str, starts_with, starts_with_at, str_eq, string_of, trim,
    trim_range,
};

verus! {

broadcast use vstd::string::group_string_axioms;

// ───────────────────────────── progress lines ─────────────────────────────

/// The phases of a git transfer whose progress git reports.
pub open spec fn phase_names() -> Seq<Seq<char>> {
    seq![
        "Counting objects"@,
        "Compressing objects"@,
        "Receiving objects"@,
        "Resolving deltas"@,
        "Updating files"@,
        "Unpacking objects"@,
        "Enumerating objects"@,
        "Writing objects"@,
    ]
}

/// The first phase, from the `k`-th on, whose name begins `s`; the number of
/// phases where none does.
pub open spec fn phase_index_from(s: Seq<char>, k: int) -> int
    decreases phase_names().len() - k,
{
    if k < 0 || k >= phase_names().len() {
        phase_names().len() as int
    } else if starts_with(s, phase_names()[k]) {
        k
    } else {
        phase_index_from(s, k + 1)
    }
}

/// A line with git's `remote:` prefix removed, and then trimmed.
pub open spec fn strip_remote(s: Seq<char>) -> Seq<char> {
    if starts_with(s, "remote:"@) {
        trim(s.skip("remote:"@.len() as int))
    } else {
        s
    }
}

/// The phase, units done and units in all that a progress line of git
/// reports, such as `Receiving objects:  45% (450/1000), 1.2 MiB | 3 MiB/s`:
/// the line begins with a phase name (after an optional `remote:`), and after
/// its first `:` the first parenthesis holds `done/total` before any comma.
pub open spec fn progress_of(s: Seq<char>) -> Option<(Seq<char>, u64, u64)> {
    let t = strip_remote(s);
    let k = phase_index_from(t, 0);
    let colon = first_index(t, ':');
    if k >= phase_names().len() || colon >= t.len() {
        None
    } else {
        let after = trim(t.skip(colon + 1));
        let lp = first_index(after, '(');
        if lp >= after.len() {
            None
        } else {
            let rest = after.skip(lp + 1);
            let rp = first_index(rest, ')');
            if rp >= rest.len() {
                None
            } else {
                let inner = rest.take(rp);
                let frac = inner.take(first_index(inner, ','));
                let slash = first_index(frac, '/');
                if slash >= frac.len() {
                    None
                } else {
                    match (
                        parse_u64_spec(trim(frac.take(slash))),
                        parse_u64_spec(trim(frac.skip(slash + 1))),
                    ) {
                        (Some(done), Some(all)) => Some((phase_names()[k], done, all)),
                        _ => None,
                    }
                }
            }
        }
    }
}

fn phase_name(k: usize) -> (r: &'static str)
    requires
        k < 8,
    ensures
        r@ == phase_names()[k as int],
{
    if k == 0 { "Counting objects" }
    else if k == 1 { "Compressing objects" }
    else if k == 2 { "Receiving objects" }
    else if k == 3 { "Resolving deltas" }
    else if k == 4 { "Updating files" }
    else if k == 5 { "Unpacking objects" }
    else if k == 6 { "Enumerating objects" }
    else { "Writing objects" }
}

fn find_phase(v: &Vec<char>, lo: usize, hi: usize, k: usize) -> (r: usize)
    requires
        lo <= hi <= v.len(),
        k <= 8,
    ensures
        r == phase_index_from(v@.subrange(lo as int, hi as int), k as int),
        r <= 8,
    decreases 8 - k,
{
    if k >= 8 {
        8
    } else if starts_with_at(v, lo, hi, &chars_of(phase_name(k))) {
        k
    } else {
        find_phase(v, lo, hi, k + 1)
    }
}

/// `progress_of` on `v[lo..hi]`.
fn progress_at(v: &Vec<char>, lo: usize, hi: usize) -> (r: Option<(String, u64, u64)>)
    requires
        lo <= hi <= v.len(),
    ensures
        match progress_of(v@.subrange(lo as int, hi as int)) {
            None => r is None,
            Some((name, done, all)) => r matches Some((rn, rd, ra)) && rn@ == name && rd == done
                && ra == all,
        },
{
    let ghost s = v@.subrange(lo as int, hi as int);
    let remote = chars_of("remote:");
    let (a, b) = if starts_with_at(v, lo, hi, &remote) {
        assert(s.skip(remote@.len() as int) =~= v@.subrange(lo + remote@.len(), hi as int));
        trim_range(v, lo + remote.len(), hi)
    } else {
        (lo, hi)
    };
    let ghost t = v@.subrange(a as int, b as int);
    assert(t == strip_remote(s));
    let k = find_phase(v, a, b, 0);
    let colon = find_char(v, a, b, ':');
    if k >= 8 || colon >= b {
        return None;
    }
    assert(t.skip(colon - a + 1) =~= v@.subrange(colon + 1, b as int));
    let (a2, b2) = trim_range(v, colon + 1, b);
    let ghost after = v@.subrange(a2 as int, b2 as int);
    let lp = find_char(v, a2, b2, '(');
    if lp >= b2 {
        return None;
    }
    assert(after.skip(lp - a2 + 1) =~= v@.subrange(lp + 1, b2 as int));
    let rp = find_char(v, lp + 1, b2, ')');
    if rp >= b2 {
        return None;
    }
    let ghost inner = v@.subrange(lp + 1, rp as int);
    assert(v@.subrange(lp + 1, b2 as int).take(rp - lp - 1) =~= inner);
    let comma = find_char(v, lp + 1, rp, ',');
    let ghost frac = v@.subrange(lp + 1, comma as int);
    assert(inner.take(comma - lp - 1) =~= frac);
    let slash = find_char(v, lp + 1, comma, '/');
    if slash >= comma {
        return None;
    }
    assert(frac.take(slash - lp - 1) =~= v@.subrange(lp + 1, slash as int));
    assert(frac.skip(slash - lp) =~= v@.subrange(slash + 1, comma as int));
    let (c1, c2) = trim_range(v, lp + 1, slash);
    let (t1, t2) = trim_range(v, slash + 1, comma);
    let done = parse_u64_at(v, c1, c2);
    let all = parse_u64_at(v, t1, t2);
    match (done, all) {
        (Some(d), Some(n)) => Some((phase_name(k).to_string(), d, n)),
        _ => None,
    }
}

/// Reads a progress line of git (see `progress_of`).
pub fn parse_progress(s: &str) -> (r: Option<(String, u64, u64)>)
    ensures
        match progress_of(s@) {
            None => r is None,
            Some((name, done, all)) => r matches Some((rn, rd, ra)) && rn@ == name && rd == done
                && ra == all,
        },
{
    let v = chars_of(s);
    assert(v@.subrange(0, v@.len() as int) =~= s@);
    progress_at(&v, 0, v.len())
}

// ───────────────────────────── git's stderr ─────────────────────────────

/// The event that one piece of git's stderr (between carriage returns) gives:
/// none for a blank piece or a `[new branch]` notice, a phase report for a
/// progress line, otherwise the piece as a log line, marked with `! ` where
/// it reports a failure.
pub open spec fn piece_event(p: Seq<char>) -> Option<EventView> {
    let t = trim(p);
    if t.len() == 0 || contains_seq(t, "[new branch]"@) {
        None
    } else {
        match progress_of(t) {
            Some((name, done, all)) => Some(EventView::Phase { name, current: done, total: all }),
            None => if starts_with(t, "fatal"@) || starts_with(t, "error"@) || contains_seq(
                t,
                "error:"@,
            ) {
                Some(EventView::Log("! "@ + t))
            } else {
                Some(EventView::Log(t))
            },
        }
    }
}

pub open spec fn opt_events(e: Option<EventView>) -> Seq<EventView> {
    match e {
        Some(e) => seq![e],
        None => seq![],
    }
}

/// The events that one line of git's stderr gives: git redraws its progress
/// with carriage returns, so each piece between them is read on its own.
pub open spec fn stream_events(line: Seq<char>) -> Seq<EventView>
    decreases line.len(),
{
    let i = first_index(line, '\r');
    let head = opt_events(piece_event(line.take(i)));
    if i < line.len() {
        proof {
            lemma_first_index_bounds(line, '\r');
        }
        head + stream_events(line.skip(i + 1))
    } else {
        head
    }
}

fn piece_event_at(v: &Vec<char>, lo: usize, hi: usize) -> (r: Option<ProgressEvent>)
    requires
        lo <= hi <= v.len(),
    ensures
        match piece_event(v@.subrange(lo as int, hi as int)) {
            None => r is None,
            Some(e) => r matches Some(x) && x@ == e,
        },
{
    let (a, b) = trim_range(v, lo, hi);
    let ghost t = v@.subrange(a as int, b as int);
    if a == b {
        assert(t.len() == 0);
        return None;
    }
    if contains_at(v, a, b, &chars_of("[new branch]")) {
        return None;
    }
    match progress_at(v, a, b) {
        Some((name, done, all)) => Some(ProgressEvent::Phase { name, current: done, total: all }),
        None => {
            if starts_with_at(v, a, b, &chars_of("fatal")) || starts_with_at(
                v,
                a,
                b,
                &chars_of("error"),
            ) || contains_at(v, a, b, &chars_of("error:")) {
                let mut m = "! ".to_string();
                let rest = string_of(v, a, b);
                push_str(&mut m, rest.as_str());
                Some(ProgressEvent::Log(m))
            } else {
                Some(ProgressEvent::Log(string_of(v, a, b)))
            }
        },
    }
}

/// The events for one line that git wrote to stderr during a streamed command.
pub fn stream_line_events(line: &str) -> (r: Vec<ProgressEvent>)
    ensures
        r@.map_values(|e: ProgressEvent| e@) == stream_events(line@),
{
    let v = chars_of(line);
    let n = v.len();
    let mut out: Vec<ProgressEvent> = Vec::new();
    let mut pos: usize = 0;
    assert(v@.skip(0) =~= v@);
    loop
        invariant_except_break
            pos <= n,
            n == v.len(),
            out@.map_values(|e: ProgressEvent| e@) + stream_events(v@.skip(pos as int))
                == stream_events(line@),
        ensures
            out@.map_values(|e: ProgressEvent| e@) == stream_events(line@),
        decreases n - pos,
    {
        let ghost rest = v@.skip(pos as int);
        let ghost before = out@.map_values(|e: ProgressEvent| e@);
        let j = find_char(&v, pos, n, '\r');
        assert(v@.subrange(pos as int, n as int) =~= rest);
        assert(rest.take(j - pos) =~= v@.subrange(pos as int, j as int));
        let ev = piece_event_at(&v, pos, j);
        match ev {
            Some(e) => {
                out.push(e);
                assert(out@.map_values(|e: ProgressEvent| e@) =~= before + opt_events(
                    piece_event(rest.take(j - pos)),
                ));
            },
            None => {
                assert(before + opt_events(piece_event(rest.take(j - pos))) =~= before);
            },
        }
        if j >= n {
            assert(before + stream_events(rest) == before + opt_events(
                piece_event(rest.take(j - pos)),
            ));
            break ;
        }
        assert(rest.skip(j - pos + 1) =~= v@.skip(j + 1));
        assert(before + stream_events(rest) =~= before + opt_events(
            piece_event(rest.take(j - pos)),
        ) + stream_events(v@.skip(j + 1)));
        pos = j + 1;
    }
    out
}

// ───────────────────────────── branch list ─────────────────────────────

/// The branch that one line of `git ls-remote --heads` names: its second
/// tab-separated field with `refs/heads/` removed.
pub open spec fn line_branch(l: Seq<char>) -> Option<Seq<char>> {
    let i = first_index(l, '\t');
    if i >= l.len() {
        None
    } else {
        let rest = l.skip(i + 1);
        let field = rest.take(first_index(rest, '\t'));
        if starts_with(field, "refs/heads/"@) {
            Some(field.skip("refs/heads/"@.len() as int))
        } else {
            None
        }
    }
}

/// A line without the `\r` of a `\r\n` ending.
pub open spec fn drop_cr(l: Seq<char>) -> Seq<char> {
    if l.len() > 0 && l.last() == '\r' {
        l.drop_last()
    } else {
        l
    }
}

pub open spec fn opt_branch(b: Option<Seq<char>>) -> Seq<Seq<char>> {
    match b {
        Some(b) => seq![b],
        None => seq![],
    }
}

/// The branches, in order, that the output of `git ls-remote --heads` names,
/// its lines split as `str::lines` splits them.
pub open spec fn remote_branches(s: Seq<char>) -> Seq<Seq<char>>
    decreases s.len(),
{
    if s.len() == 0 {
        seq![]
    } else {
        let i = first_index(s, '\n');
        if i < s.len() {
            proof {
                lemma_first_index_bounds(s, '\n');
            }
            opt_branch(line_branch(drop_cr(s.take(i)))) + remote_branches(s.skip(i + 1))
        } else {
            opt_branch(line_branch(s))
        }
    }
}

fn line_branch_at(v: &Vec<char>, lo: usize, hi: usize) -> (r: Option<String>)
    requires
        lo <= hi <= v.len(),
    ensures
        match line_branch(v@.subrange(lo as int, hi as int)) {
            None => r is None,
            Some(b) => r matches Some(x) && x@ == b,
        },
{
    let ghost l = v@.subrange(lo as int, hi as int);
    let t1 = find_char(v, lo, hi, '\t');
    if t1 >= hi {
        return None;
    }
    assert(l.skip(t1 - lo + 1) =~= v@.subrange(t1 + 1, hi as int));
    let t2 = find_char(v, t1 + 1, hi, '\t');
    assert(v@.subrange(t1 + 1, hi as int).take(t2 - t1 - 1) =~= v@.subrange(t1 + 1, t2 as int));
    let prefix = chars_of("refs/heads/");
    if starts_with_at(v, t1 + 1, t2, &prefix) {
        assert(v@.subrange(t1 + 1, t2 as int).skip(prefix@.len() as int) =~= v@.subrange(
            t1 + 1 + prefix@.len(),
            t2 as int,
        ));
        Some(string_of(v, t1 + 1 + prefix.len(), t2))
    } else {
        None
    }
}

/// The branches that the output of `git ls-remote --heads` names, in order.
pub fn parse_branch_list(out: &str) -> (r: Vec<String>)
    ensures
        r.deep_view() == remote_branches(out@),
{
    let v = chars_of(out);
    let n = v.len();
    let mut res: Vec<String> = Vec::new();
    let mut pos: usize = 0;
    assert(v@.skip(0) =~= v@);
    loop
        invariant_except_break
            pos <= n,
            n == v.len(),
            res.deep_view() + remote_branches(v@.skip(pos as int)) == remote_branches(out@),
        ensures
            res.deep_view() == remote_branches(out@),
        decreases n - pos,
    {
        let ghost rest = v@.skip(pos as int);
        let ghost before = res.deep_view();
        if pos == n {
            assert(rest.len() == 0);
            assert(before + remote_branches(rest) =~= before);
            break ;
        }
        let j = find_char(&v, pos, n, '\n');
        assert(v@.subrange(pos as int, n as int) =~= rest);
        let end = if j < n && j > pos && v[j - 1] == '\r' {
            j - 1
        } else {
            j
        };
        proof {
            if j < n {
                assert(drop_cr(rest.take(j - pos)) =~= v@.subrange(pos as int, end as int));
            } else {
                assert(rest =~= v@.subrange(pos as int, end as int));
            }
        }
        let b = line_branch_at(&v, pos, end);
        match b {
            Some(x) => {
                res.push(x);
                assert(res.deep_view() =~= before + opt_branch(
                    line_branch(v@.subrange(pos as int, end as int)),
                ));
            },
            None => {
                assert(before + opt_branch(line_branch(v@.subrange(pos as int, end as int)))
                    =~= before);
            },
        }
        if j >= n {
            break ;
        }
        assert(rest.skip(j - pos + 1) =~= v@.skip(j + 1));
        assert(before + remote_branches(rest) =~= before + opt_branch(
            line_branch(v@.subrange(pos as int, end as int)),
        ) + remote_branches(v@.skip(j + 1)));
        pos = j + 1;
    }
    res
}

// ───────────────────────────── phases and protected files ─────────────────────────────

/// The share of the whole operation, in percent from and to, that git's
/// phase `p` stands for on the progress bar.
pub open spec fn phase_share(p: Seq<char>) -> (u64, u64) {
    if p == "Enumerating objects"@ {
        (0, 4)
    } else if p == "Counting objects"@ {
        (4, 8)
    } else if p == "Compressing objects"@ {
        (8, 13)
    } else if p == "Receiving objects"@ || p == "Unpacking objects"@ {
        (13, 68)
    } else if p == "Resolving deltas"@ {
        (68, 86)
    } else if p == "Updating files"@ || p == "Writing objects"@ {
        (86, 100)
    } else {
        (0, 100)
    }
}

/// The part of the progress bar, in percent from and to, that the phase
/// `phase` fills.
pub fn phase_percent(phase: &str) -> (r: (u64, u64))
    ensures
        r == phase_share(phase@),
{
    if str_eq(phase, "Enumerating objects") {
        (0, 4)
    } else if str_eq(phase, "Counting objects") {
        (4, 8)
    } else if str_eq(phase, "Compressing objects") {
        (8, 13)
    } else if str_eq(phase, "Receiving objects") || str_eq(phase, "Unpacking objects") {
        (13, 68)
    } else if str_eq(phase, "Resolving deltas") {
        (68, 86)
    } else if str_eq(phase, "Updating files") || str_eq(phase, "Writing objects") {
        (86, 100)
    } else {
        (0, 100)
    }
}

/// The files under the game folder that an update must not overwrite.
pub open spec fn protected_paths() -> Seq<Seq<char>> {
    seq![
        "BepInEx/config/BepInEx.cfg"@,
        "BepInEx/config/com.bepis.bepinex.configurationmanager.cfg"@,
    ]
}

/// The files under the game folder that an update must not overwrite,
/// relative to it.
pub fn protected_files() -> (r: Vec<&'static str>)
    ensures
        r@.map_values(|p: &'static str| p@) == protected_paths(),
{
    let mut r: Vec<&'static str> = Vec::new();
    r.push("BepInEx/config/BepInEx.cfg");
    r.push("BepInEx/config/com.bepis.bepinex.configurationmanager.cfg");
    assert(r@.map_values(|p: &'static str| p@) =~= protected_paths());
    r
}

} // verus!
