//! The modpack's manifest, and the log lines an update shows of it.
use vstd::prelude::*;

use crate::progress::{EventView, ProgressEvent};
use crate::text::push_str;

verus! {

broadcast use vstd::string::group_string_axioms;

/// The description that a modpack ships beside its files.
#[derive(Debug, Clone, PartialEq)]
pub struct Manifest {
    pub name: String,
    pub description: String,
    pub spt_version: String,
    pub author: Option<String>,
    pub website: Option<String>,
    pub changelog: Vec<String>,
}

/// The log lines that present a manifest after an update: a blank line, the
/// indented description, and, where the changelog has entries, a heading and
/// one bulleted line per entry.
pub open spec fn manifest_lines(description: Seq<char>, changelog: Seq<Seq<char>>) -> Seq<
    Seq<char>,
> {
    seq![seq![], "  "@ + description] + if changelog.len() > 0 {
        seq!["  Changelog:"@] + changelog.map_values(|e: Seq<char>| "    \u{2022} "@ + e)
    } else {
        seq![]
    }
}

/// The log events that present `m` (see `manifest_lines`).
pub fn manifest_events(m: &Manifest) -> (r: Vec<ProgressEvent>)
    ensures
        r@.map_values(|e: ProgressEvent| e@) == manifest_lines(
            m.description@,
            m.changelog.deep_view(),
        ).map_values(|l: Seq<char>| EventView::Log(l)),
{
    let ghost want = manifest_lines(m.description@, m.changelog.deep_view()).map_values(
        |l: Seq<char>| EventView::Log(l),
    );
    let mut r: Vec<ProgressEvent> = Vec::new();
    r.push(ProgressEvent::Log(String::new()));
    let mut d = "  ".to_string();
    push_str(&mut d, m.description.as_str());
    r.push(ProgressEvent::Log(d));
    if m.changelog.len() > 0 {
        r.push(ProgressEvent::Log("  Changelog:".to_string()));
        let mut i: usize = 0;
        while i < m.changelog.len()
            invariant
                i <= m.changelog.len(),
                m.changelog.len() > 0,
                want == manifest_lines(m.description@, m.changelog.deep_view()).map_values(
                    |l: Seq<char>| EventView::Log(l),
                ),
                r@.len() == 3 + i,
                forall|k: int| 0 <= k < 3 + i ==> #[trigger] r@[k]@ == want[k],
            decreases m.changelog.len() - i,
        {
            let mut line = "    \u{2022} ".to_string();
            push_str(&mut line, m.changelog[i].as_str());
            r.push(ProgressEvent::Log(line));
            assert(m.changelog.deep_view()[i as int] == m.changelog@[i as int]@);
            i += 1;
        }
        assert(r@.map_values(|e: ProgressEvent| e@) =~= want);
    } else {
        assert(r@.map_values(|e: ProgressEvent| e@) =~= want);
    }
    r
}

} // verus!
