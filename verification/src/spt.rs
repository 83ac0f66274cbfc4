//! The SPT version that a runtime configuration names.
use vstd::prelude::*;

use crate::text::{chars_of, find_char, first_index, string_of};

verus! {

broadcast use vstd::string::group_string_axioms;

/// The version in a runtime target key such as `SPT.Server/4.0.13-RELEASE+hash`:
/// the part after the first `/` (up to the next one; `unknown` where there is
/// no `/`), cut before its first `-`.
pub open spec fn version_of_target(k: Seq<char>) -> Seq<char> {
    let i = first_index(k, '/');
    let v = if i < k.len() {
        let rest = k.skip(i + 1);
        rest.take(first_index(rest, '/'))
    } else {
        "unknown"@
    };
    v.take(first_index(v, '-'))
}

/// The version that the runtime target key `key` names (see `version_of_target`).
pub fn version_from_target(key: &str) -> (r: String)
    ensures
        r@ == version_of_target(key@),
{
    let k = chars_of(key);
    let n = k.len();
    assert(k@.subrange(0, n as int) =~= k@);
    let i = find_char(&k, 0, n, '/');
    let (v, lo, hi) = if i < n {
        let j = find_char(&k, i + 1, n, '/');
        assert(k@.skip(i + 1) =~= k@.subrange(i + 1, n as int));
        assert(k@.skip(i + 1).take(j - i - 1) =~= k@.subrange(i + 1, j as int));
        (k, i + 1, j)
    } else {
        let u = chars_of("unknown");
        let m = u.len();
        assert(u@.subrange(0, m as int) =~= u@);
        (u, 0, m)
    };
    let d = find_char(&v, lo, hi, '-');
    assert(v@.subrange(lo as int, hi as int).take(d - lo) =~= v@.subrange(lo as int, d as int));
    string_of(&v, lo, d)
}

/// The SPT version of a runtime configuration whose `targets` object has the
/// keys `keys`, in order: the version of the first key, none where there is
/// no key.
pub fn version_from_targets(keys: &Vec<String>) -> (r: Option<String>)
    ensures
        keys.len() == 0 ==> r is None,
        keys.len() > 0 ==> (r matches Some(v) && v@ == version_of_target(keys@[0]@)),
{
    if keys.len() == 0 {
        None
    } else {
        Some(version_from_target(keys[0].as_str()))
    }
}

/// The keys of the `targets` object of the runtime configuration `content`,
/// in the order in which `serde_json` hands them out: none where `content`
/// is not JSON or has no `targets` object.
pub uninterp spec fn runtime_targets(content: Seq<char>) -> Option<Seq<Seq<char>>>;

/// The characters of each string of `v`, in order.
pub open spec fn strings_view(v: Seq<String>) -> Seq<Seq<char>> {
    v.map_values(|x: String| x@)
}

/// Parses `content` with `serde_json::from_str` into a `serde_json::Value`
/// and lists the keys of its `targets` object (`Value`'s indexing,
/// `as_object` and `Map::keys`). The contract claims only that the result is
/// a function of `content` alone, named `runtime_targets`.
#[verifier::external_body]
fn target_keys(content: &str) -> (r: Option<Vec<String>>)
    ensures
        match r {
            None => runtime_targets(content@) is None,
            Some(k) => runtime_targets(content@) == Some(strings_view(k@)),
        },
{
    let json: serde_json::Value = serde_json::from_str(content).ok()?;
    json["targets"].as_object().map(|t| t.keys().cloned().collect())
}

/// The SPT version that the runtime configuration `content` names: the
/// version of the first key of its `targets` object; none where the text is
/// not JSON, has no `targets` object, or that object is empty.
pub open spec fn runtime_version(content: Seq<char>) -> Option<Seq<char>> {
    match runtime_targets(content) {
        Some(k) => if k.len() > 0 {
            Some(version_of_target(k[0]))
        } else {
            None
        },
        None => None,
    }
}

/// The SPT version that the server's runtime configuration `content` names
/// (see `runtime_version`).
pub fn version_of_runtime(content: &str) -> (r: Option<String>)
    ensures
        match runtime_version(content@) {
            None => r is None,
            Some(v) => r matches Some(rv) && rv@ == v,
        },
{
    match target_keys(content) {
        None => None,
        Some(keys) => {
            assert(keys.len() > 0 ==> strings_view(keys@)[0] == keys@[0]@);
            version_from_targets(&keys)
        },
    }
}

} // verus!
