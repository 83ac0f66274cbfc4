//! Whether a newer release of the updater itself is out, and where to get it.
use vstd::prelude::*;

use crate::progress::{EventView, ProgressEvent};
use crate::text::{
    chars_of, find_char, first_index, lemma_first_index_bounds, parse_u32_at, parse_u32_spec,
    parse_u64_at, parse_u64_spec, str_eq, string_of, strip_leading,
};

verus! {

broadcast use vstd::string::group_string_axioms;

// ───────────────────────────── version numbers ─────────────────────────────

/// The numbers of the dot-separated parts of `s` that read as `u32`, in
/// order; parts that do not are skipped.
pub open spec fn numeric_parts(s: Seq<char>) -> Seq<u32>
    decreases s.len(),
{
    let i = first_index(s, '.');
    let head = match parse_u32_spec(s.take(i)) {
        Some(x) => seq![x],
        None => seq![],
    };
    if i < s.len() {
        proof {
            lemma_first_index_bounds(s, '.');
        }
        head + numeric_parts(s.skip(i + 1))
    } else {
        head
    }
}

/// The numbers of a version such as `v1.4.2`: leading `v`s dropped, then
/// the numeric dot-separated parts.
pub open spec fn version_numbers(s: Seq<char>) -> Seq<u32> {
    numeric_parts(strip_leading(s, 'v'))
}

/// `a` comes before `b` in lexicographic order, as `Vec<u32>` compares.
pub open spec fn lex_less(a: Seq<u32>, b: Seq<u32>) -> bool
    decreases a.len(),
{
    if b.len() == 0 {
        false
    } else if a.len() == 0 {
        true
    } else if a[0] < b[0] {
        true
    } else if a[0] > b[0] {
        false
    } else {
        lex_less(a.drop_first(), b.drop_first())
    }
}

/// The version `latest` is newer than `current`.
pub open spec fn newer(latest: Seq<char>, current: Seq<char>) -> bool {
    lex_less(version_numbers(current), version_numbers(latest))
}

fn skip_leading(v: &Vec<char>, c: char) -> (r: usize)
    ensures
        r <= v.len(),
        v@.skip(r as int) == strip_leading(v@, c),
{
    let mut i: usize = 0;
    assert(v@.skip(0) =~= v@);
    while i < v.len() && v[i] == c
        invariant
            i <= v.len(),
            strip_leading(v@.skip(i as int), c) == strip_leading(v@, c),
        decreases v.len() - i,
    {
        assert(v@.skip(i as int).drop_first() =~= v@.skip(i + 1));
        i += 1;
    }
    i
}

/// The numbers of the version `s` (see `version_numbers`).
pub fn parse_version(s: &str) -> (r: Vec<u32>)
    ensures
        r@ == version_numbers(s@),
{
    let v = chars_of(s);
    let n = v.len();
    let start = skip_leading(&v, 'v');
    let mut out: Vec<u32> = Vec::new();
    let mut pos = start;
    assert(v@.subrange(start as int, n as int) =~= v@.skip(start as int));
    loop
        invariant_except_break
            start <= pos <= n,
            n == v.len(),
            out@ + numeric_parts(v@.subrange(pos as int, n as int)) == version_numbers(s@),
        ensures
            out@ == version_numbers(s@),
        decreases n - pos,
    {
        let ghost rest = v@.subrange(pos as int, n as int);
        let ghost before = out@;
        let j = find_char(&v, pos, n, '.');
        assert(rest.take(j - pos) =~= v@.subrange(pos as int, j as int));
        match parse_u32_at(&v, pos, j) {
            Some(x) => {
                out.push(x);
            },
            None => {},
        }
        let ghost head = match parse_u32_spec(rest.take(j - pos)) {
            Some(x) => seq![x],
            None => seq![],
        };
        assert(out@ =~= before + head);
        if j >= n {
            break ;
        }
        assert(rest.skip(j - pos + 1) =~= v@.subrange(j + 1, n as int));
        assert(before + numeric_parts(rest) =~= before + head + numeric_parts(
            v@.subrange(j + 1, n as int),
        ));
        pos = j + 1;
    }
    out
}

fn lex_less_exec(a: &Vec<u32>, b: &Vec<u32>) -> (r: bool)
    ensures
        r == lex_less(a@, b@),
{
    let mut i: usize = 0;
    assert(a@.skip(0) =~= a@ && b@.skip(0) =~= b@);
    while i < a.len() && i < b.len() && a[i] == b[i]
        invariant
            i <= a.len(),
            i <= b.len(),
            lex_less(a@.skip(i as int), b@.skip(i as int)) == lex_less(a@, b@),
        decreases a.len() - i,
    {
        assert(a@.skip(i as int).drop_first() =~= a@.skip(i + 1));
        assert(b@.skip(i as int).drop_first() =~= b@.skip(i + 1));
        i += 1;
    }
    if i >= b.len() {
        false
    } else if i >= a.len() {
        true
    } else {
        assert(a@.skip(i as int)[0] == a@[i as int]);
        assert(b@.skip(i as int)[0] == b@[i as int]);
        a[i] < b[i]
    }
}

/// Whether the release `latest` is newer than the running version `current`.
pub fn is_newer(latest: &str, current: &str) -> (r: bool)
    ensures
        r == newer(latest@, current@),
{
    let l = parse_version(latest);
    let c = parse_version(current);
    lex_less_exec(&c, &l)
}

// ───────────────────────────── release description ─────────────────────────────

/// One file attached to a release, as the release description gives it.
#[derive(Debug, Clone, PartialEq)]
pub struct ReleaseAsset {
    /// The file name, where the description gives it as a string.
    pub name: Option<String>,
    /// The download address, where the description gives it as a string.
    pub download_url: Option<String>,
}

/// What the updater reads of a release description.
#[derive(Debug, Clone, PartialEq)]
pub struct Release {
    /// The release's tag, where the description gives it as a string.
    pub tag_name: Option<String>,
    /// The attached files, where the description gives a list of them.
    pub assets: Option<Vec<ReleaseAsset>>,
}

pub struct AssetView {
    pub name: Option<Seq<char>>,
    pub download_url: Option<Seq<char>>,
}

pub struct ReleaseView {
    pub tag_name: Option<Seq<char>>,
    pub assets: Option<Seq<AssetView>>,
}

pub open spec fn opt_chars(s: Option<String>) -> Option<Seq<char>> {
    match s {
        Some(s) => Some(s@),
        None => None,
    }
}

impl View for ReleaseAsset {
    type V = AssetView;

    open spec fn view(&self) -> AssetView {
        AssetView { name: opt_chars(self.name), download_url: opt_chars(self.download_url) }
    }
}

impl View for Release {
    type V = ReleaseView;

    open spec fn view(&self) -> ReleaseView {
        ReleaseView {
            tag_name: opt_chars(self.tag_name),
            assets: match self.assets {
                Some(a) => Some(a@.map_values(|x: ReleaseAsset| x@)),
                None => None,
            },
        }
    }
}

/// The name of the updater's executable among a release's files.
pub open spec fn executable_name() -> Seq<char> {
    "spt-modpack-updater.exe"@
}

/// The index of the first asset, from the `k`-th on, named as the
/// executable; `a.len()` where there is none.
pub open spec fn executable_index(a: Seq<AssetView>, k: int) -> int
    decreases a.len() - k,
{
    if k < 0 || k >= a.len() {
        a.len() as int
    } else if a[k].name == Some(executable_name()) {
        k
    } else {
        executable_index(a, k + 1)
    }
}

/// The version (the tag without leading `v`s) and the download address of
/// the executable that a release offers: none where the tag is missing or
/// empty, or where the first asset named as the executable has no address.
pub open spec fn release_download(r: ReleaseView) -> Option<(Seq<char>, Seq<char>)> {
    let tag = strip_leading(
        match r.tag_name {
            Some(t) => t,
            None => seq![],
        },
        'v',
    );
    if tag.len() == 0 {
        None
    } else {
        match r.assets {
            None => None,
            Some(a) => {
                let k = executable_index(a, 0);
                if k >= a.len() {
                    None
                } else {
                    match a[k].download_url {
                        Some(u) => Some((tag, u)),
                        None => None,
                    }
                }
            },
        }
    }
}

fn find_executable(a: &Vec<ReleaseAsset>) -> (k: usize)
    ensures
        k == executable_index(a@.map_values(|x: ReleaseAsset| x@), 0),
{
    let ghost av = a@.map_values(|x: ReleaseAsset| x@);
    let mut k: usize = 0;
    while k < a.len()
        invariant
            k <= a.len(),
            av == a@.map_values(|x: ReleaseAsset| x@),
            executable_index(av, k as int) == executable_index(av, 0),
        decreases a.len() - k,
    {
        let hit = match &a[k].name {
            Some(n) => str_eq(n.as_str(), "spt-modpack-updater.exe"),
            None => false,
        };
        assert(av[k as int] == a@[k as int]@);
        if hit {
            return k;
        }
        k += 1;
    }
    k
}

/// What `serde_json` reads of the release description `body`: none where
/// `body` is not JSON; else the string `tag_name`, and the list `assets` with
/// each entry's string `name` and `browser_download_url`, each none where the
/// field is missing or of another kind.
pub uninterp spec fn release_in_json(body: Seq<char>) -> Option<ReleaseView>;

/// Parses `body` with `serde_json::from_str` into a `serde_json::Value` and
/// takes the fields that `Release` holds out of it with `Value`'s indexing,
/// `as_str` and `as_array`. The contract claims only that the result is a
/// function of `body` alone, named `release_in_json`.
#[verifier::external_body]
fn read_release(body: &str) -> (r: Option<Release>)
    ensures
        match r {
            None => release_in_json(body@) is None,
            Some(rel) => release_in_json(body@) == Some(rel@),
        },
{
    let json: serde_json::Value = serde_json::from_str(body).ok()?;
    let text = |v: &serde_json::Value| v.as_str().map(|s| s.to_string());
    Some(Release {
        tag_name: text(&json["tag_name"]),
        assets: json["assets"].as_array().map(|a| {
            a.iter().map(|x| ReleaseAsset {
                name: text(&x["name"]),
                download_url: text(&x["browser_download_url"]),
            }).collect()
        }),
    })
}

/// The version and the executable's address that the release description
/// `body`, as the hosting service sends it, offers: none where `body` is not
/// JSON; else what `latest_download` picks out of it.
pub fn latest_release_download(body: &str) -> (r: Option<Option<(String, String)>>)
    ensures
        match release_in_json(body@) {
            None => r is None,
            Some(rel) => r matches Some(x) && match release_download(rel) {
                None => x is None,
                Some((v, u)) => x matches Some((rv, ru)) && rv@ == v && ru@ == u,
            },
        },
{
    match read_release(body) {
        None => None,
        Some(rel) => Some(latest_download(&rel)),
    }
}

/// The size that a `content-length` header gives, as `str::parse::<u64>`
/// reads it; 0 where there is no header or it does not read as a number.
pub open spec fn download_total_of(header: Option<Seq<char>>) -> u64 {
    match header {
        Some(h) => match parse_u64_spec(h) {
            Some(n) => n,
            None => 0,
        },
        None => 0,
    }
}

/// The size of a download from its `content-length` header (see
/// `download_total_of`).
pub fn download_total(header: Option<&str>) -> (r: u64)
    ensures
        r == download_total_of(match header {
            Some(h) => Some(h@),
            None => None,
        }),
{
    match header {
        None => 0,
        Some(h) => {
            let v = chars_of(h);
            assert(v@.subrange(0, v@.len() as int) =~= v@);
            match parse_u64_at(&v, 0, v.len()) {
                Some(n) => n,
                None => 0,
            }
        },
    }
}

/// Picks the version and the executable's download address out of a
/// release description (see `release_download`).
pub fn latest_download(release: &Release) -> (r: Option<(String, String)>)
    ensures
        match release_download(release@) {
            None => r is None,
            Some((v, u)) => r matches Some((rv, ru)) && rv@ == v && ru@ == u,
        },
{
    let tag = match &release.tag_name {
        Some(t) => chars_of(t.as_str()),
        None => Vec::new(),
    };
    let start = skip_leading(&tag, 'v');
    if start >= tag.len() {
        return None;
    }
    match &release.assets {
        None => None,
        Some(a) => {
            let k = find_executable(a);
            if k >= a.len() {
                return None;
            }
            let ghost av = a@.map_values(|x: ReleaseAsset| x@);
            assert(av[k as int] == a@[k as int]@);
            match &a[k].download_url {
                Some(u) => {
                    assert(tag@.subrange(start as int, tag@.len() as int) =~= tag@.skip(
                        start as int,
                    ));
                    Some((string_of(&tag, start, tag.len()), u.clone()))
                },
                None => None,
            }
        },
    }
}

/// The event that announces a newer release of the updater: one when the
/// latest release (its version and download address) is newer than
/// `current_version`, none otherwise.
pub fn check_self_update(latest: Option<(String, String)>, current_version: &str) -> (r: Option<
    ProgressEvent,
>)
    ensures
        match latest {
            Some((v, u)) => if newer(v@, current_version@) {
                r matches Some(e) && e@ == (EventView::SelfUpdateAvailable { version: v@, url: u@ })
            } else {
                r is None
            },
            None => r is None,
        },
{
    match latest {
        Some((version, url)) => {
            if is_newer(version.as_str(), current_version) {
                Some(ProgressEvent::SelfUpdateAvailable { version, url })
            } else {
                None
            }
        },
        None => None,
    }
}

/// The progress report while the new release downloads: `downloaded` bytes
/// of `total`, where the server announced a length.
pub fn download_progress(downloaded: u64, total: u64) -> (r: Option<ProgressEvent>)
    ensures
        total == 0 ==> r is None,
        total > 0 ==> (r matches Some(e) && e@ == (EventView::Phase {
            name: "Downloading"@,
            current: downloaded,
            total,
        })),
{
    if total > 0 {
        Some(ProgressEvent::Phase { name: "Downloading".to_string(), current: downloaded, total })
    } else {
        None
    }
}

} // verus!
