//! The update status of the modpack as the last check found it.
use vstd::prelude::*;
use vstd::utf8::*;
use vstd::string::StringSliceAdditionalSpecFns;

use crate::text::push_str;

verus! {

broadcast use vstd::string::group_string_axioms;

/// What a check against the remote found.
#[derive(Debug, Clone, PartialEq)]
pub enum UpdateStatus {
    /// The game folder holds no git repository yet.
    NotInitialized,
    /// The local `HEAD` is the remote branch's commit.
    UpToDate { hash: String },
    /// The local `HEAD` and the remote branch differ.
    Available { local: String, remote: String },
    /// The check failed with this message.
    Error(String),
}

/// `UpdateStatus` with its strings taken as character sequences.
pub enum StatusView {
    NotInitialized,
    UpToDate { hash: Seq<char> },
    Available { local: Seq<char>, remote: Seq<char> },
    Error(Seq<char>),
}

impl View for UpdateStatus {
    type V = StatusView;

    open spec fn view(&self) -> StatusView {
        match self {
            UpdateStatus::NotInitialized => StatusView::NotInitialized,
            UpdateStatus::UpToDate { hash } => StatusView::UpToDate { hash: hash@ },
            UpdateStatus::Available { local, remote } => StatusView::Available {
                local: local@,
                remote: remote@,
            },
            UpdateStatus::Error(e) => StatusView::Error(e@),
        }
    }
}

/// `s` can be cut after its first eight bytes, as `&s[..s.len().min(8)]`
/// does, without splitting a character.
pub open spec fn cuts_cleanly(s: Seq<char>) -> bool {
    encode_utf8(s).len() <= 8 || is_char_boundary(encode_utf8(s), 8)
}

/// The characters of the first eight bytes of `s` (all of `s` when it is
/// shorter): how a commit id is shortened for display.
pub open spec fn short_id(s: Seq<char>) -> Seq<char> {
    if encode_utf8(s).len() <= 8 {
        s
    } else {
        decode_utf8(encode_utf8(s).take(8))
    }
}

impl StatusView {
    /// Every commit id in the status can be shortened for display.
    pub open spec fn displayable(self) -> bool {
        match self {
            StatusView::UpToDate { hash } => cuts_cleanly(hash),
            StatusView::Available { local, remote } => cuts_cleanly(local) && cuts_cleanly(remote),
            _ => true,
        }
    }

    pub open spec fn has_update(self) -> bool {
        self is Available || self is NotInitialized
    }

    pub open spec fn color(self) -> Seq<char> {
        match self {
            StatusView::UpToDate { .. } => "\x1b[32m"@,
            StatusView::Available { .. } => "\x1b[33m"@,
            StatusView::NotInitialized => "\x1b[38;5;117m"@,
            StatusView::Error(_) => "\x1b[31m"@,
        }
    }

    pub open spec fn text(self) -> Seq<char> {
        match self {
            StatusView::NotInitialized => "Not installed \u{2014} UPDATE to install"@,
            StatusView::UpToDate { hash } => "Up to date ("@ + short_id(hash) + ")"@,
            StatusView::Available { local, remote } => "Update available  "@ + short_id(local)
                + " \u{2192} "@ + short_id(remote),
            StatusView::Error(e) => "Check failed: "@ + e,
        }
    }
}

/// The first eight bytes of `s` (`&s[..s.len().min(8)]`).
pub fn short(s: &str) -> (r: &str)
    requires
        cuts_cleanly(s@),
    ensures
        r@ == short_id(s@),
{
    proof {
        broadcast use vstd::utf8::encode_utf8_decode_utf8, vstd::utf8::encode_utf8_valid_utf8;
    }
    if s.is_char_boundary(8) {
        let (head, _) = s.split_at(8);
        assert(head.spec_bytes() =~= encode_utf8(s@).take(8));
        assert(decode_utf8(encode_utf8(head@)) == head@);
        proof {
            if encode_utf8(s@).len() <= 8 {
                assert(encode_utf8(s@).take(8) =~= encode_utf8(s@));
            }
        }
        head
    } else {
        s
    }
}

fn cuts(s: &str) -> (b: bool)
    ensures
        b == cuts_cleanly(s@),
{
    s.as_bytes().len() <= 8 || s.is_char_boundary(8)
}

impl UpdateStatus {
    /// The ANSI colour escape in which the status is shown.
    pub fn color(&self) -> (c: &'static str)
        ensures
            c@ == self@.color(),
    {
        match self {
            UpdateStatus::UpToDate { .. } => "\x1b[32m",
            UpdateStatus::Available { .. } => "\x1b[33m",
            UpdateStatus::NotInitialized => "\x1b[38;5;117m",
            UpdateStatus::Error(_) => "\x1b[31m",
        }
    }

    /// One line that describes the status; commit ids are cut to eight bytes.
    pub fn text(&self) -> (t: String)
        requires
            self@.displayable(),
        ensures
            t@ == self@.text(),
    {
        match self {
            UpdateStatus::NotInitialized => "Not installed \u{2014} UPDATE to install".to_string(),
            UpdateStatus::UpToDate { hash } => {
                let mut t = "Up to date (".to_string();
                push_str(&mut t, short(hash.as_str()));
                push_str(&mut t, ")");
                t
            },
            UpdateStatus::Available { local, remote } => {
                let mut t = "Update available  ".to_string();
                push_str(&mut t, short(local.as_str()));
                push_str(&mut t, " \u{2192} ");
                push_str(&mut t, short(remote.as_str()));
                t
            },
            UpdateStatus::Error(e) => {
                let mut t = "Check failed: ".to_string();
                push_str(&mut t, e.as_str());
                t
            },
        }
    }

    /// Whether every commit id in the status can be shortened for display
    /// (see `cuts_cleanly`).
    pub fn is_displayable(&self) -> (b: bool)
        ensures
            b == self@.displayable(),
    {
        match self {
            UpdateStatus::UpToDate { hash } => cuts(hash.as_str()),
            UpdateStatus::Available { local, remote } => cuts(local.as_str()) && cuts(remote.as_str()),
            _ => true,
        }
    }

    /// Whether running UPDATE would change the game folder: an update is
    /// available, or nothing is installed yet.
    pub fn has_update(&self) -> (b: bool)
        ensures
            b == self@.has_update(),
    {
        match self {
            UpdateStatus::Available { .. } | UpdateStatus::NotInitialized => true,
            _ => false,
        }
    }
}

} // verus!
