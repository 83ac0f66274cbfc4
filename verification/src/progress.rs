//! Events that a background operation reports to the interface.
use vstd::prelude::*;

use crate::types::{StatusView, UpdateStatus};

verus! {

/// One report of a background operation.
#[derive(Debug, Clone, PartialEq)]
pub enum ProgressEvent {
    /// Git reported `current` of `total` units of work in the phase `name`.
    Phase { name: String, current: u64, total: u64 },
    /// A line for the operation's log.
    Log(String),
    /// The result of an update check.
    StatusResult(UpdateStatus),
    /// The branches that the remote offers.
    BranchList(Vec<String>),
    /// The operation finished.
    Done,
    /// The operation failed with this message.
    Error(String),
    /// A newer release of the updater itself can be downloaded from `url`.
    SelfUpdateAvailable { version: String, url: String },
}

/// `ProgressEvent` with its strings taken as character sequences.
pub enum EventView {
    Phase { name: Seq<char>, current: u64, total: u64 },
    Log(Seq<char>),
    StatusResult(StatusView),
    BranchList(Seq<Seq<char>>),
    Done,
    Error(Seq<char>),
    SelfUpdateAvailable { version: Seq<char>, url: Seq<char> },
}

impl View for ProgressEvent {
    type V = EventView;

    open spec fn view(&self) -> EventView {
        match self {
            ProgressEvent::Phase { name, current, total } => EventView::Phase {
                name: name@,
                current: *current,
                total: *total,
            },
            ProgressEvent::Log(s) => EventView::Log(s@),
            ProgressEvent::StatusResult(st) => EventView::StatusResult(st@),
            ProgressEvent::BranchList(bs) => EventView::BranchList(bs.deep_view()),
            ProgressEvent::Done => EventView::Done,
            ProgressEvent::Error(e) => EventView::Error(e@),
            ProgressEvent::SelfUpdateAvailable { version, url } => EventView::SelfUpdateAvailable {
                version: version@,
                url: url@,
            },
        }
    }
}

impl EventView {
    /// An event after which the operation that sent it sends nothing more.
    pub open spec fn is_terminal(self) -> bool {
        self is Done || self is Error || self is BranchList
    }
}

/// The views of a list of events.
pub open spec fn events_view(v: Seq<ProgressEvent>) -> Seq<EventView> {
    v.map_values(|e: ProgressEvent| e@)
}

} // verus!
