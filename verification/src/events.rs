//! The event classifier: turns raw filesystem-change notifications into
//! "a path just appeared" decisions.
//!
//! Only creation and rename-destination events can introduce a newly visible
//! entry that needs hiding; content changes, deletions and metadata-only
//! changes cannot produce a new candidate and are skipped silently.

use vstd::prelude::*;

verus! {

/// Kind tag of a raw change notification.
///
/// The old-name half of a split rename gets a variant of its own, so the
/// classifier's exclusion rule is an exhaustive match rather than a negated
/// pattern.
#[derive(Clone, Copy, PartialEq, Eq, Structural, Debug)]
pub enum RawEventKind {
    /// An entry was created.
    Create,
    /// The old-name half of a rename delivered as two separate events.
    RenameFrom,
    /// Any other name change: the destination half of a split rename, a
    /// self-contained rename, or one whose side the notifier does not tell
    /// apart.
    RenameTo,
    /// Content, metadata, removal, or any other change.
    OtherChange,
}

/// A raw change notification: a kind tag and the paths it carries. A rename
/// delivered in one piece carries the old path first and the destination
/// second; other events carry a single path.
pub struct RawEvent {
    pub kind: RawEventKind,
    pub paths: Vec<String>,
}

/// What the classifier decides about one event.
#[derive(PartialEq, Debug)]
pub enum EventDecision {
    /// The event announces new presence of content at this path; it goes on
    /// to the matcher.
    Relevant(String),
    /// The event cannot introduce a new candidate; it is skipped silently.
    Skip,
    /// The event should carry a path but does not; it is reported and
    /// counted against the error breaker.
    MissingPath,
}

/// The classifier's decision: a create's only path is relevant; a rename's
/// destination (the second of two paths, or its single path) is relevant;
/// the old-name half of a split rename and every non-arrival change are
/// skipped; an event that lacks its expected path is malformed.
pub open spec fn spec_classify(kind: RawEventKind, paths: Seq<String>) -> EventDecision {
    match kind {
        RawEventKind::Create => if paths.len() == 0 {
            EventDecision::MissingPath
        } else {
            EventDecision::Relevant(paths[0])
        },
        RawEventKind::RenameTo => if paths.len() == 0 {
            EventDecision::MissingPath
        } else if paths.len() == 1 {
            EventDecision::Relevant(paths[0])
        } else {
            EventDecision::Relevant(paths[1])
        },
        RawEventKind::RenameFrom => EventDecision::Skip,
        RawEventKind::OtherChange => EventDecision::Skip,
    }
}

/// Decide whether one raw event announces a newly visible entry, and which
/// path is the relevant one.
pub fn classify_event(event: &RawEvent) -> (r: EventDecision)
    ensures
        r == spec_classify(event.kind, event.paths@),
{
    match event.kind {
        RawEventKind::Create => {
            if event.paths.len() == 0 {
                EventDecision::MissingPath
            } else {
                EventDecision::Relevant(event.paths[0].clone())
            }
        },
        RawEventKind::RenameTo => {
            if event.paths.len() == 0 {
                EventDecision::MissingPath
            } else if event.paths.len() == 1 {
                EventDecision::Relevant(event.paths[0].clone())
            } else {
                EventDecision::Relevant(event.paths[1].clone())
            }
        },
        RawEventKind::RenameFrom => EventDecision::Skip,
        RawEventKind::OtherChange => EventDecision::Skip,
    }
}

} // verus!
