//! Lifecycle events and the classification of raw filesystem events.

use vstd::prelude::*;

verus! {

/// The kind of change reported for one watched path.
#[derive(Clone, Copy, PartialEq, Eq, Structural, Debug)]
pub enum ChangeKind {
    Create,
    Update,
    Delete,
}

/// The kind of a raw event as the filesystem monitor backend reports it.
#[derive(Clone, Copy, PartialEq, Eq, Structural, Debug)]
pub enum RawEventKind {
    /// A file or directory was created.
    Create,
    /// The data of a file changed.
    ModifyData,
    /// An unspecified modification (reported on some platforms).
    ModifyAny,
    /// A modification that does not touch file data (metadata, renames).
    ModifyOther,
    /// A file or directory was removed.
    Remove,
    /// Any other raw event.
    Other,
}

/// One lifecycle event published to external listeners.
#[derive(Clone, Debug, PartialEq, Eq)]
pub enum LifecycleEvent {
    ReStart,
    Start,
    BundleStart,
    BundleEnd { output_dir: String, duration_ms: String },
    Error { message: String },
    Change { path: String, kind: ChangeKind },
    Close,
    End,
}

/// The mathematical value of a lifecycle event.
pub enum EventV {
    ReStart,
    Start,
    BundleStart,
    BundleEnd { output_dir: Seq<char>, duration_ms: Seq<char> },
    Error { message: Seq<char> },
    Change { path: Seq<char>, kind: ChangeKind },
    Close,
    End,
}

impl View for LifecycleEvent {
    type V = EventV;

    open spec fn view(&self) -> EventV {
        match self {
            LifecycleEvent::ReStart => EventV::ReStart,
            LifecycleEvent::Start => EventV::Start,
            LifecycleEvent::BundleStart => EventV::BundleStart,
            LifecycleEvent::BundleEnd { output_dir, duration_ms } => EventV::BundleEnd {
                output_dir: output_dir@,
                duration_ms: duration_ms@,
            },
            LifecycleEvent::Error { message } => EventV::Error { message: message@ },
            LifecycleEvent::Change { path, kind } => EventV::Change { path: path@, kind: *kind },
            LifecycleEvent::Close => EventV::Close,
            LifecycleEvent::End => EventV::End,
        }
    }
}

/// How a raw filesystem event is classified: creations, data modifications
/// and removals are surfaced; everything else is ignored.
pub open spec fn classify_spec(kind: RawEventKind) -> Option<ChangeKind> {
    match kind {
        RawEventKind::Create => Some(ChangeKind::Create),
        RawEventKind::ModifyData => Some(ChangeKind::Update),
        RawEventKind::ModifyAny => Some(ChangeKind::Update),
        RawEventKind::ModifyOther => None,
        RawEventKind::Remove => Some(ChangeKind::Delete),
        RawEventKind::Other => None,
    }
}

/// Only an `Update` change triggers a rebuild request.
pub open spec fn triggers_rebuild(kind: RawEventKind) -> bool {
    classify_spec(kind) == Some(ChangeKind::Update)
}

/// Map a raw event kind to the change kind shown to listeners, if any.
pub fn classify(kind: RawEventKind) -> (r: Option<ChangeKind>)
    ensures
        r == classify_spec(kind),
{
    match kind {
        RawEventKind::Create => Some(ChangeKind::Create),
        RawEventKind::ModifyData => Some(ChangeKind::Update),
        RawEventKind::ModifyAny => Some(ChangeKind::Update),
        RawEventKind::ModifyOther => None,
        RawEventKind::Remove => Some(ChangeKind::Delete),
        RawEventKind::Other => None,
    }
}

} // verus!
