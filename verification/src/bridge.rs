//! The event bridge and its single consumer.
//!
//! A synchronous callback thread owned by the filesystem monitor posts
//! messages into an unbounded channel; exactly one asynchronous task reads
//! them, one at a time, until the close message arrives. The channel itself
//! is plumbing owned by the embedding; the decisions of the consumer — how a
//! message changes the loop, what each path makes visible, and when a rebuild
//! is requested — live here.

use vstd::prelude::*;

use crate::events::{classify, classify_spec, triggers_rebuild, ChangeKind, EventV, LifecycleEvent, RawEventKind};
use crate::watcher::{invalidate_flags, invalidate_starts_run, Watcher};

verus! {

/// One message of the event bridge.
pub enum BridgeMessage {
    /// A raw filesystem event, already decoded by the monitor backend.
    Raw { paths: Vec<String>, kind: RawEventKind },
    /// The monitor backend reported an error; it is logged and the loop
    /// keeps reading.
    BackendError { message: String },
    /// Tear the consumer loop down.
    Close,
}

/// The mathematical value of a bridge message.
pub enum MsgV {
    Raw { paths: Seq<Seq<char>>, kind: RawEventKind },
    BackendError { message: Seq<char> },
    Close,
}

impl View for BridgeMessage {
    type V = MsgV;

    open spec fn view(&self) -> MsgV {
        match self {
            BridgeMessage::Raw { paths, kind } => MsgV::Raw {
                paths: paths@.map_values(|p: String| p@),
                kind: *kind,
            },
            BridgeMessage::BackendError { message } => MsgV::BackendError { message: message@ },
            BridgeMessage::Close => MsgV::Close,
        }
    }
}

/// The consumer loop: it reads messages while it is live.
pub struct ConsumerLoop {
    pub live: bool,
}

/// The loop stays live until it has seen the close message.
pub open spec fn live_after(live: bool, m: MsgV) -> bool {
    live && !(m is Close)
}

/// What one path of a raw event makes the embedding do next.
pub struct PathOutcome {
    /// The classified change, if the event is surfaced; the embedding then
    /// invokes the plugin driver's change hook with it, best-effort.
    pub changed: Option<ChangeKind>,
    /// The embedding must now drive one build cycle (`run_begin` through
    /// `run_finish`) to completion before reading the next message.
    pub start_run: bool,
}

impl ConsumerLoop {
    /// A fresh, live consumer.
    pub fn new() -> (r: Self)
        ensures
            r.live,
    {
        ConsumerLoop { live: true }
    }

    /// The channel failed on receive: that is fatal for this loop instance,
    /// so it stops reading. The embedding logs the failure.
    pub fn on_receive_failure(&mut self)
        ensures
            !final(self).live,
    {
        self.live = false;
    }

    /// Read one message: the close message ends the loop; a backend error is
    /// logged by the embedding and skipped; the paths of a raw event are to
    /// be handled one by one exactly when the returned flag says so.
    pub fn on_message(&mut self, msg: &BridgeMessage) -> (process: bool)
        ensures
            final(self).live == live_after(old(self).live, msg@),
            process == (old(self).live && msg@ is Raw),
    {
        if !self.live {
            return false;
        }
        match msg {
            BridgeMessage::Close => {
                self.live = false;
                false
            },
            BridgeMessage::BackendError { .. } => false,
            BridgeMessage::Raw { .. } => true,
        }
    }
}

/// Handle one path of one raw event: a surfaced event publishes a `Change`,
/// and only an `Update` requests a rebuild. When the request starts a cycle,
/// the embedding drives a whole build cycle to completion before the next path.
pub fn handle_raw_path(w: &mut Watcher, path: &String, kind: RawEventKind) -> (r: PathOutcome)
    ensures
        r.changed == classify_spec(kind),
        match classify_spec(kind) {
            Some(k) => final(w).emitter@ == old(w).emitter@.push(
                EventV::Change { path: path@, kind: k },
            ),
            None => final(w).emitter@ == old(w).emitter@,
        },
        (if triggers_rebuild(kind) {
            final(w).flags() == invalidate_flags(old(w).flags()) && r.start_run
                == invalidate_starts_run(old(w).flags())
        } else {
            final(w).flags() == old(w).flags() && !r.start_run
        }),
        final(w).watched() == old(w).watched(),
        final(w).closed == old(w).closed,
        final(w).options == old(w).options,
{
    let changed = classify(kind);
    let mut start_run = false;
    match changed {
        Some(k) => {
            w.emitter.emit(LifecycleEvent::Change { path: path.clone(), kind: k });
            // The embedding invokes the plugin driver's change hook with
            // (path, k); a hook failure is logged and never propagated.
            if matches!(k, ChangeKind::Update) {
                start_run = w.invalidate();
            }
        },
        None => {},
    }
    PathOutcome { changed, start_run }
}

/// The `Change` events the consumer itself publishes for one raw event.
/// (The build cycles an `Update` drives append their own events through
/// `run_begin` and `run_finish`; they are not part of this.)
pub open spec fn change_events(paths: Seq<Seq<char>>, kind: RawEventKind) -> Seq<EventV> {
    match classify_spec(kind) {
        Some(k) => paths.map_values(|p: Seq<char>| EventV::Change { path: p, kind: k }),
        None => Seq::empty(),
    }
}

/// The `Change` events one message makes the consumer publish.
pub open spec fn message_events(live: bool, m: MsgV) -> Seq<EventV> {
    if live {
        match m {
            MsgV::Raw { paths, kind } => change_events(paths, kind),
            MsgV::BackendError { .. } => Seq::empty(),
            MsgV::Close => Seq::empty(),
        }
    } else {
        Seq::empty()
    }
}

/// Whether the loop is still live after a sequence of messages.
pub open spec fn live_through(live: bool, msgs: Seq<MsgV>) -> bool
    decreases msgs.len(),
{
    if msgs.len() == 0 {
        live
    } else {
        live_through(live_after(live, msgs[0]), msgs.skip(1))
    }
}

/// Every `Change` event the consumer publishes over a sequence of messages.
pub open spec fn consumed_events(live: bool, msgs: Seq<MsgV>) -> Seq<EventV>
    decreases msgs.len(),
{
    if msgs.len() == 0 {
        Seq::empty()
    } else {
        message_events(live, msgs[0]) + consumed_events(live_after(live, msgs[0]), msgs.skip(1))
    }
}

/// A consumer that is no longer live publishes nothing, whatever arrives.
pub proof fn lemma_closed_consumer_inert(msgs: Seq<MsgV>)
    ensures
        consumed_events(false, msgs) == Seq::<EventV>::empty(),
        !live_through(false, msgs),
    decreases msgs.len(),
{
    if msgs.len() > 0 {
        lemma_closed_consumer_inert(msgs.skip(1));
        assert(consumed_events(false, msgs) =~= Seq::<EventV>::empty());
    }
}

/// Processing a concatenation is processing the parts in turn.
pub proof fn lemma_consumed_events_append(live: bool, a: Seq<MsgV>, b: Seq<MsgV>)
    ensures
        consumed_events(live, a + b) == consumed_events(live, a) + consumed_events(
            live_through(live, a),
            b,
        ),
        live_through(live, a + b) == live_through(live_through(live, a), b),
    decreases a.len(),
{
    if a.len() == 0 {
        assert(a + b =~= b);
        assert(consumed_events(live, a) =~= Seq::<EventV>::empty());
        assert(consumed_events(live, a) + consumed_events(live, b) =~= consumed_events(live, b));
    } else {
        assert((a + b)[0] == a[0]);
        assert((a + b).skip(1) =~= a.skip(1) + b);
        lemma_consumed_events_append(live_after(live, a[0]), a.skip(1), b);
        assert(consumed_events(live, a + b) =~= consumed_events(live, a) + consumed_events(
            live_through(live, a),
            b,
        ));
    }
}

/// Close termination: once the close message has been read, posting any
/// further messages into the bridge publishes no further events.
pub proof fn lemma_close_terminates(live: bool, before: Seq<MsgV>, after: Seq<MsgV>)
    ensures
        consumed_events(live, before.push(MsgV::Close) + after) == consumed_events(
            live,
            before.push(MsgV::Close),
        ),
{
    lemma_consumed_events_append(live, before.push(MsgV::Close), after);
    assert(!live_through(live, before.push(MsgV::Close))) by {
        lemma_live_through_close(live, before);
    }
    lemma_closed_consumer_inert(after);
    assert(consumed_events(live, before.push(MsgV::Close)) + Seq::<EventV>::empty()
        =~= consumed_events(live, before.push(MsgV::Close)));
}

proof fn lemma_live_through_close(live: bool, before: Seq<MsgV>)
    ensures
        !live_through(live, before.push(MsgV::Close)),
    decreases before.len(),
{
    let msgs = before.push(MsgV::Close);
    if before.len() == 0 {
        assert(msgs[0] == MsgV::Close);
        assert(msgs.skip(1) =~= Seq::<MsgV>::empty());
        lemma_closed_consumer_inert(msgs.skip(1));
    } else {
        assert(msgs[0] == before[0]);
        assert(msgs.skip(1) =~= before.skip(1).push(MsgV::Close));
        lemma_live_through_close(live_after(live, before[0]), before.skip(1));
    }
}

} // verus!
