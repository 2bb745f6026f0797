//! The capture worker: the per-event logic the OS hook callback runs.
//!
//! The worker keeps the cursor position seen at the most recent mouse move,
//! and debounces repeated deliveries: an event is eligible iff more than
//! 50 ms have passed since the last eligible event or its kind differs from
//! that event's kind. Eligible button events become recorded `MouseEvent`s
//! with the tracked coordinates snapshotted on; eligible moves update the
//! tracked coordinates; everything else passes through untouched. The hook
//! installation itself, the dedicated thread, and reading the clock are the
//! embedding binary's work: it feeds each raw event here and acts on the
//! decision that comes back.

use vstd::prelude::*;

use crate::events::{EventKind, MouseEvent};

verus! {

/// The debounce window: a same-kind event within this many milliseconds of
/// the previous eligible event is suppressed.
pub const DEBOUNCE_MS: u64 = 50;

/// The local state of one capture worker. It is shared with nothing; the
/// hook callback owns it for the worker's lifetime.
#[derive(Clone, Copy, Debug)]
pub struct CaptureWorker {
    /// Cursor position from the most recent eligible mouse move, `(0, 0)`
    /// until one arrives.
    pub cx: i64,
    pub cy: i64,
    /// When the last eligible event was seen, in milliseconds of a
    /// monotonic clock.
    pub last_event_time_ms: u64,
    /// The kind of the last eligible event, `None` before the first.
    pub last_event_kind: Option<EventKind>,
}

/// What the hook callback should do with one raw event.
#[derive(Clone, Copy, Debug, PartialEq, Eq)]
pub enum HookDecision {
    /// A stop was requested: swallow the event and let the hook unwind.
    Exit,
    /// Pass the event through; nothing is recorded.
    Pass,
    /// Pass the event through, hand `event` to the observer, and append it
    /// to the engine's queue.
    Record { event: MouseEvent },
}

/// Whether a raw event of kind `kind` arriving at `now_ms` gets processed:
/// more than the debounce window has passed since the last eligible event,
/// or the kind differs from that event's kind.
pub open spec fn eligible_spec(w: CaptureWorker, kind: EventKind, now_ms: u64) -> bool {
    now_ms - w.last_event_time_ms > DEBOUNCE_MS || w.last_event_kind != Some(kind)
}

/// The worker's transition function: the worker state after one raw event,
/// and the decision for it. A stop request exits without processing. An
/// ineligible event changes nothing. An eligible event refreshes the
/// debounce reference; an eligible move also updates the tracked
/// coordinates, and an eligible button event is recorded at the coordinates
/// tracked so far.
pub open spec fn observe_spec(
    w: CaptureWorker,
    stop_requested: bool,
    kind: EventKind,
    now_ms: u64,
) -> (CaptureWorker, HookDecision) {
    if stop_requested {
        (w, HookDecision::Exit)
    } else if !eligible_spec(w, kind, now_ms) {
        (w, HookDecision::Pass)
    } else {
        let w2 = CaptureWorker {
            last_event_time_ms: now_ms,
            last_event_kind: Some(kind),
            ..w
        };
        match kind {
            EventKind::MouseMove { x, y } => (
                CaptureWorker { cx: x, cy: y, ..w2 },
                HookDecision::Pass,
            ),
            EventKind::ButtonPress { button } => (
                w2,
                HookDecision::Record {
                    event: MouseEvent { x: w.cx, y: w.cy, button: Some(button) },
                },
            ),
            EventKind::ButtonRelease { button } => (
                w2,
                HookDecision::Record {
                    event: MouseEvent { x: w.cx, y: w.cy, button: Some(button) },
                },
            ),
            EventKind::Other => (w2, HookDecision::Pass),
        }
    }
}

impl CaptureWorker {
    /// The tracked coordinates are in range, and whenever the last eligible
    /// event was a move, they are that move's coordinates.
    pub open spec fn wf(self) -> bool {
        &&& -crate::COORD_LIMIT <= self.cx <= crate::COORD_LIMIT
        &&& -crate::COORD_LIMIT <= self.cy <= crate::COORD_LIMIT
        &&& self.last_event_kind matches Some(EventKind::MouseMove { x, y }) ==> self.cx == x
            && self.cy == y
    }

    /// The state a worker starts in: cursor at the origin, nothing seen yet.
    pub open spec fn initial() -> CaptureWorker {
        CaptureWorker { cx: 0, cy: 0, last_event_time_ms: 0, last_event_kind: None }
    }

    /// Creates a fresh worker.
    pub fn new() -> (w: Self)
        ensures
            w == Self::initial(),
            w.wf(),
    {
        CaptureWorker { cx: 0, cy: 0, last_event_time_ms: 0, last_event_kind: None }
    }

    /// Processes one raw event: decides what the hook callback should do
    /// and advances the worker. `now_ms` comes from a monotonic clock, so
    /// it never precedes the last eligible event's time; move coordinates
    /// are in range, as the bounded screen guarantees. A recorded event
    /// always carries a button and the tracked coordinates.
    pub fn observe(&mut self, stop_requested: bool, kind: EventKind, now_ms: u64) -> (d:
        HookDecision)
        requires
            old(self).wf(),
            now_ms >= old(self).last_event_time_ms,
            kind matches EventKind::MouseMove { x, y } ==> -crate::COORD_LIMIT <= x
                <= crate::COORD_LIMIT && -crate::COORD_LIMIT <= y <= crate::COORD_LIMIT,
        ensures
            (*final(self), d) == observe_spec(*old(self), stop_requested, kind, now_ms),
            final(self).wf(),
            d matches HookDecision::Record { event } ==> event.valid() && event.button is Some,
    {
        if stop_requested {
            return HookDecision::Exit;
        }
        let elapsed: u64 = now_ms - self.last_event_time_ms;
        let same_kind = match self.last_event_kind {
            None => false,
            Some(k) => k == kind,
        };
        if !(elapsed > DEBOUNCE_MS || !same_kind) {
            return HookDecision::Pass;
        }
        self.last_event_time_ms = now_ms;
        self.last_event_kind = Some(kind);
        match kind {
            EventKind::MouseMove { x, y } => {
                self.cx = x;
                self.cy = y;
                HookDecision::Pass
            },
            EventKind::ButtonPress { button } => HookDecision::Record {
                event: MouseEvent { x: self.cx, y: self.cy, button: Some(button) },
            },
            EventKind::ButtonRelease { button } => HookDecision::Record {
                event: MouseEvent { x: self.cx, y: self.cy, button: Some(button) },
            },
            EventKind::Other => HookDecision::Pass,
        }
    }
}

/// The worker after a whole history of raw events, fed in order with no
/// stop request. Each history entry is an event kind and its arrival time.
pub open spec fn run_worker(w: CaptureWorker, hist: Seq<(EventKind, u64)>) -> CaptureWorker
    decreases hist.len(),
{
    if hist.len() == 0 {
        w
    } else {
        observe_spec(run_worker(w, hist.drop_last()), false, hist.last().0, hist.last().1).0
    }
}

/// The coordinates of the most recent mouse move in a history, if any.
pub open spec fn last_move(hist: Seq<(EventKind, u64)>) -> Option<(i64, i64)>
    decreases hist.len(),
{
    if hist.len() == 0 {
        None
    } else {
        match hist.last().0 {
            EventKind::MouseMove { x, y } => Some((x, y)),
            _ => last_move(hist.drop_last()),
        }
    }
}

/// After any history of raw events, the worker's tracked coordinates are
/// those of the most recent mouse move in the history, or the origin if
/// the history holds no move, and the last-eligible-kind bookkeeping stays
/// coupled to them.
pub proof fn lemma_worker_tracks_moves(hist: Seq<(EventKind, u64)>)
    ensures
        ({
            let w = run_worker(CaptureWorker::initial(), hist);
            &&& w.last_event_kind matches Some(EventKind::MouseMove { x, y }) ==> w.cx == x
                && w.cy == y
            &&& match last_move(hist) {
                Some(p) => w.cx == p.0 && w.cy == p.1,
                None => w.cx == 0 && w.cy == 0,
            }
        }),
    decreases hist.len(),
{
    if hist.len() == 0 {
    } else {
        lemma_worker_tracks_moves(hist.drop_last());
    }
}

/// Every event the capture worker records carries a button, and its
/// coordinates are those of the most recent mouse move the worker has seen
/// across its whole history (the origin if it has seen none).
pub proof fn lemma_recorded_event_from_last_move(
    hist: Seq<(EventKind, u64)>,
    kind: EventKind,
    now_ms: u64,
)
    ensures
        ({
            let w = run_worker(CaptureWorker::initial(), hist);
            let d = observe_spec(w, false, kind, now_ms).1;
            d matches HookDecision::Record { event } ==> {
                &&& event.button is Some
                &&& match last_move(hist) {
                    Some(p) => event.x == p.0 && event.y == p.1,
                    None => event.x == 0 && event.y == 0,
                }
            }
        }),
{
    lemma_worker_tracks_moves(hist);
}

/// The debounce law. Once an event has been recorded, a second event
/// arriving dt later is suppressed when it has the same kind and dt is
/// within the debounce window; it is recorded again when it has the same
/// kind and dt exceeds the window; and a button event of a different kind
/// is always recorded, however small dt is.
pub proof fn lemma_debounce(w: CaptureWorker, k1: EventKind, t1: u64, k2: EventKind, t2: u64)
    requires
        t1 <= t2,
        observe_spec(w, false, k1, t1).1 is Record,
    ensures
        ({
            let w1 = observe_spec(w, false, k1, t1).0;
            let d2 = observe_spec(w1, false, k2, t2).1;
            &&& k2 == k1 && t2 - t1 <= DEBOUNCE_MS ==> d2 is Pass
            &&& k2 == k1 && t2 - t1 > DEBOUNCE_MS ==> d2 is Record
            &&& k2 != k1 && (k2 is ButtonPress || k2 is ButtonRelease) ==> d2 is Record
        }),
{
}

} // verus!
