//! The engine's shared state and its transitions.
//!
//! `MouseListenerState` owns the recorded event queue, the stop and
//! playback flags, and the presence of the capture worker and the loop
//! playback task. The embedding binary holds the real thread and task
//! handles; here each handle is modeled by whether it is present, which is
//! what every transition decides on. All transitions are total functions of
//! the state alone; the mathematical model is `StateModel`.

use vstd::prelude::*;

use crate::events::MouseEvent;

verus! {

/// The mathematical value of a `MouseListenerState`.
#[verifier::ext_equal]
pub struct StateModel {
    /// Asks the capture worker to exit at its next event.
    pub stop_flag: bool,
    /// True while the loop player should continue iterating.
    pub playback_flag: bool,
    /// Whether a capture worker thread is running (the handle is present).
    pub thread_running: bool,
    /// Whether a loop playback task is running (the handle is present).
    pub playback_thread_running: bool,
    /// The recorded events, first-in first-out.
    pub event_queue: Seq<MouseEvent>,
    /// The anchor from which the next playback interpolates cursor motion.
    pub last_event_played: Option<MouseEvent>,
}

impl StateModel {
    /// Every recorded event has in-range coordinates and a button, the
    /// anchor has in-range coordinates, and the playback flag agrees with
    /// the presence of the loop task. Constructors establish this and every
    /// transition preserves it.
    pub open spec fn wf(self) -> bool {
        &&& forall|i: int|
            0 <= i < self.event_queue.len() ==> (#[trigger] self.event_queue[i]).valid()
                && self.event_queue[i].button is Some
        &&& self.last_event_played matches Some(ev) ==> ev.valid()
        &&& self.playback_flag <==> self.playback_thread_running
    }
}

/// The engine state: event queue, flags, worker and task presence, and the
/// playback anchor.
#[derive(Debug)]
pub struct MouseListenerState {
    pub stop_flag: bool,
    pub playback_flag: bool,
    pub thread_running: bool,
    pub playback_thread_running: bool,
    pub event_queue: Vec<MouseEvent>,
    pub last_event_played: Option<MouseEvent>,
}

impl View for MouseListenerState {
    type V = StateModel;

    open spec fn view(&self) -> StateModel {
        StateModel {
            stop_flag: self.stop_flag,
            playback_flag: self.playback_flag,
            thread_running: self.thread_running,
            playback_thread_running: self.playback_thread_running,
            event_queue: self.event_queue@,
            last_event_played: self.last_event_played,
        }
    }
}

/// The state a freshly constructed engine is in.
pub open spec fn initial_state() -> StateModel {
    StateModel {
        stop_flag: false,
        playback_flag: false,
        thread_running: false,
        playback_thread_running: false,
        event_queue: Seq::empty(),
        last_event_played: None,
    }
}

/// What starting capture does: nothing if a worker is already running;
/// otherwise the queue is emptied, the stop flag cleared, and a worker
/// recorded as running.
pub open spec fn start_capture_spec(s: StateModel) -> StateModel {
    if s.thread_running {
        s
    } else {
        StateModel {
            stop_flag: false,
            thread_running: true,
            event_queue: Seq::empty(),
            ..s
        }
    }
}

/// What stopping capture does: the stop flag is raised and the worker is
/// gone afterwards, whether or not one was running.
pub open spec fn stop_capture_spec(s: StateModel) -> StateModel {
    StateModel { stop_flag: true, thread_running: false, ..s }
}

/// What starting loop playback does: nothing if a loop task is already
/// running; otherwise the playback flag is raised and a task recorded.
pub open spec fn start_loop_spec(s: StateModel) -> StateModel {
    if s.playback_thread_running {
        s
    } else {
        StateModel { playback_flag: true, playback_thread_running: true, ..s }
    }
}

/// What stopping loop playback does: the playback flag is cleared and the
/// task is gone afterwards, whether or not one was running.
pub open spec fn stop_loop_spec(s: StateModel) -> StateModel {
    StateModel { playback_flag: false, playback_thread_running: false, ..s }
}

/// What clearing the queue does.
pub open spec fn clear_queue_spec(s: StateModel) -> StateModel {
    StateModel { event_queue: Seq::empty(), ..s }
}

/// What resetting the playback anchor does.
pub open spec fn reset_last_played_spec(s: StateModel) -> StateModel {
    StateModel { last_event_played: None, ..s }
}

/// What appending a captured event does.
pub open spec fn enqueue_spec(s: StateModel, ev: MouseEvent) -> StateModel {
    StateModel { event_queue: s.event_queue.push(ev), ..s }
}

/// What finishing the replay of the queue element at `i` does: that element
/// becomes the anchor for the next interpolation.
pub open spec fn mark_played_spec(s: StateModel, i: int) -> StateModel {
    StateModel { last_event_played: Some(s.event_queue[i]), ..s }
}

impl MouseListenerState {
    /// Creates the engine state: no worker, no loop task, both flags
    /// lowered, an empty queue, and no anchor.
    pub fn new() -> (s: Self)
        ensures
            s@ == initial_state(),
            s@.wf(),
    {
        let s = MouseListenerState {
            stop_flag: false,
            playback_flag: false,
            thread_running: false,
            playback_thread_running: false,
            event_queue: Vec::new(),
            last_event_played: None,
        };
        proof {
            assert(s@ =~= initial_state());
        }
        s
    }

    /// Forgets the playback anchor, so the next replay starts with a single
    /// direct move rather than an interpolated approach.
    pub fn reset_last_event_played(&mut self)
        ensures
            final(self)@ == reset_last_played_spec(old(self)@),
            old(self)@.wf() ==> final(self)@.wf(),
    {
        self.last_event_played = None;
        proof {
            assert(self@ =~= reset_last_played_spec(old(self)@));
        }
    }
}

/// Starts the capture worker, idempotently: if one is already running the
/// state is untouched and the result is false; otherwise the queue is
/// cleared, the stop flag lowered, the worker recorded, and the result is
/// true. The caller spawns the real hook thread exactly when true comes
/// back.
pub fn start_mouse_listener(state: &mut MouseListenerState) -> (started: bool)
    ensures
        final(state)@ == start_capture_spec(old(state)@),
        started == !old(state)@.thread_running,
        old(state)@.wf() ==> final(state)@.wf(),
{
    if state.thread_running {
        return false;
    }
    state.event_queue.clear();
    state.stop_flag = false;
    state.thread_running = true;
    proof {
        assert(state@ =~= start_capture_spec(old(state)@));
    }
    true
}

/// Stops the capture worker: the stop flag is raised and the worker handle
/// given up. The result says whether a worker was running, so the caller
/// knows to unwind the hook and join the thread. Stopping twice is the same
/// as stopping once.
pub fn stop_mouse_listener(state: &mut MouseListenerState) -> (was_running: bool)
    ensures
        final(state)@ == stop_capture_spec(old(state)@),
        was_running == old(state)@.thread_running,
        old(state)@.wf() ==> final(state)@.wf(),
{
    let was_running = state.thread_running;
    state.stop_flag = true;
    state.thread_running = false;
    proof {
        assert(state@ =~= stop_capture_spec(old(state)@));
    }
    was_running
}

/// Starts loop playback, idempotently: if a loop task is already running
/// the state is untouched and the result is false; otherwise the playback
/// flag is raised, the task recorded, and the result is true. The caller
/// spawns the real loop task exactly when true comes back.
pub fn start_playback_loop(state: &mut MouseListenerState) -> (started: bool)
    ensures
        final(state)@ == start_loop_spec(old(state)@),
        started == !old(state)@.playback_thread_running,
        old(state)@.wf() ==> final(state)@.wf(),
{
    if state.playback_thread_running {
        return false;
    }
    state.playback_flag = true;
    state.playback_thread_running = true;
    proof {
        assert(state@ =~= start_loop_spec(old(state)@));
    }
    true
}

/// Stops loop playback: the playback flag is cleared and the task handle
/// given up. The result says whether a task was running, so the caller
/// knows to abort it. When no loop is running this is a no-op.
pub fn stop_playback_loop(state: &mut MouseListenerState) -> (was_running: bool)
    ensures
        final(state)@ == stop_loop_spec(old(state)@),
        was_running == old(state)@.playback_thread_running,
        old(state)@.wf() ==> final(state)@.wf(),
{
    let was_running = state.playback_thread_running;
    state.playback_flag = false;
    state.playback_thread_running = false;
    proof {
        assert(state@ =~= stop_loop_spec(old(state)@));
    }
    was_running
}

/// Empties the event queue.
pub fn clear_queue(state: &mut MouseListenerState)
    ensures
        final(state)@ == clear_queue_spec(old(state)@),
        old(state)@.wf() ==> final(state)@.wf(),
{
    state.event_queue.clear();
    proof {
        assert(state@ =~= clear_queue_spec(old(state)@));
    }
}

/// Appends one captured event to the queue. Only events with a button and
/// in-range coordinates are ever recorded.
pub fn enqueue_event(state: &mut MouseListenerState, ev: MouseEvent)
    requires
        ev.valid(),
        ev.button is Some,
    ensures
        final(state)@ == enqueue_spec(old(state)@, ev),
        old(state)@.wf() ==> final(state)@.wf(),
{
    state.event_queue.push(ev);
    proof {
        assert(state@ =~= enqueue_spec(old(state)@, ev));
    }
}

/// Records that the queue element at `i` has been fully replayed: it
/// becomes the anchor for the next interpolation.
pub fn mark_event_played(state: &mut MouseListenerState, i: usize)
    requires
        i < old(state)@.event_queue.len(),
    ensures
        final(state)@ == mark_played_spec(old(state)@, i as int),
        old(state)@.wf() ==> final(state)@.wf(),
{
    let ev = state.event_queue[i];
    state.last_event_played = Some(ev);
    proof {
        assert(state@ =~= mark_played_spec(old(state)@, i as int));
    }
}

/// Starting capture twice leaves exactly the state that starting it once
/// leaves: the second start sees the running worker and changes nothing.
pub proof fn lemma_start_capture_idempotent(s: StateModel)
    ensures
        start_capture_spec(start_capture_spec(s)) == start_capture_spec(s),
{
}

/// Stopping capture twice leaves exactly the state that stopping it once
/// leaves.
pub proof fn lemma_stop_capture_idempotent(s: StateModel)
    ensures
        stop_capture_spec(stop_capture_spec(s)) == stop_capture_spec(s),
{
}

/// Stopping loop playback when none is running changes nothing: in a
/// well-formed state the playback flag is already lowered whenever the
/// task is absent.
pub proof fn lemma_stop_loop_noop_when_idle(s: StateModel)
    requires
        s.wf(),
        !s.playback_thread_running,
    ensures
        stop_loop_spec(s) == s,
{
    assert(stop_loop_spec(s) =~= s);
}

/// Stopping capture and then starting it again always yields a running
/// worker with a fresh, empty queue.
pub proof fn lemma_stop_then_start_fresh_queue(s: StateModel)
    ensures
        start_capture_spec(stop_capture_spec(s)).event_queue =~= Seq::<MouseEvent>::empty(),
        start_capture_spec(stop_capture_spec(s)).thread_running,
        !start_capture_spec(stop_capture_spec(s)).stop_flag,
{
}

} // verus!
