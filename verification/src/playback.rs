//! The playback engine: it turns the recorded queue into a plan of
//! synthetic input steps.
//!
//! For each queued event the plan first approaches the event's position —
//! ten interpolated moves with 10 ms pauses when an anchor exists, one
//! direct move when none does — and then clicks: press, a 50 ms dwell,
//! release. The embedding binary executes the steps against the OS
//! simulator and, after each event it completes, records that event as the
//! new anchor with [`crate::state::mark_event_played`]; a simulation error
//! short-circuits the rest of the plan.

use vstd::prelude::*;

use crate::events::{MouseButton, MouseEvent};
use crate::state::MouseListenerState;

verus! {

/// How many interpolated moves approach each event when an anchor exists.
pub const INTERP_STEPS: u64 = 10;

/// Milliseconds between two interpolated moves.
pub const INTERP_PAUSE_MS: u64 = 10;

/// Milliseconds between a synthesized press and its release.
pub const CLICK_DWELL_MS: u64 = 50;

/// One step of a playback plan: a synthetic input event to inject, or a
/// cooperative pause.
#[derive(Clone, Copy, Debug, PartialEq, Eq)]
pub enum SimStep {
    MouseMove { x: i64, y: i64 },
    ButtonPress { button: MouseButton },
    ButtonRelease { button: MouseButton },
    Sleep { millis: u64 },
}

/// The steps that replay one recorded event, and the event itself, which
/// becomes the anchor once the steps have all been executed.
#[derive(Debug)]
pub struct EventPlan {
    pub steps: Vec<SimStep>,
    pub event: MouseEvent,
}

/// Division by ten that rounds toward zero, the way the player splits the
/// distance to the next event into equal steps.
pub open spec fn div10_trunc(d: int) -> int {
    if d >= 0 {
        d / 10
    } else {
        -((-d) / 10)
    }
}

/// The position of the k-th interpolated move along one coordinate:
/// `prev + k * ((curr - prev) / 10)`, with the division rounding toward
/// zero.
pub open spec fn interp_coord(prev: int, curr: int, k: int) -> int {
    prev + k * div10_trunc(curr - prev)
}

/// The first `k` interpolated moves from `prev` toward `curr`, each
/// followed by a pause.
pub open spec fn move_steps(prev: MouseEvent, curr: MouseEvent, k: nat) -> Seq<SimStep>
    decreases k,
{
    if k == 0 {
        Seq::empty()
    } else {
        move_steps(prev, curr, (k - 1) as nat) + seq![
            SimStep::MouseMove {
                x: interp_coord(prev.x as int, curr.x as int, k as int) as i64,
                y: interp_coord(prev.y as int, curr.y as int, k as int) as i64,
            },
            SimStep::Sleep { millis: INTERP_PAUSE_MS },
        ]
    }
}

/// The moves that bring the cursor to `ev`: an interpolated approach from
/// the anchor, or a single direct move when there is no anchor.
pub open spec fn approach_steps(anchor: Option<MouseEvent>, ev: MouseEvent) -> Seq<SimStep> {
    match anchor {
        None => seq![SimStep::MouseMove { x: ev.x, y: ev.y }],
        Some(prev) => move_steps(prev, ev, INTERP_STEPS as nat),
    }
}

/// The click at an event's position: press, dwell, release — or nothing
/// for an event without a button.
pub open spec fn click_steps(button: Option<MouseButton>) -> Seq<SimStep> {
    match button {
        None => Seq::empty(),
        Some(b) => seq![
            SimStep::ButtonPress { button: b },
            SimStep::Sleep { millis: CLICK_DWELL_MS },
            SimStep::ButtonRelease { button: b },
        ],
    }
}

/// Everything that replays one event: approach it, then click.
pub open spec fn event_steps(anchor: Option<MouseEvent>, ev: MouseEvent) -> Seq<SimStep> {
    approach_steps(anchor, ev) + click_steps(ev.button)
}

/// The anchor in effect when the i-th queued event is replayed: the
/// session's starting anchor for the first event, afterwards always the
/// previous event.
pub open spec fn anchor_before(
    last: Option<MouseEvent>,
    q: Seq<MouseEvent>,
    i: int,
) -> Option<MouseEvent> {
    if i == 0 {
        last
    } else {
        Some(q[i - 1])
    }
}

/// The whole session: the step sequence for each queued event in order. An
/// empty queue yields an empty session.
pub open spec fn session_plan(last: Option<MouseEvent>, q: Seq<MouseEvent>) -> Seq<Seq<SimStep>> {
    Seq::new(q.len(), |i: int| event_steps(anchor_before(last, q, i), q[i]))
}

/// Divides by ten rounding toward zero.
fn div_by_ten(d: i64) -> (r: i64)
    requires
        -2 * crate::COORD_LIMIT <= d <= 2 * crate::COORD_LIMIT,
    ensures
        r == div10_trunc(d as int),
        -2 * crate::COORD_LIMIT <= 10 * r <= 2 * crate::COORD_LIMIT,
{
    if d >= 0 {
        let q: u64 = (d as u64) / 10;
        q as i64
    } else {
        let m: u64 = ((-d) as u64) / 10;
        -(m as i64)
    }
}

/// Builds the steps that replay `ev` starting from `anchor`.
pub fn event_plan(anchor: Option<MouseEvent>, ev: MouseEvent) -> (steps: Vec<SimStep>)
    requires
        anchor matches Some(prev) ==> prev.valid(),
        ev.valid(),
    ensures
        steps@ == event_steps(anchor, ev),
{
    let mut steps: Vec<SimStep> = Vec::new();
    match anchor {
        None => {
            steps.push(SimStep::MouseMove { x: ev.x, y: ev.y });
            proof {
                assert(steps@ =~= approach_steps(anchor, ev));
            }
        },
        Some(prev) => {
            let dx = div_by_ten(ev.x - prev.x);
            let dy = div_by_ten(ev.y - prev.y);
            let mut k: u64 = 0;
            while k < INTERP_STEPS
                invariant
                    k <= INTERP_STEPS,
                    prev.valid(),
                    ev.valid(),
                    dx == div10_trunc(ev.x - prev.x),
                    dy == div10_trunc(ev.y - prev.y),
                    -2 * crate::COORD_LIMIT <= 10 * dx <= 2 * crate::COORD_LIMIT,
                    -2 * crate::COORD_LIMIT <= 10 * dy <= 2 * crate::COORD_LIMIT,
                    steps@ == move_steps(prev, ev, k as nat),
                decreases INTERP_STEPS - k,
            {
                k = k + 1;
                let kk: i64 = k as i64;
                proof {
                    assert(-2_000_000_000_000 <= dx * kk <= 2_000_000_000_000)
                        by (nonlinear_arith)
                        requires
                            1 <= kk <= 10,
                            -2_000_000_000_000 <= 10 * dx <= 2_000_000_000_000,
                    ;
                    assert(-2_000_000_000_000 <= dy * kk <= 2_000_000_000_000)
                        by (nonlinear_arith)
                        requires
                            1 <= kk <= 10,
                            -2_000_000_000_000 <= 10 * dy <= 2_000_000_000_000,
                    ;
                }
                let x: i64 = prev.x + dx * kk;
                let y: i64 = prev.y + dy * kk;
                steps.push(SimStep::MouseMove { x, y });
                steps.push(SimStep::Sleep { millis: INTERP_PAUSE_MS });
                proof {
                    assert(x == interp_coord(prev.x as int, ev.x as int, k as int));
                    assert(steps@ =~= move_steps(prev, ev, k as nat));
                }
            }
            proof {
                assert(steps@ == approach_steps(anchor, ev));
            }
        },
    }
    match ev.button {
        None => {
            proof {
                assert(steps@ =~= event_steps(anchor, ev));
            }
        },
        Some(b) => {
            steps.push(SimStep::ButtonPress { button: b });
            steps.push(SimStep::Sleep { millis: CLICK_DWELL_MS });
            steps.push(SimStep::ButtonRelease { button: b });
            proof {
                assert(steps@ =~= event_steps(anchor, ev));
            }
        },
    }
    steps
}

/// Computes the playback plan for the whole recorded queue, starting from
/// the current anchor: one `EventPlan` per queued event, in queue order.
/// An empty queue yields an empty plan, so replaying it injects nothing and
/// trivially succeeds. The state itself is untouched; the caller records
/// progress with [`crate::state::mark_event_played`] as it executes.
pub fn playback_events(state: &MouseListenerState) -> (plans: Vec<EventPlan>)
    requires
        state@.wf(),
    ensures
        plans@.len() == state@.event_queue.len(),
        forall|i: int|
            0 <= i < plans@.len() ==> (#[trigger] plans@[i]).event == state@.event_queue[i],
        forall|i: int|
            0 <= i < plans@.len() ==> (#[trigger] plans@[i]).steps@ == session_plan(
                state@.last_event_played,
                state@.event_queue,
            )[i],
{
    let ghost q = state@.event_queue;
    let ghost last = state@.last_event_played;
    let mut plans: Vec<EventPlan> = Vec::new();
    let mut anchor: Option<MouseEvent> = state.last_event_played;
    let n: usize = state.event_queue.len();
    let mut i: usize = 0;
    while i < n
        invariant
            n == q.len(),
            q == state@.event_queue,
            last == state@.last_event_played,
            state@.wf(),
            i <= n,
            plans@.len() == i,
            anchor == anchor_before(last, q, i as int),
            anchor matches Some(prev) ==> prev.valid(),
            forall|j: int| 0 <= j < i ==> (#[trigger] plans@[j]).event == q[j],
            forall|j: int|
                0 <= j < i ==> (#[trigger] plans@[j]).steps@ == event_steps(
                    anchor_before(last, q, j),
                    q[j],
                ),
        decreases n - i,
    {
        let ev = state.event_queue[i];
        let steps = event_plan(anchor, ev);
        plans.push(EventPlan { steps, event: ev });
        anchor = Some(ev);
        i = i + 1;
    }
    proof {
        assert(forall|i: int|
            0 <= i < plans@.len() ==> (#[trigger] plans@[i]).steps@ == session_plan(last, q)[i]);
    }
    plans
}

/// The shape of an interpolated approach: `2k` entries, the moves at the
/// even positions with the k-th landing at
/// `prev + k * ((curr - prev) / 10)` on each coordinate, and a 10 ms pause
/// after each move. In particular a full approach holds exactly ten moves.
pub proof fn lemma_move_steps_shape(prev: MouseEvent, curr: MouseEvent, k: nat)
    requires
        prev.valid(),
        curr.valid(),
        k <= INTERP_STEPS,
    ensures
        move_steps(prev, curr, k).len() == 2 * k,
        forall|i: int|
            0 <= i < k ==> #[trigger] move_steps(prev, curr, k)[2 * i] == (SimStep::MouseMove {
                x: interp_coord(prev.x as int, curr.x as int, i + 1) as i64,
                y: interp_coord(prev.y as int, curr.y as int, i + 1) as i64,
            }),
        forall|i: int|
            0 <= i < k ==> #[trigger] move_steps(prev, curr, k)[2 * i + 1] == (SimStep::Sleep {
                millis: INTERP_PAUSE_MS,
            }),
    decreases k,
{
    if k == 0 {
    } else {
        lemma_move_steps_shape(prev, curr, (k - 1) as nat);
    }
}

/// The interpolation law. With no anchor, replaying an event synthesizes
/// exactly one move, straight to the event's position, before the click.
/// With an anchor, it synthesizes exactly ten moves, the k-th (1-indexed)
/// landing at `prev + k * ((curr - prev) / 10)` on each coordinate.
pub proof fn lemma_interpolation(anchor: Option<MouseEvent>, ev: MouseEvent)
    requires
        anchor matches Some(prev) ==> prev.valid(),
        ev.valid(),
    ensures
        anchor is None ==> approach_steps(anchor, ev) =~= seq![
            SimStep::MouseMove { x: ev.x, y: ev.y },
        ],
        anchor matches Some(prev) ==> {
            &&& approach_steps(anchor, ev).len() == 2 * INTERP_STEPS
            &&& forall|k: int|
                1 <= k <= INTERP_STEPS ==> #[trigger] approach_steps(anchor, ev)[2 * (k - 1)]
                    == (SimStep::MouseMove {
                    x: interp_coord(prev.x as int, ev.x as int, k) as i64,
                    y: interp_coord(prev.y as int, ev.y as int, k) as i64,
                })
            &&& forall|k: int|
                1 <= k <= INTERP_STEPS ==> #[trigger] approach_steps(anchor, ev)[2 * (k - 1) + 1]
                    == (SimStep::Sleep { millis: INTERP_PAUSE_MS })
        },
        event_steps(anchor, ev) == approach_steps(anchor, ev) + click_steps(ev.button),
{
    match anchor {
        None => {},
        Some(prev) => {
            lemma_move_steps_shape(prev, ev, INTERP_STEPS as nat);
            assert forall|k: int| 1 <= k <= INTERP_STEPS implies #[trigger] approach_steps(
                anchor,
                ev,
            )[2 * (k - 1)] == (SimStep::MouseMove {
                x: interp_coord(prev.x as int, ev.x as int, k) as i64,
                y: interp_coord(prev.y as int, ev.y as int, k) as i64,
            }) by {
                assert(move_steps(prev, ev, INTERP_STEPS as nat)[2 * (k - 1)]
                    == (SimStep::MouseMove {
                    x: interp_coord(prev.x as int, ev.x as int, (k - 1) + 1) as i64,
                    y: interp_coord(prev.y as int, ev.y as int, (k - 1) + 1) as i64,
                }));
            }
            assert forall|k: int| 1 <= k <= INTERP_STEPS implies #[trigger] approach_steps(
                anchor,
                ev,
            )[2 * (k - 1) + 1] == (SimStep::Sleep { millis: INTERP_PAUSE_MS }) by {
                assert(move_steps(prev, ev, INTERP_STEPS as nat)[2 * ((k - 1) as int) + 1]
                    == (SimStep::Sleep { millis: INTERP_PAUSE_MS }));
            }
        },
    }
}

/// After the queue is cleared, a replay has nothing to do: the session plan
/// is empty, so no synthetic event is injected and the replay trivially
/// succeeds.
pub proof fn lemma_play_after_clear(s: crate::state::StateModel)
    ensures
        session_plan(
            crate::state::clear_queue_spec(s).last_event_played,
            crate::state::clear_queue_spec(s).event_queue,
        ) =~= Seq::<Seq<SimStep>>::empty(),
{
}

} // verus!
