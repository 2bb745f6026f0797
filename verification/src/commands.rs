//! The command surface: the operations a UI layer drives the engine with.
//!
//! `dispatch` applies one command to the engine state and tells the
//! embedding binary what outside work follows: spawn or tear down the
//! capture worker or the loop task, run a playback plan, or nothing. The
//! binary performs exactly that work — so a worker or task is spawned only
//! on the transition from absent to present, which keeps both unique — and
//! for a single-shot playback it fires the one `playback_ended`
//! notification whether or not the plan ran to completion.

use vstd::prelude::*;

use crate::state::{
    clear_queue, clear_queue_spec, reset_last_played_spec, start_capture_spec,
    start_loop_spec, start_mouse_listener, start_playback_loop, stop_capture_spec,
    stop_loop_spec, stop_mouse_listener, stop_playback_loop, MouseListenerState, StateModel,
};

verus! {

/// One command from the UI layer.
#[derive(Clone, Copy, Debug, PartialEq, Eq)]
pub enum Command {
    StartCapture,
    StopCapture,
    /// Replay the queue once from the current anchor.
    PlayOnce,
    /// Replay from a fresh anchor: in a loop when `loop_playback`,
    /// otherwise once, ending in a `playback_ended` notification.
    StartPlayback { loop_playback: bool },
    StopPlayback,
    ClearQueue,
}

/// The outside work one command leaves to the embedding binary.
#[derive(Clone, Copy, Debug, PartialEq, Eq)]
pub enum EngineAction {
    /// Spawn the dedicated OS thread that installs the input hook and runs
    /// the capture worker.
    SpawnCaptureWorker,
    /// A worker already exists; log and do nothing.
    CaptureAlreadyRunning,
    /// Ask the platform to unwind the hook; join the worker thread iff
    /// `join_worker`.
    StopCaptureWorker { join_worker: bool },
    /// Compute the playback plan and execute it, logging any simulation
    /// error.
    RunPlayback,
    /// Compute the playback plan, execute it, and then fire exactly one
    /// `playback_ended` notification, whether or not every step succeeded.
    RunPlaybackThenNotify,
    /// Spawn the cooperative task that replays the queue while the
    /// playback flag stays raised.
    SpawnPlaybackLoop,
    /// A loop task already exists; log and do nothing.
    PlaybackAlreadyLooping,
    /// Abort the loop task at its next suspension point.
    AbortPlaybackLoop,
    /// No loop task was running; log and do nothing.
    PlaybackNotRunning,
    /// The queue was emptied; nothing outside the state changes.
    QueueCleared,
}

/// What one command does: the state after it, and the outside work it asks
/// for.
pub open spec fn dispatch_spec(s: StateModel, cmd: Command) -> (StateModel, EngineAction) {
    match cmd {
        Command::StartCapture => if s.thread_running {
            (s, EngineAction::CaptureAlreadyRunning)
        } else {
            (start_capture_spec(s), EngineAction::SpawnCaptureWorker)
        },
        Command::StopCapture => (
            stop_capture_spec(s),
            EngineAction::StopCaptureWorker { join_worker: s.thread_running },
        ),
        Command::PlayOnce => (s, EngineAction::RunPlayback),
        Command::StartPlayback { loop_playback } => if loop_playback {
            if s.playback_thread_running {
                (s, EngineAction::PlaybackAlreadyLooping)
            } else {
                (start_loop_spec(s), EngineAction::SpawnPlaybackLoop)
            }
        } else {
            (reset_last_played_spec(s), EngineAction::RunPlaybackThenNotify)
        },
        Command::StopPlayback => if s.playback_thread_running {
            (stop_loop_spec(s), EngineAction::AbortPlaybackLoop)
        } else {
            (stop_loop_spec(s), EngineAction::PlaybackNotRunning)
        },
        Command::ClearQueue => (clear_queue_spec(s), EngineAction::QueueCleared),
    }
}

/// Applies one command to the engine state and returns the outside work it
/// asks for. A single-shot playback request always comes back as
/// `RunPlaybackThenNotify`, so exactly one `playback_ended` notification
/// follows it regardless of how the plan's execution fares.
pub fn dispatch(state: &mut MouseListenerState, cmd: Command) -> (act: EngineAction)
    ensures
        (final(state)@, act) == dispatch_spec(old(state)@, cmd),
        old(state)@.wf() ==> final(state)@.wf(),
        cmd matches Command::StartPlayback { loop_playback } && !loop_playback ==> act
            is RunPlaybackThenNotify,
{
    match cmd {
        Command::StartCapture => {
            let started = start_mouse_listener(state);
            if started {
                EngineAction::SpawnCaptureWorker
            } else {
                EngineAction::CaptureAlreadyRunning
            }
        },
        Command::StopCapture => {
            let was_running = stop_mouse_listener(state);
            EngineAction::StopCaptureWorker { join_worker: was_running }
        },
        Command::PlayOnce => EngineAction::RunPlayback,
        Command::StartPlayback { loop_playback } => {
            if loop_playback {
                let started = start_playback_loop(state);
                if started {
                    EngineAction::SpawnPlaybackLoop
                } else {
                    EngineAction::PlaybackAlreadyLooping
                }
            } else {
                state.reset_last_event_played();
                EngineAction::RunPlaybackThenNotify
            }
        },
        Command::StopPlayback => {
            let was_running = stop_playback_loop(state);
            if was_running {
                EngineAction::AbortPlaybackLoop
            } else {
                EngineAction::PlaybackNotRunning
            }
        },
        Command::ClearQueue => {
            clear_queue(state);
            EngineAction::QueueCleared
        },
    }
}

/// The demonstrative echo of the command surface.
///
/// Relies on std's `format!`: formatting `"Hello, {}!"` with a string
/// argument yields the template with the argument in the placeholder's
/// place.
#[verifier::external_body]
pub fn greet(name: &str) -> (r: String)
    ensures
        r@ == "Hello, "@ + name@ + "!"@,
{
    format!("Hello, {}!", name)
}

/// The state after a whole sequence of commands.
pub open spec fn apply_commands(s: StateModel, cmds: Seq<Command>) -> StateModel
    decreases cmds.len(),
{
    if cmds.len() == 0 {
        s
    } else {
        apply_commands(dispatch_spec(s, cmds[0]).0, cmds.drop_first())
    }
}

/// How one action changes the number of live capture worker threads, when
/// the embedding binary does exactly what the action says.
pub open spec fn capture_worker_delta(a: EngineAction) -> int {
    match a {
        EngineAction::SpawnCaptureWorker => 1,
        EngineAction::StopCaptureWorker { join_worker } => if join_worker {
            -1
        } else {
            0
        },
        _ => 0,
    }
}

/// How one action changes the number of live loop playback tasks.
pub open spec fn loop_task_delta(a: EngineAction) -> int {
    match a {
        EngineAction::SpawnPlaybackLoop => 1,
        EngineAction::AbortPlaybackLoop => -1,
        _ => 0,
    }
}

/// The number of live capture worker threads after a command sequence,
/// starting from `w` of them.
pub open spec fn capture_workers_after(s: StateModel, w: int, cmds: Seq<Command>) -> int
    decreases cmds.len(),
{
    if cmds.len() == 0 {
        w
    } else {
        capture_workers_after(
            dispatch_spec(s, cmds[0]).0,
            w + capture_worker_delta(dispatch_spec(s, cmds[0]).1),
            cmds.drop_first(),
        )
    }
}

/// The number of live loop playback tasks after a command sequence,
/// starting from `l` of them.
pub open spec fn loop_tasks_after(s: StateModel, l: int, cmds: Seq<Command>) -> int
    decreases cmds.len(),
{
    if cmds.len() == 0 {
        l
    } else {
        loop_tasks_after(
            dispatch_spec(s, cmds[0]).0,
            l + loop_task_delta(dispatch_spec(s, cmds[0]).1),
            cmds.drop_first(),
        )
    }
}

/// Well-formedness is an invariant of the command surface: from a
/// well-formed state, any sequence of commands ends in a well-formed state.
pub proof fn lemma_commands_preserve_wf(s: StateModel, cmds: Seq<Command>)
    requires
        s.wf(),
    ensures
        apply_commands(s, cmds).wf(),
    decreases cmds.len(),
{
    if cmds.len() == 0 {
    } else {
        assert(dispatch_spec(s, cmds[0]).0.wf());
        lemma_commands_preserve_wf(dispatch_spec(s, cmds[0]).0, cmds.drop_first());
    }
}

/// Under every command interleaving, at most one capture worker and at most
/// one loop playback task exist: the live counts always equal the state's
/// presence bits, so they never leave {0, 1}. `w` and `l` are the counts
/// before the sequence runs; from a fresh state both are 0.
pub proof fn lemma_at_most_one_worker_and_task(s: StateModel, w: int, l: int, cmds: Seq<Command>)
    requires
        w == if s.thread_running { 1int } else { 0int },
        l == if s.playback_thread_running { 1int } else { 0int },
    ensures
        capture_workers_after(s, w, cmds) == if apply_commands(s, cmds).thread_running {
            1int
        } else {
            0int
        },
        loop_tasks_after(s, l, cmds) == if apply_commands(s, cmds).playback_thread_running {
            1int
        } else {
            0int
        },
    decreases cmds.len(),
{
    if cmds.len() == 0 {
    } else {
        let s2 = dispatch_spec(s, cmds[0]).0;
        let a = dispatch_spec(s, cmds[0]).1;
        lemma_at_most_one_worker_and_task(
            s2,
            w + capture_worker_delta(a),
            l + loop_task_delta(a),
            cmds.drop_first(),
        );
    }
}

/// A single-shot playback request always asks for the run-then-notify
/// action, whatever state the engine is in — so `playback_ended` fires
/// exactly once per such request, simulation errors or not.
pub proof fn lemma_single_shot_always_notifies(s: StateModel)
    ensures
        dispatch_spec(s, Command::StartPlayback { loop_playback: false }).1
            == EngineAction::RunPlaybackThenNotify,
{
}

} // verus!
