use click4loop::commands::{dispatch, Command, EngineAction};
use click4loop::events::{MouseButton, MouseEvent};
use click4loop::state::{
    clear_queue, enqueue_event, mark_event_played, start_mouse_listener, start_playback_loop,
    stop_mouse_listener, stop_playback_loop, MouseListenerState,
};

fn left_click_at(x: i64, y: i64) -> MouseEvent {
    MouseEvent {
        x,
        y,
        button: Some(MouseButton::Left),
    }
}

#[test]
fn fresh_state_is_idle_and_empty() {
    let s = MouseListenerState::new();
    assert!(!s.stop_flag);
    assert!(!s.playback_flag);
    assert!(!s.thread_running);
    assert!(!s.playback_thread_running);
    assert!(s.event_queue.is_empty());
    assert!(s.last_event_played.is_none());
}

#[test]
fn start_capture_clears_queue_and_lowers_stop_flag() {
    let mut s = MouseListenerState::new();
    enqueue_event(&mut s, left_click_at(1, 2));
    s.stop_flag = true;
    let started = start_mouse_listener(&mut s);
    assert!(started);
    assert!(s.thread_running);
    assert!(!s.stop_flag);
    assert!(s.event_queue.is_empty());
}

#[test]
fn start_capture_twice_changes_nothing_more() {
    // start_capture; start_capture has the same observable state as one
    // start_capture, and the worker count stays one.
    let mut s = MouseListenerState::new();
    assert!(start_mouse_listener(&mut s));
    enqueue_event(&mut s, left_click_at(5, 6));
    let started_again = start_mouse_listener(&mut s);
    assert!(!started_again);
    assert!(s.thread_running);
    assert!(!s.stop_flag);
    assert_eq!(s.event_queue.len(), 1);
    assert_eq!(s.event_queue[0], left_click_at(5, 6));
}

#[test]
fn stop_capture_twice_is_stop_capture() {
    let mut s = MouseListenerState::new();
    assert!(start_mouse_listener(&mut s));
    let first = stop_mouse_listener(&mut s);
    assert!(first);
    assert!(s.stop_flag);
    assert!(!s.thread_running);
    let second = stop_mouse_listener(&mut s);
    assert!(!second);
    assert!(s.stop_flag);
    assert!(!s.thread_running);
}

#[test]
fn stop_then_start_yields_fresh_empty_queue() {
    let mut s = MouseListenerState::new();
    assert!(start_mouse_listener(&mut s));
    enqueue_event(&mut s, left_click_at(10, 20));
    enqueue_event(&mut s, left_click_at(30, 40));
    stop_mouse_listener(&mut s);
    assert_eq!(s.event_queue.len(), 2);
    assert!(start_mouse_listener(&mut s));
    assert!(s.event_queue.is_empty());
    assert!(!s.stop_flag);
    assert!(s.thread_running);
}

#[test]
fn stop_playback_loop_when_idle_is_a_noop() {
    let mut s = MouseListenerState::new();
    enqueue_event(&mut s, left_click_at(7, 8));
    let was_running = stop_playback_loop(&mut s);
    assert!(!was_running);
    assert!(!s.playback_flag);
    assert!(!s.playback_thread_running);
    assert_eq!(s.event_queue.len(), 1);
}

#[test]
fn loop_start_then_stop_clears_flag_and_handle() {
    let mut s = MouseListenerState::new();
    enqueue_event(&mut s, left_click_at(1, 1));
    enqueue_event(&mut s, left_click_at(2, 2));
    assert!(start_playback_loop(&mut s));
    assert!(s.playback_flag);
    assert!(s.playback_thread_running);
    let was_running = stop_playback_loop(&mut s);
    assert!(was_running);
    assert!(!s.playback_flag);
    assert!(!s.playback_thread_running);
}

#[test]
fn loop_start_twice_keeps_one_task() {
    let mut s = MouseListenerState::new();
    assert!(start_playback_loop(&mut s));
    assert!(!start_playback_loop(&mut s));
    assert!(s.playback_flag);
    assert!(s.playback_thread_running);
}

#[test]
fn capture_and_playback_flags_are_independent() {
    let mut s = MouseListenerState::new();
    assert!(start_mouse_listener(&mut s));
    assert!(start_playback_loop(&mut s));
    stop_mouse_listener(&mut s);
    assert!(s.playback_flag);
    assert!(s.playback_thread_running);
    stop_playback_loop(&mut s);
    assert!(s.stop_flag);
    assert!(!s.thread_running);
}

#[test]
fn clear_queue_empties_only_the_queue() {
    let mut s = MouseListenerState::new();
    enqueue_event(&mut s, left_click_at(10, 20));
    mark_event_played(&mut s, 0);
    clear_queue(&mut s);
    assert!(s.event_queue.is_empty());
    assert_eq!(s.last_event_played, Some(left_click_at(10, 20)));
}

#[test]
fn mark_event_played_sets_anchor_to_that_event() {
    let mut s = MouseListenerState::new();
    enqueue_event(&mut s, left_click_at(10, 20));
    enqueue_event(&mut s, left_click_at(30, 40));
    mark_event_played(&mut s, 1);
    assert_eq!(s.last_event_played, Some(left_click_at(30, 40)));
}

#[test]
fn reset_last_event_played_forgets_anchor() {
    let mut s = MouseListenerState::new();
    enqueue_event(&mut s, left_click_at(10, 20));
    mark_event_played(&mut s, 0);
    s.reset_last_event_played();
    assert!(s.last_event_played.is_none());
}

#[test]
fn dispatch_start_capture_spawns_once() {
    let mut s = MouseListenerState::new();
    let first = dispatch(&mut s, Command::StartCapture);
    assert_eq!(first, EngineAction::SpawnCaptureWorker);
    let second = dispatch(&mut s, Command::StartCapture);
    assert_eq!(second, EngineAction::CaptureAlreadyRunning);
    assert!(s.thread_running);
}

#[test]
fn dispatch_stop_capture_reports_join_need() {
    let mut s = MouseListenerState::new();
    dispatch(&mut s, Command::StartCapture);
    let stop = dispatch(&mut s, Command::StopCapture);
    assert_eq!(stop, EngineAction::StopCaptureWorker { join_worker: true });
    let stop_again = dispatch(&mut s, Command::StopCapture);
    assert_eq!(
        stop_again,
        EngineAction::StopCaptureWorker { join_worker: false }
    );
}

#[test]
fn dispatch_single_shot_always_notifies() {
    // The run-then-notify action comes back whatever the queue holds, so
    // exactly one playback_ended follows each single-shot request.
    let mut s = MouseListenerState::new();
    let act = dispatch(
        &mut s,
        Command::StartPlayback {
            loop_playback: false,
        },
    );
    assert_eq!(act, EngineAction::RunPlaybackThenNotify);
    assert!(s.last_event_played.is_none());

    enqueue_event(&mut s, left_click_at(10, 20));
    mark_event_played(&mut s, 0);
    let act2 = dispatch(
        &mut s,
        Command::StartPlayback {
            loop_playback: false,
        },
    );
    assert_eq!(act2, EngineAction::RunPlaybackThenNotify);
    assert!(s.last_event_played.is_none());
}

#[test]
fn dispatch_loop_commands() {
    let mut s = MouseListenerState::new();
    let start = dispatch(
        &mut s,
        Command::StartPlayback {
            loop_playback: true,
        },
    );
    assert_eq!(start, EngineAction::SpawnPlaybackLoop);
    let again = dispatch(
        &mut s,
        Command::StartPlayback {
            loop_playback: true,
        },
    );
    assert_eq!(again, EngineAction::PlaybackAlreadyLooping);
    let stop = dispatch(&mut s, Command::StopPlayback);
    assert_eq!(stop, EngineAction::AbortPlaybackLoop);
    let stop_again = dispatch(&mut s, Command::StopPlayback);
    assert_eq!(stop_again, EngineAction::PlaybackNotRunning);
}

#[test]
fn dispatch_play_once_and_clear() {
    let mut s = MouseListenerState::new();
    enqueue_event(&mut s, left_click_at(10, 20));
    let play = dispatch(&mut s, Command::PlayOnce);
    assert_eq!(play, EngineAction::RunPlayback);
    assert_eq!(s.event_queue.len(), 1);
    let clear = dispatch(&mut s, Command::ClearQueue);
    assert_eq!(clear, EngineAction::QueueCleared);
    assert!(s.event_queue.is_empty());
}
