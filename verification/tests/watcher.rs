use stasis::config::model::{
    IdleAction, IdleActionBlock, LidCloseAction, LidOpenAction, StasisConfig,
};
use stasis::engine::manager::effects::Effect;
use stasis::engine::manager::tasks::{
    end_lock, idle_task_step, later, lock_watcher_step, sleep_deadline, IdleEvent, IdleRequest,
    WatcherEvent, WatcherPhase, WatcherRequest,
};
use stasis::engine::manager::Manager;
use std::sync::Arc;

fn block(name: &str, kind: IdleAction, timeout: u64, command: &str) -> IdleActionBlock {
    IdleActionBlock {
        name: name.to_string(),
        timeout,
        command: command.to_string(),
        kind,
        resume_command: None,
        last_triggered: None,
    }
}

fn manager(actions: Vec<IdleActionBlock>) -> Manager {
    let cfg = StasisConfig {
        actions,
        pre_suspend_command: None,
        monitor_media: true,
        ignore_remote_media: true,
        respect_wayland_inhibitors: true,
        inhibit_apps: vec![],
        debounce_seconds: 3,
        lid_close_action: LidCloseAction::Ignore,
        lid_open_action: LidOpenAction::Ignore,
    };
    Manager::new(Arc::new(cfg), 0)
}

fn locking_manager() -> Manager {
    manager(vec![
        block("dpms", IdleAction::Dpms, 10, "off"),
        block("lock_screen", IdleAction::LockScreen, 20, "locker"),
        block("suspend", IdleAction::Suspend, 30, "sleep"),
    ])
}

#[test]
fn lock_command_is_taken_from_the_configuration() {
    let mgr = locking_manager();
    assert_eq!(mgr.state.lock_state.command, Some("locker".to_string()));
    assert!(!mgr.state.lock_state.is_locked);
}

#[test]
fn watcher_waits_for_a_lock() {
    let mut mgr = locking_manager();
    let step = lock_watcher_step(&mut mgr, WatcherPhase::Idle, WatcherEvent::Wake);
    assert_eq!(step.phase, WatcherPhase::Idle);
    assert_eq!(step.request, WatcherRequest::AwaitLock);
    assert_eq!(step.effects, vec![]);
}

#[test]
fn watcher_supervises_an_active_lock() {
    let mut mgr = locking_manager();
    mgr.state.lock_state.is_locked = true;
    let step = lock_watcher_step(&mut mgr, WatcherPhase::Idle, WatcherEvent::Wake);
    assert_eq!(step.phase, WatcherPhase::Supervising);
    assert_eq!(step.request, WatcherRequest::CheckProcess { command: "locker".to_string() });
    let step = lock_watcher_step(
        &mut mgr,
        WatcherPhase::Supervising,
        WatcherEvent::Liveness { alive: Some(true) },
    );
    assert_eq!(step.phase, WatcherPhase::Supervising);
    assert_eq!(step.request, WatcherRequest::AwaitPoll { within_ms: 500 });
    assert!(mgr.state.lock_state.is_locked);
    let step = lock_watcher_step(&mut mgr, WatcherPhase::Supervising, WatcherEvent::Wake);
    assert_eq!(step.request, WatcherRequest::CheckProcess { command: "locker".to_string() });
}

#[test]
fn watcher_assumes_alive_without_a_command() {
    let mut mgr = locking_manager();
    mgr.state.lock_state.is_locked = true;
    mgr.state.lock_state.command = None;
    let step = lock_watcher_step(&mut mgr, WatcherPhase::Supervising, WatcherEvent::Wake);
    assert_eq!(step.phase, WatcherPhase::Supervising);
    assert_eq!(step.request, WatcherRequest::AssumeAlive { after_ms: 500 });
}

#[test]
fn liveness_loss_resets_cursor_and_lock() {
    for cursor in [0usize, 1, 2, 7] {
        for alive in [Some(false), None] {
            let mut mgr = locking_manager();
            mgr.state.action_index = cursor;
            mgr.state.cascade_done = true;
            mgr.state.lock_state.is_locked = true;
            mgr.state.lock_state.pid = Some(99);
            mgr.state.lock_state.post_advanced = true;
            let step = lock_watcher_step(
                &mut mgr,
                WatcherPhase::Supervising,
                WatcherEvent::Liveness { alive },
            );
            assert_eq!(mgr.state.action_index, 0);
            assert!(!mgr.state.lock_state.is_locked);
            assert_eq!(mgr.state.lock_state.pid, None);
            assert!(!mgr.state.lock_state.post_advanced);
            assert!(!mgr.state.cascade_done);
            assert_eq!(step.phase, WatcherPhase::Idle);
            assert_eq!(step.request, WatcherRequest::AwaitLock);
            assert_eq!(step.effects, vec![Effect::WakeIdle]);
        }
    }
}

#[test]
fn watcher_returns_to_idle_when_unlocked_elsewhere() {
    let mut mgr = locking_manager();
    let step = lock_watcher_step(&mut mgr, WatcherPhase::Supervising, WatcherEvent::Wake);
    assert_eq!(step.phase, WatcherPhase::Idle);
    assert_eq!(step.request, WatcherRequest::AwaitLock);
}

#[test]
fn watcher_stops_on_shutdown() {
    for phase in [WatcherPhase::Idle, WatcherPhase::Supervising, WatcherPhase::Stopped] {
        let mut mgr = locking_manager();
        mgr.state.lock_state.is_locked = true;
        mgr.state.action_index = 2;
        let step = lock_watcher_step(&mut mgr, phase, WatcherEvent::Shutdown);
        assert_eq!(step.phase, WatcherPhase::Stopped);
        assert_eq!(step.request, WatcherRequest::Exit);
        assert_eq!(step.effects, vec![]);
        assert!(mgr.state.lock_state.is_locked);
        assert_eq!(mgr.state.action_index, 2);
    }
    let mut mgr = locking_manager();
    let step = lock_watcher_step(&mut mgr, WatcherPhase::Stopped, WatcherEvent::Wake);
    assert_eq!(step.phase, WatcherPhase::Stopped);
    assert_eq!(step.request, WatcherRequest::Exit);
}

#[test]
fn end_lock_resets() {
    let mut mgr = locking_manager();
    mgr.state.action_index = 2;
    mgr.state.lock_state.is_locked = true;
    end_lock(&mut mgr);
    assert_eq!(mgr.state.action_index, 0);
    assert!(!mgr.state.lock_state.is_locked);
}

#[test]
fn sleep_deadline_is_clamped() {
    assert_eq!(sleep_deadline(None, 1_000), 61_000);
    assert_eq!(sleep_deadline(Some(500), 1_000), 1_050);
    assert_eq!(sleep_deadline(Some(1_000), 1_000), 1_050);
    assert_eq!(sleep_deadline(Some(1_001), 1_000), 1_001);
    assert_eq!(sleep_deadline(Some(61_000), 1_000), 61_000);
    assert_eq!(sleep_deadline(Some(61_001), 1_000), 61_000);
    assert_eq!(sleep_deadline(None, u64::MAX - 5), u64::MAX);
    assert_eq!(later(10, 5), 15);
    assert_eq!(later(u64::MAX, 5), u64::MAX);
}

#[test]
fn next_action_instant_is_the_earliest_deadline() {
    let mut mgr = manager(vec![
        block("dpms", IdleAction::Dpms, 10, "off"),
        block("ac.dpms", IdleAction::Dpms, 5, "off"),
        block("battery.suspend", IdleAction::Suspend, 7, "sleep"),
    ]);
    mgr.state.last_activity = 1_000;
    // Every block counts, active or not.
    assert_eq!(mgr.next_action_instant(), Some(6_000));
    mgr.state.ac_actions[0].last_triggered = Some(100_000);
    assert_eq!(mgr.next_action_instant(), Some(8_000));
    mgr.state.battery_actions[0].last_triggered = Some(u64::MAX - 1);
    assert_eq!(mgr.next_action_instant(), Some(11_000));
    mgr.state.default_actions[0].timeout = u64::MAX;
    assert_eq!(mgr.next_action_instant(), Some(105_000));
    mgr.state.paused = true;
    assert_eq!(mgr.next_action_instant(), None);
    let empty = manager(vec![block("startup", IdleAction::Custom, 0, "x")]);
    assert_eq!(empty.next_action_instant(), None);
}

#[test]
fn idle_task_evaluates_only_at_deadline() {
    let mut mgr = locking_manager();
    let step = idle_task_step(&mut mgr, IdleEvent::Woken, 0);
    assert_eq!(step.request, IdleRequest::SleepUntil { deadline: 10_000 });
    assert_eq!(step.effects, vec![]);
    let step = idle_task_step(&mut mgr, IdleEvent::Woken, 10_000);
    assert_eq!(step.effects, vec![]);
    assert_eq!(mgr.state.action_index, 0);
    assert_eq!(step.request, IdleRequest::SleepUntil { deadline: 10_050 });
    let step = idle_task_step(&mut mgr, IdleEvent::DeadlineReached, 10_000);
    assert_eq!(step.effects, vec![Effect::SpawnCommand { command: "off".to_string() }]);
    assert_eq!(mgr.state.action_index, 1);
    // The first action was stamped at 10 s, so its own deadline at 20 s is
    // the earliest one.
    assert_eq!(step.request, IdleRequest::SleepUntil { deadline: 20_000 });
    let step = idle_task_step(&mut mgr, IdleEvent::Shutdown, 10_000);
    assert_eq!(step.request, IdleRequest::Exit);
    assert_eq!(mgr.state.action_index, 1);
    mgr.state.paused = true;
    let step = idle_task_step(&mut mgr, IdleEvent::DeadlineReached, 100_000);
    assert_eq!(step.effects, vec![]);
    assert_eq!(step.request, IdleRequest::SleepUntil { deadline: 160_000 });
}
