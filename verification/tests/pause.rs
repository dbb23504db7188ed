use stasis::config::model::{
    IdleAction, IdleActionBlock, LidCloseAction, LidOpenAction, StasisConfig,
};
use stasis::engine::manager::effects::Effect;
use stasis::engine::manager::helpers::{
    brightness_reading, capture_brightness, get_compositor_manager, get_manual_inhibit,
    lock_still_active, restore_brightness, run_action, set_compositor_manager,
    set_manual_inhibit, sysfs_level, update_lock_state, wake_idle_tasks,
};
use stasis::engine::manager::Manager;
use std::sync::Arc;

fn one_action_manager() -> Manager {
    let cfg = StasisConfig {
        actions: vec![IdleActionBlock {
            name: "dpms".to_string(),
            timeout: 10,
            command: "screen off".to_string(),
            kind: IdleAction::Dpms,
            resume_command: None,
            last_triggered: None,
        }],
        pre_suspend_command: Some("lock-now".to_string()),
        monitor_media: true,
        ignore_remote_media: true,
        respect_wayland_inhibitors: true,
        inhibit_apps: vec![],
        debounce_seconds: 3,
        lid_close_action: LidCloseAction::Ignore,
        lid_open_action: LidOpenAction::Ignore,
    };
    Manager::new(Arc::new(cfg), 0)
}

#[test]
fn manual_pause_dominates_automatic_resume() {
    let mut mgr = one_action_manager();
    assert_eq!(mgr.pause(true), vec![Effect::WakeIdleAll]);
    for _ in 0..5 {
        assert_eq!(mgr.resume(false), vec![]);
        assert!(mgr.state.manually_paused);
        assert!(!mgr.state.paused);
    }
    assert_eq!(mgr.check_timeouts(1_000_000), vec![]);
    assert_eq!(mgr.state.action_index, 0);
    assert_eq!(mgr.state.default_actions[0].last_triggered, None);
    assert_eq!(mgr.next_action_instant(), None);
}

#[test]
fn manual_pause_clears_automatic_pause() {
    let mut mgr = one_action_manager();
    assert_eq!(mgr.pause(false), vec![Effect::WakeIdleAll]);
    assert!(mgr.state.paused);
    assert_eq!(mgr.pause(false), vec![]);
    mgr.pause(true);
    assert!(mgr.state.manually_paused);
    assert!(!mgr.state.paused);
    // An automatic pause does not take hold under a manual one.
    assert_eq!(mgr.pause(false), vec![]);
    assert!(!mgr.state.paused);
}

#[test]
fn manual_resume_lifts_manual_pause() {
    let mut mgr = one_action_manager();
    mgr.pause(true);
    assert_eq!(mgr.resume(true), vec![Effect::WakeIdleAll]);
    assert!(!mgr.state.manually_paused);
    assert!(!mgr.state.paused);
    assert_eq!(mgr.resume(true), vec![]);
    assert_eq!(mgr.check_timeouts(10_000).len(), 1);
}

#[test]
fn automatic_pause_and_resume_toggle() {
    let mut mgr = one_action_manager();
    mgr.pause(false);
    assert_eq!(mgr.check_timeouts(10_000), vec![]);
    assert_eq!(mgr.resume(false), vec![Effect::WakeIdleAll]);
    assert!(!mgr.state.paused);
    assert_eq!(mgr.resume(false), vec![]);
}

#[test]
fn toggle_state_sets_and_lifts_inhibit() {
    let mut mgr = one_action_manager();
    mgr.toggle_state(true);
    assert!(get_manual_inhibit(&mut mgr.state));
    mgr.toggle_state(false);
    assert!(!get_manual_inhibit(&mut mgr.state));
}

#[test]
fn set_manual_inhibit_only_sets() {
    let mut mgr = one_action_manager();
    assert_eq!(set_manual_inhibit(&mut mgr, false), vec![]);
    assert!(!mgr.state.manually_paused);
    assert_eq!(set_manual_inhibit(&mut mgr, true), vec![Effect::WakeIdleAll]);
    assert!(mgr.state.manually_paused);
    assert_eq!(set_manual_inhibit(&mut mgr, false), vec![]);
    assert!(mgr.state.manually_paused);
}

#[test]
fn brightness_is_captured_once() {
    let mut mgr = one_action_manager();
    let dim = IdleActionBlock {
        name: "brightness".to_string(),
        timeout: 30,
        command: "dim".to_string(),
        kind: IdleAction::Brightness,
        resume_command: None,
        last_triggered: None,
    };
    let first = run_action(&mut mgr, &dim);
    assert_eq!(
        first,
        vec![Effect::CaptureBrightness, Effect::SpawnCommand { command: "dim".to_string() }]
    );
    capture_brightness(&mut mgr.state, Some(80));
    assert_eq!(mgr.state.previous_brightness, Some(80));
    let second = run_action(&mut mgr, &dim);
    assert_eq!(second, vec![Effect::SpawnCommand { command: "dim".to_string() }]);
    capture_brightness(&mut mgr.state, Some(5));
    assert_eq!(mgr.state.previous_brightness, Some(80));
    assert_eq!(restore_brightness(&mut mgr.state), vec![Effect::RestoreBrightness { level: 80 }]);
    assert_eq!(mgr.state.previous_brightness, None);
    assert_eq!(restore_brightness(&mut mgr.state), vec![]);
}

#[test]
fn brightness_levels_are_clamped() {
    let mut mgr = one_action_manager();
    capture_brightness(&mut mgr.state, None);
    assert_eq!(mgr.state.previous_brightness, None);
    capture_brightness(&mut mgr.state, Some(96_000));
    assert_eq!(mgr.state.previous_brightness, Some(255));
}

#[test]
fn brightness_readings_are_parsed() {
    assert_eq!(sysfs_level("120\n"), Some(120));
    assert_eq!(sysfs_level("  +7 "), Some(7));
    assert_eq!(sysfs_level("007"), Some(7));
    assert_eq!(sysfs_level(""), None);
    assert_eq!(sysfs_level("+"), None);
    assert_eq!(sysfs_level("12a"), None);
    assert_eq!(sysfs_level("-3"), None);
    assert_eq!(sysfs_level("4294967295"), Some(4294967295));
    assert_eq!(sysfs_level("4294967296"), None);
    assert_eq!(brightness_reading(Some("42\n"), None), Some(42));
    assert_eq!(brightness_reading(Some("oops"), Some("17\n")), Some(17));
    assert_eq!(brightness_reading(None, Some("garbage")), Some(0));
    assert_eq!(brightness_reading(Some("oops"), None), None);
    assert_eq!(brightness_reading(None, None), None);
}

#[test]
fn getters_and_setters() {
    let mut mgr = one_action_manager();
    assert!(!get_compositor_manager(&mut mgr.state));
    set_compositor_manager(&mut mgr.state, true);
    assert!(get_compositor_manager(&mut mgr.state));
    update_lock_state(&mut mgr.state, true);
    assert!(mgr.state.lock_state.is_locked);
    update_lock_state(&mut mgr.state, false);
    assert!(!mgr.state.lock_state.is_locked);
    assert_eq!(wake_idle_tasks(&mgr.state), Effect::WakeIdleAll);
}

#[test]
fn lock_still_active_needs_a_command() {
    let mut mgr = one_action_manager();
    assert_eq!(mgr.state.lock_state.command, None);
    assert!(!lock_still_active(&mgr.state, true));
    mgr.state.lock_state.command = Some("locker".to_string());
    assert!(lock_still_active(&mgr.state, true));
    assert!(!lock_still_active(&mgr.state, false));
}

#[test]
fn pre_suspend_runs_command_and_waits() {
    let mut mgr = one_action_manager();
    let effects = mgr.trigger_pre_suspend(false);
    assert_eq!(
        effects,
        vec![
            Effect::SpawnDetached { command: "lock-now".to_string() },
            Effect::Sleep { millis: 700 },
        ]
    );
    assert!(mgr.state.suspend_occured);
    let mut manual = one_action_manager();
    manual.trigger_pre_suspend(true);
    assert!(!manual.state.suspend_occured);
    manual.state.pre_suspend_command = None;
    assert_eq!(manual.trigger_pre_suspend(false), vec![]);
    assert!(manual.state.suspend_occured);
}

#[test]
fn shutdown_protocol() {
    let mut mgr = one_action_manager();
    assert_eq!(
        mgr.shutdown(),
        vec![Effect::SignalShutdown, Effect::Sleep { millis: 200 }, Effect::AbortTasks]
    );
}

#[test]
fn instant_actions_fire_once() {
    let cfg = StasisConfig {
        actions: vec![
            IdleActionBlock {
                name: "startup".to_string(),
                timeout: 0,
                command: "hello".to_string(),
                kind: IdleAction::Custom,
                resume_command: None,
                last_triggered: None,
            },
            IdleActionBlock {
                name: "dpms".to_string(),
                timeout: 10,
                command: "screen off".to_string(),
                kind: IdleAction::Dpms,
                resume_command: None,
                last_triggered: None,
            },
        ],
        pre_suspend_command: None,
        monitor_media: true,
        ignore_remote_media: true,
        respect_wayland_inhibitors: true,
        inhibit_apps: vec![],
        debounce_seconds: 3,
        lid_close_action: LidCloseAction::Ignore,
        lid_open_action: LidOpenAction::Ignore,
    };
    let mut mgr = Manager::new(Arc::new(cfg), 0);
    assert_eq!(mgr.state.default_actions.len(), 1);
    assert_eq!(
        mgr.trigger_instant_actions(),
        vec![Effect::SpawnCommand { command: "hello".to_string() }]
    );
    assert!(mgr.state.instants_triggered);
    assert_eq!(mgr.trigger_instant_actions(), vec![]);
    mgr.reset_instant_actions();
    assert!(!mgr.state.instants_triggered);
    assert_eq!(mgr.trigger_instant_actions().len(), 1);
}

#[test]
fn advance_past_lock_notes_the_moment() {
    let mut mgr = one_action_manager();
    mgr.advance_past_lock(77);
    assert!(mgr.state.lock_state.post_advanced);
    assert_eq!(mgr.state.lock_state.last_advanced, Some(77));
}
