use stasis::config::model::{
    AppInhibitPattern, IdleAction, IdleActionBlock, LidCloseAction, LidOpenAction, StasisConfig,
};
use stasis::engine::manager::effects::Effect;
use stasis::engine::manager::helpers::{lock_launched, run_action, trigger_all_idle_actions};
use stasis::engine::manager::state::ActionBlock;
use stasis::engine::manager::Manager;
use std::sync::Arc;

fn action(name: &str, kind: IdleAction, timeout: u64, command: &str) -> IdleActionBlock {
    IdleActionBlock {
        name: name.to_string(),
        timeout,
        command: command.to_string(),
        kind,
        resume_command: None,
        last_triggered: None,
    }
}

fn config(actions: Vec<IdleActionBlock>, debounce_seconds: u8) -> Arc<StasisConfig> {
    Arc::new(StasisConfig {
        actions,
        pre_suspend_command: None,
        monitor_media: true,
        ignore_remote_media: true,
        respect_wayland_inhibitors: true,
        inhibit_apps: Vec::<AppInhibitPattern>::new(),
        debounce_seconds,
        lid_close_action: LidCloseAction::Ignore,
        lid_open_action: LidOpenAction::Ignore,
    })
}

fn dim_lock_suspend() -> Vec<IdleActionBlock> {
    vec![
        action("brightness", IdleAction::Brightness, 30, "dim"),
        action("lock_screen", IdleAction::LockScreen, 60, "locker"),
        action("suspend", IdleAction::Suspend, 300, "systemctl suspend"),
    ]
}

#[test]
fn cascade_accumulates_timeouts() {
    let mut mgr = Manager::new(config(dim_lock_suspend(), 3), 0);
    assert_eq!(mgr.check_timeouts(29_999), vec![]);
    assert_eq!(mgr.state.action_index, 0);
    assert_eq!(
        mgr.check_timeouts(30_000),
        vec![Effect::CaptureBrightness, Effect::SpawnCommand { command: "dim".to_string() }]
    );
    assert_eq!(mgr.state.action_index, 1);
    assert_eq!(mgr.state.default_actions[0].last_triggered, Some(30_000));
    assert_eq!(mgr.state.default_actions[1].last_triggered, Some(30_000));
    // 60 s after the baseline the lock has not yet counted its own 60 s.
    assert_eq!(mgr.check_timeouts(60_000), vec![]);
    assert_eq!(mgr.check_timeouts(89_999), vec![]);
    assert_eq!(
        mgr.check_timeouts(90_000),
        vec![Effect::NotifyLockWatcher, Effect::SpawnLock { command: "locker".to_string() }]
    );
    assert!(mgr.state.lock_state.is_locked);
    assert_eq!(mgr.state.action_index, 2);
    assert_eq!(mgr.check_timeouts(300_000), vec![]);
    assert_eq!(mgr.check_timeouts(389_999), vec![]);
    assert_eq!(
        mgr.check_timeouts(390_000),
        vec![Effect::SpawnCommand { command: "systemctl suspend".to_string() }]
    );
    assert_eq!(mgr.state.action_index, 2);
    assert!(mgr.state.cascade_done);
}

#[test]
fn cascade_stops_after_last_action_until_reset() {
    let mut mgr = Manager::new(config(dim_lock_suspend(), 3), 0);
    mgr.check_timeouts(30_000);
    mgr.check_timeouts(90_000);
    mgr.check_timeouts(390_000);
    assert_eq!(mgr.check_timeouts(690_000), vec![]);
    assert_eq!(mgr.check_timeouts(10_000_000), vec![]);
    mgr.state.lock_state.is_locked = false;
    mgr.reset(10_000_000);
    assert!(!mgr.state.cascade_done);
    assert_eq!(mgr.state.action_index, 0);
}

#[test]
fn reset_while_locked_moves_past_lock() {
    let mut mgr = Manager::new(config(dim_lock_suspend(), 3), 0);
    mgr.check_timeouts(30_000);
    mgr.state.action_index = 1;
    mgr.state.lock_state.is_locked = true;
    let effects = mgr.reset(100_000);
    assert_eq!(mgr.state.action_index, 2);
    assert_eq!(mgr.state.default_actions[2].last_triggered, Some(103_000));
    assert!(mgr.state.lock_state.post_advanced);
    assert_eq!(mgr.state.debounce, Some(103_000));
    assert_eq!(mgr.state.last_activity, 100_000);
    assert_eq!(mgr.state.default_actions[0].last_triggered, None);
    assert_eq!(mgr.state.default_actions[1].last_triggered, None);
    assert_eq!(effects, vec![Effect::WakeIdle]);
}

#[test]
fn reset_restores_brightness_first() {
    let mut mgr = Manager::new(config(dim_lock_suspend(), 3), 0);
    mgr.state.previous_brightness = Some(80);
    let effects = mgr.reset(5_000);
    assert_eq!(effects, vec![Effect::RestoreBrightness { level: 80 }, Effect::WakeIdle]);
    assert_eq!(mgr.state.previous_brightness, None);
}

#[test]
fn reset_without_config_does_nothing() {
    let mut mgr = Manager::new(config(dim_lock_suspend(), 3), 0);
    mgr.state.cfg = None;
    mgr.state.action_index = 2;
    assert_eq!(mgr.reset(5_000), vec![]);
    assert_eq!(mgr.state.action_index, 2);
    assert_eq!(mgr.state.debounce, None);
}

#[test]
fn debounce_holds_the_cascade_and_rebases() {
    let mut mgr = Manager::new(config(dim_lock_suspend(), 3), 0);
    mgr.reset(100_000);
    assert_eq!(mgr.check_timeouts(102_999), vec![]);
    assert_eq!(mgr.state.debounce, Some(103_000));
    assert_eq!(mgr.check_timeouts(104_000), vec![]);
    assert_eq!(mgr.state.debounce, None);
    assert_eq!(mgr.state.last_activity, 104_000);
    assert_eq!(mgr.check_timeouts(133_999), vec![]);
    assert_eq!(mgr.check_timeouts(134_000).len(), 2);
}

#[test]
fn power_source_without_profiles_keeps_default() {
    let mut mgr = Manager::new(config(dim_lock_suspend(), 3), 0);
    let effects = mgr.update_power_source(true);
    assert_eq!(effects, vec![Effect::WakeIdleAll]);
    assert_eq!(mgr.state.on_battery, Some(true));
    assert_eq!(mgr.state.active_block(), ActionBlock::Default);
    assert_eq!(mgr.state.current_block, Some(ActionBlock::Default));
    assert_eq!(mgr.check_timeouts(30_000).len(), 2);
    assert_eq!(mgr.state.default_actions[0].last_triggered, Some(30_000));
}

#[test]
fn power_source_selects_profile() {
    let actions = vec![
        action("ac.dpms", IdleAction::Dpms, 120, "screen off"),
        action("battery.dpms", IdleAction::Dpms, 20, "screen off"),
        action("battery.suspend", IdleAction::Suspend, 60, "sleep"),
        action("startup", IdleAction::Custom, 0, "hello"),
    ];
    let mut mgr = Manager::new(config(actions, 0), 0);
    assert_eq!(mgr.state.ac_actions.len(), 1);
    assert_eq!(mgr.state.battery_actions.len(), 2);
    assert_eq!(mgr.state.default_actions.len(), 0);
    assert_eq!(mgr.state.instant_actions.len(), 1);
    assert_eq!(mgr.state.active_block(), ActionBlock::Default);
    mgr.update_power_source(false);
    assert_eq!(mgr.state.active_block(), ActionBlock::Ac);
    assert_eq!(mgr.update_power_source(false), vec![]);
    mgr.state.action_index = 1;
    mgr.state.instants_triggered = true;
    mgr.update_power_source(true);
    assert_eq!(mgr.state.active_block(), ActionBlock::Battery);
    assert_eq!(mgr.state.action_index, 0);
    assert!(!mgr.state.instants_triggered);
    assert_eq!(
        mgr.check_timeouts(20_000),
        vec![Effect::SpawnCommand { command: "screen off".to_string() }]
    );
    assert_eq!(mgr.state.battery_actions[0].last_triggered, Some(20_000));
    assert_eq!(mgr.state.ac_actions[0].last_triggered, None);
}

#[test]
fn lock_is_not_fired_twice() {
    let mut mgr = Manager::new(config(dim_lock_suspend(), 3), 0);
    mgr.state.action_index = 1;
    mgr.state.lock_state.is_locked = true;
    assert_eq!(mgr.check_timeouts(1_000_000), vec![]);
    assert_eq!(mgr.state.action_index, 1);
    assert_eq!(mgr.state.default_actions[1].last_triggered, None);
}

#[test]
fn run_action_orders_lock_effects() {
    let mut mgr = Manager::new(config(dim_lock_suspend(), 3), 0);
    let lock = action("lock_screen", IdleAction::LockScreen, 60, "locker");
    let effects = run_action(&mut mgr, &lock);
    assert_eq!(
        effects,
        vec![Effect::NotifyLockWatcher, Effect::SpawnLock { command: "locker".to_string() }]
    );
    assert!(mgr.state.lock_state.is_locked);
    assert_eq!(mgr.state.lock_state.pid, None);
    lock_launched(&mut mgr.state, Some(4242));
    assert_eq!(mgr.state.lock_state.pid, Some(4242));
    lock_launched(&mut mgr.state, None);
    assert_eq!(mgr.state.lock_state.pid, Some(4242));
    assert!(mgr.state.lock_state.is_locked);
}

#[test]
fn trigger_all_fires_everything_once() {
    let mut mgr = Manager::new(config(dim_lock_suspend(), 3), 0);
    let effects = trigger_all_idle_actions(&mut mgr, 7_000);
    assert_eq!(
        effects,
        vec![
            Effect::CaptureBrightness,
            Effect::SpawnCommand { command: "dim".to_string() },
            Effect::NotifyLockWatcher,
            Effect::SpawnLock { command: "locker".to_string() },
            Effect::SpawnCommand { command: "systemctl suspend".to_string() },
        ]
    );
    assert_eq!(mgr.state.action_index, 2);
    assert!(mgr.state.cascade_done);
    assert!(mgr.state.lock_state.is_locked);
    for a in &mgr.state.default_actions {
        assert_eq!(a.last_triggered, Some(7_000));
    }
    // A second round passes over the lock, which is still active.
    let again = trigger_all_idle_actions(&mut mgr, 8_000);
    assert_eq!(
        again,
        vec![
            Effect::CaptureBrightness,
            Effect::SpawnCommand { command: "dim".to_string() },
            Effect::SpawnCommand { command: "systemctl suspend".to_string() },
        ]
    );
}

#[test]
fn trigger_all_on_empty_block_does_nothing() {
    let mut mgr = Manager::new(config(vec![action("x", IdleAction::Custom, 0, "x")], 3), 0);
    assert_eq!(trigger_all_idle_actions(&mut mgr, 7_000), vec![]);
    assert_eq!(mgr.state.action_index, 0);
    assert!(!mgr.state.cascade_done);
}
