use stasis::config::idle::{ConfigEntry, IdleAction, IdleActionKind, IdleConfig, KindSet};
use stasis::engine::build_idle_timer;
use stasis::engine::manager::effects::Effect;
use stasis::engine::timer::{idle_tick, tick_rate, IdleTimer};
use stasis::services::suspend::{resume_commands, suspend_signal};

fn entry(key: &str, kind: IdleActionKind, command: &str, timeout: u64) -> ConfigEntry {
    ConfigEntry {
        key: key.to_string(),
        action: IdleAction {
            kind,
            command: command.to_string(),
            timeout_seconds: timeout,
            resume_command: None,
        },
    }
}

fn desktop_config() -> IdleConfig {
    let mut suspend = entry("suspend", IdleActionKind::Suspend, "sleep", 300);
    suspend.action.resume_command = Some("wake-up".to_string());
    IdleConfig {
        actions: vec![
            entry("startup", IdleActionKind::Custom, "hello", 0),
            entry("lock_screen", IdleActionKind::LockScreen, "locker", 60),
            entry("desktop.my_script", IdleActionKind::Custom, "run.sh", 10),
            suspend,
        ],
        debounce_seconds: 2,
        pre_suspend_command: Some("lock-now".to_string()),
    }
}

fn profile_config() -> IdleConfig {
    IdleConfig {
        actions: vec![
            entry("ac.dpms", IdleActionKind::Dpms, "off", 120),
            entry("battery.dpms", IdleActionKind::Dpms, "off", 20),
            entry("battery.hello", IdleActionKind::Custom, "low power", 0),
            entry("other", IdleActionKind::Custom, "x", 5),
        ],
        debounce_seconds: 0,
        pre_suspend_command: None,
    }
}

fn spawn(command: &str) -> Effect {
    Effect::SpawnCommand { command: command.to_string() }
}

#[test]
fn timer_starts_with_desktop_actions() {
    let timer = IdleTimer::new(&desktop_config(), 5);
    assert!(timer.is_well_formed());
    assert_eq!(timer.actions.len(), 4);
    assert_eq!(timer.is_idle_flags, vec![false; 4]);
    assert_eq!(timer.triggered_actions, vec![None, None, None, None]);
    assert_eq!(timer.last_activity, 5);
    assert_eq!(timer.start_time, 5);
    assert!(timer.on_ac);
    assert_eq!(timer.active_kinds, KindSet::new());
    assert_eq!(timer.pre_suspend_command, Some("lock-now".to_string()));
    assert_eq!(build_idle_timer(&desktop_config(), 5), timer);
}

#[test]
fn timer_starts_with_ac_profile() {
    let timer = IdleTimer::new(&profile_config(), 0);
    assert_eq!(timer.ac_actions.len(), 1);
    assert_eq!(timer.battery_actions.len(), 2);
    assert_eq!(timer.actions, timer.ac_actions);
}

#[test]
fn instant_actions_fire_at_init() {
    let mut timer = IdleTimer::new(&desktop_config(), 0);
    assert_eq!(timer.init(), vec![spawn("hello")]);
    assert_eq!(timer.is_idle_flags, vec![true, false, false, false]);
    assert_eq!(timer.triggered_actions[0], Some(desktop_config().actions[0].action.clone()));
    assert!(timer.active_kinds.contains(IdleActionKind::Custom));
    assert_eq!(timer.trigger_instant_actions(), vec![]);
}

#[test]
fn elapsed_idle_respects_debounce() {
    let mut timer = IdleTimer::new(&desktop_config(), 1_000);
    assert_eq!(timer.elapsed_idle(4_000), 3_000);
    assert_eq!(timer.elapsed_idle(500), 0);
    timer.debounce_until = Some(5_000);
    assert_eq!(timer.elapsed_idle(4_999), 0);
    assert_eq!(timer.elapsed_idle(5_000), 4_000);
}

#[test]
fn check_idle_waits_for_idle_debounce() {
    let mut timer = IdleTimer::new(&desktop_config(), 0);
    assert_eq!(timer.check_idle(9_999), vec![]);
    assert_eq!(timer.idle_debounce_until, None);
    // Due: the idle debounce starts.
    assert_eq!(timer.check_idle(10_000), vec![]);
    assert_eq!(timer.idle_debounce_until, Some(12_000));
    assert_eq!(timer.check_idle(11_999), vec![]);
    assert_eq!(timer.is_idle_flags, vec![false; 4]);
    // Over: the action fires.
    assert_eq!(timer.check_idle(12_000), vec![spawn("run.sh")]);
    assert_eq!(timer.idle_debounce_until, None);
    assert_eq!(timer.is_idle_flags, vec![false, false, true, false]);
    assert!(timer.active_kinds.contains(IdleActionKind::Custom));
    assert_eq!(timer.check_idle(13_000), vec![]);
    assert_eq!(timer.idle_debounce_until, None);
}

#[test]
fn check_idle_fires_one_action_per_debounce() {
    let mut timer = IdleTimer::new(&desktop_config(), 0);
    assert_eq!(timer.check_idle(400_000), vec![]);
    assert_eq!(timer.idle_debounce_until, Some(402_000));
    // The lock fires, and the next due action starts a debounce of its own.
    assert_eq!(timer.check_idle(402_000), vec![spawn("locker")]);
    assert_eq!(timer.is_idle_flags, vec![false, true, false, false]);
    assert_eq!(timer.idle_debounce_until, Some(404_000));
    assert_eq!(timer.check_idle(404_000), vec![spawn("run.sh")]);
    assert_eq!(timer.idle_debounce_until, Some(406_000));
    assert_eq!(timer.check_idle(406_000), vec![spawn("sleep")]);
    assert_eq!(timer.is_idle_flags, vec![false, true, true, true]);
    assert_eq!(timer.idle_debounce_until, None);
}

#[test]
fn check_idle_is_held_by_pause_and_debounce() {
    let mut timer = IdleTimer::new(&desktop_config(), 0);
    timer.paused = true;
    assert_eq!(timer.check_idle(400_000), vec![]);
    assert_eq!(timer.idle_debounce_until, None);
    timer.paused = false;
    timer.debounce_until = Some(500_000);
    assert_eq!(timer.check_idle(400_000), vec![]);
    assert_eq!(timer.debounce_until, Some(500_000));
    assert_eq!(timer.check_idle(500_000), vec![]);
    assert_eq!(timer.debounce_until, None);
    assert_eq!(timer.idle_debounce_until, Some(502_000));
}

#[test]
fn active_kind_blocks_second_action() {
    let mut timer = IdleTimer::new(&desktop_config(), 0);
    timer.init();
    // The instant custom action is active, so the custom script is passed
    // over and the lock is the first to count.
    assert_eq!(timer.check_idle(10_000), vec![]);
    assert_eq!(timer.idle_debounce_until, None);
    assert_eq!(timer.check_idle(60_000), vec![]);
    assert_eq!(timer.idle_debounce_until, Some(62_000));
    assert_eq!(timer.check_idle(62_000), vec![spawn("locker")]);
}

#[test]
fn idle_tick_skips_manual_pause() {
    let mut timer = IdleTimer::new(&desktop_config(), 0);
    timer.manually_paused = true;
    assert_eq!(idle_tick(&mut timer, 400_000), vec![]);
    assert_eq!(timer.idle_debounce_until, None);
    timer.manually_paused = false;
    idle_tick(&mut timer, 400_000);
    assert_eq!(timer.idle_debounce_until, Some(402_000));
}

#[test]
fn trigger_idle_forces_all() {
    let mut timer = IdleTimer::new(&desktop_config(), 0);
    timer.init();
    assert_eq!(timer.trigger_idle(), vec![spawn("locker"), spawn("run.sh"), spawn("sleep")]);
    assert_eq!(timer.is_idle_flags, vec![true; 4]);
    assert!(!timer.active_kinds.contains(IdleActionKind::Suspend));
    assert_eq!(timer.trigger_idle(), vec![]);
}

#[test]
fn mark_all_idle_sets_flags() {
    let mut timer = IdleTimer::new(&desktop_config(), 0);
    timer.mark_all_idle();
    assert_eq!(timer.is_idle_flags, vec![true; 4]);
    assert_eq!(timer.triggered_actions, vec![None, None, None, None]);
    assert_eq!(timer.check_idle(400_000), vec![]);
}

#[test]
fn pre_suspend_rewinds_when_asked() {
    let mut timer = IdleTimer::new(&desktop_config(), 0);
    timer.init();
    timer.trigger_idle();
    let effects = timer.trigger_pre_suspend(false, false, 500);
    assert_eq!(effects, vec![Effect::RunAndWait { command: "lock-now".to_string() }]);
    assert!(timer.suspend_occurred);
    assert_eq!(timer.is_idle_flags, vec![true; 4]);
    let effects = timer.trigger_pre_suspend(true, true, 900);
    assert_eq!(
        effects,
        vec![Effect::RunAndWait { command: "lock-now".to_string() }, spawn("hello")]
    );
    assert_eq!(timer.last_activity, 900);
    assert_eq!(timer.is_idle_flags, vec![true, false, false, false]);
    let mut bare = IdleTimer::new(&profile_config(), 0);
    assert_eq!(bare.trigger_pre_suspend(true, true, 900), vec![]);
    assert!(!bare.suspend_occurred);
    assert_eq!(bare.last_activity, 0);
}

#[test]
fn power_source_switches_profile() {
    let mut timer = IdleTimer::new(&profile_config(), 0);
    assert_eq!(timer.update_power_source(true), vec![]);
    timer.previous_brightness = Some(40);
    timer.is_idle_flags[0] = true;
    let effects = timer.update_power_source(false);
    assert_eq!(effects, vec![Effect::RestoreBrightness { level: 40 }, spawn("low power")]);
    assert!(!timer.on_ac);
    assert_eq!(timer.previous_brightness, None);
    assert_eq!(timer.actions, timer.battery_actions);
    assert_eq!(timer.is_idle_flags, vec![false, true]);
    assert!(timer.is_well_formed());
    timer.update_power_source(true);
    assert_eq!(timer.actions, timer.ac_actions);
    assert_eq!(timer.is_idle_flags, vec![false]);
}

#[test]
fn shortest_timeout_ignores_instant_actions() {
    let timer = IdleTimer::new(&desktop_config(), 0);
    assert_eq!(timer.shortest_timeout(), 10);
    let mut none = IdleTimer::new(&desktop_config(), 0);
    none.rearm(vec![]);
    assert_eq!(none.shortest_timeout(), 60);
    assert_eq!(tick_rate(10), 250);
    assert_eq!(tick_rate(14), 250);
    assert_eq!(tick_rate(15), 500);
    assert_eq!(tick_rate(59), 500);
    assert_eq!(tick_rate(60), 1_000);
}

#[test]
fn compositor_flag() {
    let mut timer = IdleTimer::new(&desktop_config(), 0);
    assert!(!timer.is_compositor_managed());
    timer.set_compositor_managed(true);
    assert!(timer.is_compositor_managed());
}

#[test]
fn actions_are_found_by_name() {
    let mut timer = IdleTimer::new(&desktop_config(), 0);
    let outcome = timer.trigger_action_by_name("LockScreen", 0);
    assert_eq!(outcome.answer, Ok("lockscreen".to_string()));
    assert_eq!(outcome.effects, vec![spawn("locker")]);
    assert_eq!(timer.is_idle_flags, vec![false, true, false, false]);
    // A second request finds it again and fires nothing.
    let outcome = timer.trigger_action_by_name("lockscreen", 0);
    assert_eq!(outcome.answer, Ok("lockscreen".to_string()));
    assert_eq!(outcome.effects, vec![]);
    let outcome = timer.trigger_action_by_name("SUSPEND", 0);
    assert_eq!(outcome.answer, Ok("suspend".to_string()));
    assert_eq!(outcome.effects, vec![spawn("sleep")]);
}

#[test]
fn custom_actions_are_found_by_key() {
    let mut timer = IdleTimer::new(&desktop_config(), 0);
    let outcome = timer.trigger_action_by_name("My-Script", 0);
    assert_eq!(outcome.answer, Ok("my_script".to_string()));
    assert_eq!(outcome.effects, vec![spawn("run.sh")]);
    assert_eq!(timer.is_idle_flags, vec![false, false, true, false]);
    // The first custom action answers to the name of its kind.
    let outcome = timer.trigger_action_by_name("custom", 0);
    assert_eq!(outcome.answer, Ok("custom".to_string()));
    assert_eq!(outcome.effects, vec![spawn("hello")]);
}

#[test]
fn pre_suspend_is_found_by_name() {
    for name in ["pre_suspend", "Pre-Suspend", "presuspend", "PRESUSPEND"] {
        let mut timer = IdleTimer::new(&desktop_config(), 0);
        let outcome = timer.trigger_action_by_name(name, 0);
        assert_eq!(outcome.answer, Ok("pre_suspend".to_string()));
        assert_eq!(outcome.effects, vec![Effect::RunAndWait { command: "lock-now".to_string() }]);
        assert!(!timer.suspend_occurred);
    }
}

#[test]
fn unknown_name_lists_what_is_available() {
    let mut timer = IdleTimer::new(&desktop_config(), 0);
    let outcome = timer.trigger_action_by_name("nope", 0);
    assert_eq!(
        outcome.answer,
        Err("Action 'nope' not found. Available actions: lock_screen, lockscreen, my_script, \
pre_suspend, startup, suspend\nNote: Custom actions defined in your config (e.g. \
`[desktop.<name>]` or `[ac.<name>]`) can also be triggered using their names."
            .to_string())
    );
    assert_eq!(outcome.effects, vec![]);
    assert_eq!(timer.is_idle_flags, vec![false; 4]);
    let profiles = IdleTimer::new(&profile_config(), 0);
    assert_eq!(profiles.available_actions(), vec!["battery.dpms", "battery.hello", "dpms", "other"]);
    assert_eq!(profiles.action_name("ac.dpms"), "dpms");
    assert_eq!(profiles.action_name("desktop.x"), "x");
}

#[test]
fn reconfiguration_rearms() {
    let mut timer = IdleTimer::new(&profile_config(), 0);
    timer.update_power_source(false);
    timer.previous_brightness = Some(3);
    let effects = timer.update_from_config(&desktop_config(), 777);
    assert_eq!(effects, vec![spawn("hello")]);
    assert_eq!(timer.cfg, desktop_config());
    assert_eq!(timer.actions.len(), 4);
    assert_eq!(timer.ac_actions.len(), 0);
    assert_eq!(timer.last_activity, 777);
    assert_eq!(timer.previous_brightness, None);
    assert_eq!(timer.is_idle_flags, vec![true, false, false, false]);
    assert!(!timer.on_ac);
    let effects = timer.update_from_config(&profile_config(), 800);
    assert_eq!(effects, vec![spawn("low power")]);
    assert_eq!(timer.actions, timer.battery_actions);
}

#[test]
fn timer_shutdown() {
    let mut timer = IdleTimer::new(&desktop_config(), 0);
    assert_eq!(timer.shutdown(), vec![Effect::AbortTasks]);
}

#[test]
fn resume_commands_after_wake() {
    let mut timer = IdleTimer::new(&desktop_config(), 0);
    assert_eq!(resume_commands(&timer), Vec::<String>::new());
    timer.trigger_idle();
    assert_eq!(resume_commands(&timer), vec!["wake-up".to_string()]);
    assert_eq!(
        suspend_signal(&mut timer, false, 10),
        vec![Effect::SpawnUntracked { command: "wake-up".to_string() }]
    );
    assert_eq!(
        suspend_signal(&mut timer, true, 10),
        vec![Effect::RunAndWait { command: "lock-now".to_string() }]
    );
    assert!(!timer.suspend_occurred);
}
