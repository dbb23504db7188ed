use crate::config::model::{actions_view, clone_actions, IdleAction, IdleActionBlock};
use crate::engine::manager::effects::{append_effects, effects_view, Effect, EffectModel};
use crate::engine::manager::rules::{
    dispatch_effects, forced_effects, has_lock, launch_effect, lemma_has_lock_step,
};
use crate::engine::manager::state::{LockModel, ManagerState, StateModel};
use crate::engine::manager::{wake_if_changed, Manager};
use crate::text::{parse_u32, parsed_u32, trim, trimmed};
use vstd::prelude::*;

verus! {

/// The number that a text holds, white space around it aside.
pub open spec fn level_of(text: Seq<char>) -> Option<u32> {
    parsed_u32(trimmed(text))
}

/// The brightness that was read: the level in the backlight file if the
/// file could be read and holds a number; else the level that the
/// brightness tool printed if it ran well, or zero if it printed no
/// number; else none.
pub open spec fn reading_of(sysfs: Option<Seq<char>>, tool: Option<Seq<char>>) -> Option<u32> {
    match sysfs {
        Some(text) if level_of(text) is Some => level_of(text),
        _ => match tool {
            Some(printed) => Some(
                match level_of(printed) {
                    Some(level) => level,
                    None => 0,
                },
            ),
            None => None,
        },
    }
}

/// The level that a backlight file holds, if it holds a number.
pub fn sysfs_level(text: &str) -> (level: Option<u32>)
    ensures
        level == level_of(text@),
{
    let number = trim(text);
    parse_u32(number.as_str())
}

/// The brightness that was read, given the content of the backlight file
/// if it could be read, and what the brightness tool printed if it was
/// run and ran well.
pub fn brightness_reading(sysfs: Option<&str>, tool: Option<&str>) -> (reading: Option<u32>)
    ensures
        reading == reading_of(
            match sysfs {
                Some(text) => Some(text@),
                None => None,
            },
            match tool {
                Some(printed) => Some(printed@),
                None => None,
            },
        ),
{
    match sysfs {
        Some(text) => {
            match sysfs_level(text) {
                Some(level) => {
                    return Some(level);
                },
                None => {},
            }
        },
        None => {},
    }
    match tool {
        Some(printed) => match sysfs_level(printed) {
            Some(level) => Some(level),
            None => Some(0),
        },
        None => None,
    }
}

/// Remembers the brightness that was read, if the reading succeeded and
/// no level is remembered yet.
pub fn capture_brightness(state: &mut ManagerState, reading: Option<u32>)
    ensures
        final(state)@ == old(state)@.brightness_captured(reading),
{
    if state.previous_brightness.is_none() {
        match reading {
            Some(raw) => {
                let level: u8 = if raw > 255 {
                    255
                } else {
                    raw as u8
                };
                state.previous_brightness = Some(level);
            },
            None => {},
        }
    }
}

/// Forgets the remembered brightness and asks for it to be put back.
pub fn restore_brightness(state: &mut ManagerState) -> (effects: Vec<Effect>)
    ensures
        final(state)@ == (StateModel { previous_brightness: None, ..old(state)@ }),
        effects_view(effects@) == match old(state)@.previous_brightness {
            Some(level) => seq![EffectModel::RestoreBrightness { level }],
            None => Seq::<EffectModel>::empty(),
        },
{
    let mut effects: Vec<Effect> = Vec::new();
    match state.previous_brightness {
        Some(level) => {
            effects.push(Effect::RestoreBrightness { level });
        },
        None => {},
    }
    state.previous_brightness = None;
    assert(effects_view(effects@) =~= match old(state)@.previous_brightness {
        Some(level) => seq![EffectModel::RestoreBrightness { level }],
        None => Seq::<EffectModel>::empty(),
    });
    effects
}

/// The broadcast that wakes every task waiting on the general wake signal.
pub fn wake_idle_tasks(state: &ManagerState) -> (effect: Effect)
    ensures
        effect@ == EffectModel::WakeIdleAll,
{
    Effect::WakeIdleAll
}

/// Notes whether the screen is locked.
pub fn update_lock_state(state: &mut ManagerState, locked: bool)
    ensures
        final(state)@ == (StateModel {
            lock_state: LockModel { is_locked: locked, ..old(state)@.lock_state },
            ..old(state)@
        }),
{
    state.lock_state.is_locked = locked;
}

/// Whether the compositor manages idling.
pub fn get_compositor_manager(state: &mut ManagerState) -> (managed: bool)
    ensures
        managed == old(state)@.compositor_managed,
        final(state)@ == old(state)@,
{
    state.compositor_managed
}

/// Notes whether the compositor manages idling.
pub fn set_compositor_manager(state: &mut ManagerState, value: bool)
    ensures
        final(state)@ == (StateModel { compositor_managed: value, ..old(state)@ }),
{
    state.compositor_managed = value;
}

/// Whether the timers are paused by hand.
pub fn get_manual_inhibit(state: &mut ManagerState) -> (inhibited: bool)
    ensures
        inhibited == old(state)@.manually_paused,
        final(state)@ == old(state)@,
{
    state.manually_paused
}

/// Sets the manual inhibit; a request to lift it does nothing.
pub fn set_manual_inhibit(mgr: &mut Manager, inhibit: bool) -> (effects: Vec<Effect>)
    ensures
        final(mgr)@ == if inhibit {
            old(mgr)@.pause(true)
        } else {
            old(mgr)@
        },
        effects_view(effects@) == wake_if_changed(old(mgr)@, final(mgr)@),
{
    if inhibit {
        mgr.pause(true)
    } else {
        let effects: Vec<Effect> = Vec::new();
        assert(effects_view(effects@) =~= wake_if_changed(old(mgr)@, mgr@));
        effects
    }
}

/// Dispatches one action: marks the screen as locked for a lock action,
/// and returns the outside work in the order it must happen.
pub fn run_action(mgr: &mut Manager, action: &IdleActionBlock) -> (effects: Vec<Effect>)
    ensures
        final(mgr)@ == old(mgr)@.dispatched(action@),
        effects_view(effects@) == dispatch_effects(old(mgr)@.previous_brightness, action@),
{
    let mut effects: Vec<Effect> = Vec::new();
    if action.kind == IdleAction::Brightness && mgr.state.previous_brightness.is_none() {
        effects.push(Effect::CaptureBrightness);
    }
    if action.kind == IdleAction::LockScreen {
        mgr.state.lock_state.is_locked = true;
        effects.push(Effect::NotifyLockWatcher);
    }
    effects.push(run_command_for_action(action, action.command.clone()));
    assert(effects_view(effects@) =~= dispatch_effects(
        old(mgr)@.previous_brightness,
        action@,
    ));
    effects
}

/// How `cmd` is launched for `action`: tracked for a lock action, fire
/// and forget otherwise.
pub fn run_command_for_action(action: &IdleActionBlock, cmd: String) -> (effect: Effect)
    ensures
        effect@ == launch_effect(action@.kind, cmd@),
{
    if action.kind == IdleAction::LockScreen {
        Effect::SpawnLock { command: cmd }
    } else {
        Effect::SpawnCommand { command: cmd }
    }
}

/// Records how the launch of the lock command went: with a process id the
/// lock is confirmed and the process remembered; a failed launch changes
/// nothing.
pub fn lock_launched(state: &mut ManagerState, pid: Option<u32>)
    ensures
        final(state)@ == match pid {
            Some(id) => StateModel {
                lock_state: LockModel { pid: Some(id), is_locked: true, ..old(state)@.lock_state },
                ..old(state)@
            },
            None => old(state)@,
        },
{
    match pid {
        Some(id) => {
            state.lock_state.pid = Some(id);
            state.lock_state.is_locked = true;
        },
        None => {},
    }
}

/// Whether the lock still holds, given what the process layer says of the
/// lock command: without a known command it does not.
pub fn lock_still_active(state: &ManagerState, running: bool) -> (active: bool)
    ensures
        active == (state@.lock_state.command is Some && running),
{
    state.lock_state.command.is_some() && running
}

/// Force-fires every action of the active block once, in order, at `now`.
/// A lock action is passed over while the screen is locked.
pub fn trigger_all_idle_actions(mgr: &mut Manager, now: u64) -> (effects: Vec<Effect>)
    ensures
        final(mgr)@ == old(mgr)@.all_triggered(now),
        effects_view(effects@) == old(mgr)@.all_triggered_effects(),
{
    let block = mgr.state.active_block();
    let actions = clone_actions(mgr.state.block_actions(block));
    let mut effects: Vec<Effect> = Vec::new();
    let ghost all = actions_view(actions@);
    let ghost start = mgr@;
    proof {
        assert(effects_view(effects@) =~= forced_effects(
            start.previous_brightness,
            all.take(0),
            start.lock_state.is_locked,
        ));
    }
    if actions.len() == 0 {
        assert(all.take(0) =~= all);
        return effects;
    }
    let mut i: usize = 0;
    while i < actions.len()
        invariant
            i <= actions.len(),
            all == actions_view(actions@),
            effects_view(effects@) == forced_effects(
                start.previous_brightness,
                all.take(i as int),
                start.lock_state.is_locked,
            ),
            mgr@ == (StateModel {
                lock_state: LockModel {
                    is_locked: start.lock_state.is_locked || has_lock(all.take(i as int)),
                    ..start.lock_state
                },
                ..start
            }),
        decreases actions.len() - i,
    {
        proof {
            let grown = all.take(i as int + 1);
            assert(grown.drop_last() =~= all.take(i as int));
            assert(grown.last() == actions[i as int]@);
            lemma_has_lock_step(all, i as int);
        }
        if !(actions[i].kind == IdleAction::LockScreen && mgr.state.lock_state.is_locked) {
            let fired = run_action(mgr, &actions[i]);
            append_effects(&mut effects, fired);
        }
        i = i + 1;
    }
    proof {
        assert(all.take(actions.len() as int) =~= all);
    }
    mgr.state.stamp_every(block, Some(now));
    mgr.state.action_index = actions.len() - 1;
    mgr.state.cascade_done = true;
    assert(mgr@.block_actions(block) =~= crate::engine::manager::state::all_stamped(
        start.block_actions(block),
        now,
    ));
    effects
}

} // verus!
