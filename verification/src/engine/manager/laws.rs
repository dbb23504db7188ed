use crate::config::model::{add_capped, ActionModel, IdleAction};
use crate::engine::manager::effects::EffectModel;
use crate::engine::manager::rules::{
    dispatch_effects, earliest_from, has_lock, lemma_earliest_from, lemma_has_lock_step,
};
use crate::engine::manager::state::{
    cleared, first_lock, first_lock_from, ActionBlock, StateModel,
};
use crate::engine::manager::tasks::{WatcherEvent, WatcherPhase, WatcherRequestModel};
use vstd::prelude::*;

verus! {

/// A cascade at its start: running, nothing stamped in the active block,
/// and the cursor on the first action.
pub open spec fn fresh_cascade(s: StateModel) -> bool {
    &&& s.fits()
    &&& !s.paused
    &&& !s.manually_paused
    &&& s.debounce is None
    &&& !s.cascade_done
    &&& s.action_index == 0
    &&& forall|i: int|
        0 <= i < s.active_actions().len() ==> (#[trigger] s.active_actions()[i]).last_triggered
            is None
}

/// The baseline plus the timeouts of the actions up to and including
/// position `k`, in milliseconds.
pub open spec fn cascade_fire_time(actions: Seq<ActionModel>, baseline: int, k: int) -> int
    decreases k + 1,
{
    if k < 0 {
        baseline
    } else {
        cascade_fire_time(actions, baseline, k - 1) + actions[k].timeout_ms()
    }
}

/// The state of a cascade that started in `s` once the cascade was
/// evaluated at the fire time of each of its first `k` actions in turn.
pub open spec fn run_cascade(s: StateModel, k: int) -> StateModel
    decreases k,
{
    if k <= 0 {
        s
    } else {
        run_cascade(s, k - 1).check_timeouts(
            cascade_fire_time(s.active_actions(), s.last_activity as int, k - 1) as u64,
        )
    }
}

/// Whether the action at `k` is not held back by the lock: it is no
/// lock-screen action, or the screen was not locked to begin with and no
/// lock-screen action comes before it.
pub open spec fn lock_lets_fire(s: StateModel, k: int) -> bool {
    s.active_actions()[k].kind == IdleAction::LockScreen ==> !s.lock_state.is_locked && !has_lock(
        s.active_actions().take(k),
    )
}

/// Whether none of the actions up to and including position `k` is held
/// back by the lock.
pub open spec fn lock_lets_fire_upto(s: StateModel, k: int) -> bool {
    forall|j: int| 0 <= j <= k && j < s.active_actions().len() ==> #[trigger] lock_lets_fire(s, j)
}

/// Whether the clock has not run backwards where that matters: an
/// evaluation that meets an instant action at `k` comes no earlier than
/// the moment the action before it fired.
pub open spec fn clock_holds(s: StateModel, k: int, now: u64) -> bool {
    s.active_actions()[k].is_instant() ==> now >= cascade_fire_time(
        s.active_actions(),
        s.last_activity as int,
        k - 1,
    )
}

/// What holds of a cascade that started in `origin` when its first `k`
/// actions have fired at their fire times and the one at `k` is next.
pub open spec fn staged(s: StateModel, origin: StateModel, k: int) -> bool {
    let actions = origin.active_actions();
    &&& s.fits()
    &&& !s.paused
    &&& !s.manually_paused
    &&& s.debounce is None
    &&& !s.cascade_done
    &&& s.active_block() == origin.active_block()
    &&& s.last_activity == origin.last_activity
    &&& s.active_actions().len() == actions.len()
    &&& forall|i: int|
        0 <= i < actions.len() ==> (#[trigger] s.active_actions()[i]).timeout == actions[i].timeout
            && s.active_actions()[i].kind == actions[i].kind
    &&& s.action_index == k
    &&& 0 <= k < actions.len()
    &&& s.active_actions()[k].countdown_start(s.last_activity) == cascade_fire_time(
        actions,
        origin.last_activity as int,
        k - 1,
    )
    &&& s.lock_state.is_locked == (origin.lock_state.is_locked || has_lock(actions.take(k)))
}

/// The fire times of a cascade do not decrease from one action to the
/// next.
pub proof fn lemma_fire_time_grows(actions: Seq<ActionModel>, baseline: int, i: int, k: int)
    requires
        -1 <= i <= k,
    ensures
        cascade_fire_time(actions, baseline, i) <= cascade_fire_time(actions, baseline, k),
    decreases k - i,
{
    if i < k {
        lemma_fire_time_grows(actions, baseline, i, k - 1);
    }
}

/// A staged cascade fires its next action at that action's fire time and
/// at no earlier moment, and is then staged for the action after it.
pub proof fn lemma_stage_fires(s: StateModel, origin: StateModel, k: int, now: u64)
    requires
        staged(s, origin, k),
        lock_lets_fire(origin, k),
        clock_holds(origin, k, now),
        cascade_fire_time(origin.active_actions(), origin.last_activity as int, k) <= u64::MAX,
    ensures
        s.fires(now) == if now >= cascade_fire_time(
            origin.active_actions(),
            origin.last_activity as int,
            k,
        ) {
            Some(k)
        } else {
            None::<int>
        },
        s.fires(now) is None ==> staged(s.check_timeouts(now), origin, k),
        s.fires(now) is Some && now == cascade_fire_time(
            origin.active_actions(),
            origin.last_activity as int,
            k,
        ) && k + 1 < origin.active_actions().len() ==> staged(
            s.check_timeouts(now),
            origin,
            k + 1,
        ),
{
    let actions = origin.active_actions();
    let settled = s.settled(now);
    assert(cascade_fire_time(actions, origin.last_activity as int, k) == cascade_fire_time(
        actions,
        origin.last_activity as int,
        k - 1,
    ) + actions[k].timeout_ms());
    assert(settled.active_actions() == s.active_actions());
    assert(settled.cursor() == k);
    assert(s.active_actions()[k].kind == actions[k].kind);
    assert(s.active_actions()[k].timeout == actions[k].timeout);
    if s.fires(now) is Some && now == cascade_fire_time(actions, origin.last_activity as int, k)
        && k + 1 < actions.len() {
        let after = s.check_timeouts(now);
        let moved = settled.advanced(now);
        assert(after == moved.dispatched(settled.active_actions()[k]));
        assert(moved.active_actions().len() == actions.len());
        assert forall|i: int| 0 <= i < actions.len() implies (#[trigger] after.active_actions()[i]).timeout
            == actions[i].timeout && after.active_actions()[i].kind == actions[i].kind by {
            assert(s.active_actions()[i].timeout == actions[i].timeout);
            assert(s.active_actions()[i].kind == actions[i].kind);
        }
        lemma_has_lock_step(actions, k);
    }
}

/// Cascade accumulation: in a cascade that starts fresh, the action at
/// position `k` fires at the baseline plus the timeouts of all actions up
/// to and including it. Once the actions before it have fired at their
/// own fire times, an evaluation fires it exactly when that moment has
/// come. This holds as long as the lock holds back none of the actions up
/// to `k`, the clock does not run backwards, and the fire time is a
/// moment the clock can show.
pub proof fn lemma_cascade_accumulates(s: StateModel, k: int, now: u64)
    requires
        fresh_cascade(s),
        0 <= k < s.active_actions().len(),
        lock_lets_fire_upto(s, k),
        clock_holds(s, k, now),
        cascade_fire_time(s.active_actions(), s.last_activity as int, k) <= u64::MAX,
    ensures
        staged(run_cascade(s, k), s, k),
        run_cascade(s, k).fires(now) == if now >= cascade_fire_time(
            s.active_actions(),
            s.last_activity as int,
            k,
        ) {
            Some(k)
        } else {
            None::<int>
        },
    decreases k,
{
    let actions = s.active_actions();
    if k == 0 {
        assert(actions.take(0) =~= Seq::<ActionModel>::empty());
        assert(!has_lock(actions.take(0)));
        assert(s.active_actions()[0].last_triggered is None);
    } else {
        lemma_fire_time_grows(actions, s.last_activity as int, k - 1, k);
        lemma_fire_time_grows(actions, s.last_activity as int, -1, k - 1);
        let at = cascade_fire_time(actions, s.last_activity as int, k - 1) as u64;
        lemma_fire_time_grows(actions, s.last_activity as int, k - 2, k - 1);
        assert(lock_lets_fire(s, k - 1));
        lemma_cascade_accumulates(s, k - 1, at);
        lemma_stage_fires(run_cascade(s, k - 1), s, k - 1, at);
    }
    assert(lock_lets_fire(s, k));
    lemma_stage_fires(run_cascade(s, k), s, k, now);
}

/// Clearing the stamps moves no lock-screen action.
pub proof fn lemma_first_lock_cleared(actions: Seq<ActionModel>, start: int)
    requires
        0 <= start,
    ensures
        first_lock_from(cleared(actions), start) == first_lock_from(actions, start),
    decreases actions.len() - start,
{
    if start < actions.len() {
        assert(cleared(actions)[start].kind == actions[start].kind);
        lemma_first_lock_cleared(actions, start + 1);
    }
}

/// A reset over a locked screen moves the cursor one past the lock action,
/// starts the countdown of the action there at the end of the debounce, and
/// notes that it did so.
pub proof fn lemma_reset_moves_past_lock(s: StateModel, now: u64, lock_at: int)
    requires
        s.fits(),
        s.cfg is Some,
        s.lock_state.is_locked,
        first_lock(s.active_actions()) == Some(lock_at),
        !s.active_actions()[0].is_instant(),
    ensures
        s.reset(now).action_index == lock_at + 1,
        s.reset(now).lock_state.post_advanced,
        lock_at + 1 < s.active_actions().len() ==> s.reset(now).active_actions()[lock_at
            + 1].last_triggered == Some(add_capped(now, s.debounce_ms())),
        now + s.debounce_ms() <= u64::MAX ==> add_capped(now, s.debounce_ms()) == now
            + s.debounce_ms(),
{
    let based = s.rebased(now);
    assert(based.active_block() == s.active_block());
    assert(based.active_actions() == cleared(s.active_actions()));
    lemma_first_lock_cleared(s.active_actions(), 0);
    crate::engine::manager::state::lemma_first_lock_from(s.active_actions(), 0);
    assert(cleared(s.active_actions())[0].timeout == s.active_actions()[0].timeout);
}

/// The state after `n` automatic resumes in a row.
pub open spec fn resumed_automatically(s: StateModel, n: nat) -> StateModel
    decreases n,
{
    if n == 0 {
        s
    } else {
        resumed_automatically(s, (n - 1) as nat).resume(false)
    }
}

/// Manual pause dominates: after a manual pause, automatic resumes, however
/// many, change nothing. The manual pause stays, and an evaluation of the
/// cascade fires nothing and leaves the state as it is.
pub proof fn lemma_manual_pause_dominates(s: StateModel, n: nat, now: u64)
    ensures
        resumed_automatically(s.pause(true), n) == s.pause(true),
        resumed_automatically(s.pause(true), n).manually_paused,
        resumed_automatically(s.pause(true), n).fires(now) is None,
        resumed_automatically(s.pause(true), n).check_timeouts(now) == resumed_automatically(
            s.pause(true),
            n,
        ),
        resumed_automatically(s.pause(true), n).check_timeouts_effects(now)
            == Seq::<EffectModel>::empty(),
    decreases n,
{
    if n > 0 {
        lemma_manual_pause_dominates(s, (n - 1) as nat, now);
    }
}

/// Loss of the lock process always sends the cascade back to its start and
/// unlocks the screen, wherever the cursor stood: the watcher forgets the
/// process, wakes the idle scheduler and waits for the next lock.
pub proof fn lemma_lock_loss_resets(s: StateModel, alive: Option<bool>)
    requires
        alive != Some(true),
    ensures
        ({
            let event = WatcherEvent::Liveness { alive };
            let after = s.watcher_turn(WatcherPhase::Supervising, event);
            &&& after.action_index == 0
            &&& !after.lock_state.is_locked
            &&& after.lock_state.pid is None
            &&& !after.lock_state.post_advanced
            &&& s.watcher_turn_phase(WatcherPhase::Supervising, event) == WatcherPhase::Idle
            &&& s.watcher_turn_request(WatcherPhase::Supervising, event)
                == WatcherRequestModel::AwaitLock
            &&& s.watcher_turn_effects(WatcherPhase::Supervising, event) == seq![
                EffectModel::WakeIdle,
            ]
        }),
{
}

/// Brightness is captured once per cycle: while a level is remembered,
/// dispatching an action asks for no capture, and neither the dispatch nor
/// a reading that comes in changes the remembered level.
pub proof fn lemma_brightness_captured_once(
    s: StateModel,
    action: ActionModel,
    reading: Option<u32>,
)
    requires
        s.previous_brightness is Some,
    ensures
        !dispatch_effects(s.previous_brightness, action).contains(EffectModel::CaptureBrightness),
        s.dispatched(action).previous_brightness == s.previous_brightness,
        s.brightness_captured(reading) == s,
{
    let effects = dispatch_effects(s.previous_brightness, action);
    assert forall|i: int| 0 <= i < effects.len() implies effects[i]
        != EffectModel::CaptureBrightness by {}
}

/// Two brightness actions fired one after the other, with the reading of
/// the first capture taken in between, remember the level that was read
/// first: the second firing asks for no capture.
pub proof fn lemma_second_brightness_keeps_level(
    s: StateModel,
    first: ActionModel,
    second: ActionModel,
    raw: u32,
)
    requires
        s.previous_brightness is None,
        first.kind == IdleAction::Brightness,
        second.kind == IdleAction::Brightness,
    ensures
        dispatch_effects(s.previous_brightness, first)[0] == EffectModel::CaptureBrightness,
        ({
            let captured = s.dispatched(first).brightness_captured(Some(raw));
            &&& captured.previous_brightness is Some
            &&& !dispatch_effects(captured.previous_brightness, second).contains(
                EffectModel::CaptureBrightness,
            )
            &&& captured.dispatched(second).previous_brightness == captured.previous_brightness
        }),
{
    let captured = s.dispatched(first).brightness_captured(Some(raw));
    lemma_brightness_captured_once(captured, second, None);
}

/// Profiles are opt-in: while neither the AC nor the battery block holds an
/// action, the default block stays selected whatever the power source.
pub proof fn lemma_profiles_are_opt_in(s: StateModel, on_battery: bool)
    requires
        s.ac_actions.len() == 0,
        s.battery_actions.len() == 0,
    ensures
        s.power_source_updated(on_battery).active_block() == ActionBlock::Default,
        s.power_source_updated(on_battery).active_actions() == s.default_actions,
        s.power_source_updated(on_battery).action_index == s.action_index,
{
}

/// The idle scheduler looks next at the earliest deadline of all actions,
/// whatever block they are in: the moment it is given is the deadline of
/// one of them, none of them has an earlier one, and it is given none
/// exactly when there is no action at all or the timers are paused.
pub proof fn lemma_next_action_is_earliest(s: StateModel)
    ensures
        s.next_action_instant() is None <==> s.paused || s.manually_paused
            || s.scheduled_actions().len() == 0,
        s.next_action_instant() matches Some(at) ==> {
            &&& exists|i: int|
                0 <= i < s.scheduled_actions().len() && (#[trigger] s.scheduled_actions()[i]).deadline(
                    s.last_activity,
                ) == at
            &&& forall|i: int|
                0 <= i < s.scheduled_actions().len() ==> at <= (#[trigger] s.scheduled_actions()[i]).deadline(
                    s.last_activity,
                )
        },
{
    let base = s.last_activity;
    let all = s.scheduled_actions();
    let first = earliest_from(None, s.default_actions, base);
    let second = earliest_from(first, s.ac_actions, base);
    let third = earliest_from(second, s.battery_actions, base);
    lemma_earliest_from(None, s.default_actions, base);
    lemma_earliest_from(first, s.ac_actions, base);
    lemma_earliest_from(second, s.battery_actions, base);
    let d = s.default_actions.len() as int;
    let a = s.ac_actions.len() as int;
    if third is Some {
        let at = third->0;
        assert forall|i: int| 0 <= i < all.len() implies at <= (#[trigger] all[i]).deadline(
            base,
        ) by {
            if i < d {
                assert(all[i] == s.default_actions[i]);
            } else if i < d + a {
                assert(all[i] == s.ac_actions[i - d]);
            } else {
                assert(all[i] == s.battery_actions[i - d - a]);
            }
        }
        if second == Some(at) {
            if first == Some(at) {
                let i = choose|i: int|
                    0 <= i < s.default_actions.len() && (#[trigger] s.default_actions[i]).deadline(
                        base,
                    ) == at;
                assert(all[i] == s.default_actions[i]);
            } else {
                let i = choose|i: int|
                    0 <= i < s.ac_actions.len() && (#[trigger] s.ac_actions[i]).deadline(base)
                        == at;
                assert(all[i + d] == s.ac_actions[i]);
            }
        } else {
            let i = choose|i: int|
                0 <= i < s.battery_actions.len() && (#[trigger] s.battery_actions[i]).deadline(
                    base,
                ) == at;
            assert(all[i + d + a] == s.battery_actions[i]);
        }
    }
}

} // verus!
