use crate::config::model::{add_capped, ActionModel, IdleAction, MILLIS_PER_SECOND};
use crate::engine::manager::effects::EffectModel;
use crate::engine::manager::state::{all_stamped, cleared, first_lock, LockModel, StateModel};
use vstd::prelude::*;

verus! {

/// How long the pre-suspend command is given before the system suspends.
pub const PRE_SUSPEND_GRACE_MS: u64 = 700;

/// How long tasks are given to leave by themselves at shutdown.
pub const SHUTDOWN_GRACE_MS: u64 = 200;

/// What dispatching `action` asks of the outside world, in order: the
/// brightness is captured first if none is remembered; a lock action
/// signals the lock watcher before its command is launched.
pub open spec fn dispatch_effects(
    previous_brightness: Option<u8>,
    action: ActionModel,
) -> Seq<EffectModel> {
    let capture = if action.kind == IdleAction::Brightness && previous_brightness is None {
        seq![EffectModel::CaptureBrightness]
    } else {
        Seq::<EffectModel>::empty()
    };
    let notify = if action.kind == IdleAction::LockScreen {
        seq![EffectModel::NotifyLockWatcher]
    } else {
        Seq::<EffectModel>::empty()
    };
    capture + notify + seq![launch_effect(action.kind, action.command)]
}

/// How a command is launched for an action of the given kind: the lock
/// command as a tracked process, any other as a fire-and-forget task.
pub open spec fn launch_effect(kind: IdleAction, command: Seq<char>) -> EffectModel {
    if kind == IdleAction::LockScreen {
        EffectModel::SpawnLock { command }
    } else {
        EffectModel::SpawnCommand { command }
    }
}

/// What force-firing `actions` in order asks of the outside world when the
/// screen was `locked` to begin with: a lock action is passed over once
/// the screen is locked.
pub open spec fn forced_effects(
    previous_brightness: Option<u8>,
    actions: Seq<ActionModel>,
    locked: bool,
) -> Seq<EffectModel>
    decreases actions.len(),
{
    if actions.len() == 0 {
        Seq::<EffectModel>::empty()
    } else {
        let earlier = actions.drop_last();
        let before = forced_effects(previous_brightness, earlier, locked);
        if actions.last().kind == IdleAction::LockScreen && (locked || has_lock(earlier)) {
            before
        } else {
            before + dispatch_effects(previous_brightness, actions.last())
        }
    }
}

/// What dispatching every one of `actions` in order asks of the outside
/// world.
pub open spec fn batch_effects(
    previous_brightness: Option<u8>,
    actions: Seq<ActionModel>,
) -> Seq<EffectModel>
    decreases actions.len(),
{
    if actions.len() == 0 {
        Seq::<EffectModel>::empty()
    } else {
        batch_effects(previous_brightness, actions.drop_last()) + dispatch_effects(
            previous_brightness,
            actions.last(),
        )
    }
}

/// Whether a lock-screen action is among `actions`.
pub open spec fn has_lock(actions: Seq<ActionModel>) -> bool {
    exists|i: int| 0 <= i < actions.len() && (#[trigger] actions[i]).kind == IdleAction::LockScreen
}

/// A lock-screen action is among the first `n + 1` actions exactly when it
/// is among the first `n` or is the one at `n`.
pub proof fn lemma_has_lock_step(actions: Seq<ActionModel>, n: int)
    requires
        0 <= n < actions.len(),
    ensures
        has_lock(actions.take(n + 1)) == (has_lock(actions.take(n)) || actions[n].kind
            == IdleAction::LockScreen),
{
    let shorter = actions.take(n);
    let longer = actions.take(n + 1);
    if has_lock(shorter) {
        let k = choose|k: int|
            0 <= k < shorter.len() && (#[trigger] shorter[k]).kind == IdleAction::LockScreen;
        assert(longer[k].kind == IdleAction::LockScreen);
    }
    if actions[n].kind == IdleAction::LockScreen {
        assert(longer[n].kind == IdleAction::LockScreen);
    }
    if has_lock(longer) {
        let k = choose|k: int|
            0 <= k < longer.len() && (#[trigger] longer[k]).kind == IdleAction::LockScreen;
        if k < n {
            assert(shorter[k].kind == IdleAction::LockScreen);
        }
    }
}

/// The brightness level that is remembered for a raw reading: levels above
/// 255 count as 255.
pub open spec fn clamp_level(raw: u32) -> u8 {
    if raw > 255 {
        255
    } else {
        raw as u8
    }
}

impl StateModel {
    /// The state after a brightness reading came in: a successful reading
    /// is remembered unless a level is remembered already.
    pub open spec fn brightness_captured(self, reading: Option<u32>) -> StateModel {
        match (self.previous_brightness, reading) {
            (None, Some(raw)) => StateModel {
                previous_brightness: Some(clamp_level(raw)),
                ..self
            },
            _ => self,
        }
    }

    /// The state after `action` was dispatched: a lock action marks the
    /// screen as locked.
    pub open spec fn dispatched(self, action: ActionModel) -> StateModel {
        if action.kind == IdleAction::LockScreen {
            StateModel { lock_state: LockModel { is_locked: true, ..self.lock_state }, ..self }
        } else {
            self
        }
    }

    /// Pausing: a manual pause always takes hold and lifts the automatic
    /// one; an automatic pause takes hold only while no manual one does.
    pub open spec fn pause(self, manual: bool) -> StateModel {
        if manual {
            StateModel { manually_paused: true, paused: false, ..self }
        } else if !self.manually_paused {
            StateModel { paused: true, ..self }
        } else {
            self
        }
    }

    /// Resuming: a manual resume lifts the manual pause and leaves the
    /// automatic one as it is; an automatic resume lifts the automatic
    /// pause, and does nothing under a manual pause.
    pub open spec fn resume(self, manual: bool) -> StateModel {
        if manual {
            StateModel { manually_paused: false, ..self }
        } else if !self.manually_paused {
            StateModel { paused: false, ..self }
        } else {
            self
        }
    }

    /// Whether an evaluation at `now` is a no-op: paused either way, or
    /// still inside the debounce window.
    pub open spec fn is_held(self, now: u64) -> bool {
        ||| self.paused
        ||| self.manually_paused
        ||| (self.debounce matches Some(until) && now < until)
    }

    /// The state once an evaluation at `now` has dealt with a debounce that
    /// ran out (the baseline moves to `now`) and has selected the block.
    pub open spec fn settled(self, now: u64) -> StateModel {
        let rebased = if self.debounce is Some {
            StateModel { last_activity: now, debounce: None, ..self }
        } else {
            self
        };
        StateModel { current_block: Some(self.active_block()), ..rebased }
    }

    /// The cursor, held inside the active block.
    pub open spec fn cursor(self) -> int {
        let len = self.active_actions().len();
        if self.action_index < len {
            self.action_index as int
        } else {
            len - 1
        }
    }

    /// The position of the action that an evaluation at `now` fires, if it
    /// fires one: the action at the cursor, when its timeout has run out,
    /// the cascade has not run to its end, and it is not a lock action over
    /// a screen that is locked already.
    pub open spec fn fires(self, now: u64) -> Option<int> {
        let s = self.settled(now);
        let actions = s.active_actions();
        if self.is_held(now) || actions.len() == 0 || s.cascade_done {
            None
        } else {
            let at = s.cursor();
            if actions[at].kind == IdleAction::LockScreen && s.lock_state.is_locked {
                None
            } else if actions[at].is_due(s.last_activity, now) {
                Some(at)
            } else {
                None
            }
        }
    }

    /// The state after the action at the cursor was stamped as fired at
    /// `now` and the cursor moved on. The next action, if there is one, is
    /// stamped too, so that its countdown starts now; past the end the
    /// cursor stays on the last action and the cascade is over.
    pub open spec fn advanced(self, now: u64) -> StateModel {
        let block = self.active_block();
        let actions = self.active_actions();
        let at = self.cursor();
        let fired = actions.update(at, actions[at].stamped(Some(now)));
        if self.action_index + 1 < actions.len() {
            let next = self.action_index + 1;
            StateModel { action_index: next as usize, ..self }.with_block_actions(
                block,
                fired.update(next, fired[next].stamped(Some(now))),
            )
        } else {
            StateModel {
                action_index: (actions.len() - 1) as usize,
                cascade_done: true,
                ..self
            }.with_block_actions(block, fired)
        }
    }

    /// The state after one evaluation of the cascade at `now`.
    pub open spec fn check_timeouts(self, now: u64) -> StateModel {
        if self.is_held(now) {
            self
        } else {
            let s = self.settled(now);
            match self.fires(now) {
                Some(at) => s.advanced(now).dispatched(s.active_actions()[at]),
                None => s,
            }
        }
    }

    /// What one evaluation of the cascade at `now` asks of the outside
    /// world.
    pub open spec fn check_timeouts_effects(self, now: u64) -> Seq<EffectModel> {
        match self.fires(now) {
            Some(at) => dispatch_effects(
                self.previous_brightness,
                self.settled(now).active_actions()[at],
            ),
            None => Seq::<EffectModel>::empty(),
        }
    }

    /// The debounce in milliseconds, if a configuration is present.
    pub open spec fn debounce_ms(self) -> nat {
        match self.cfg {
            Some(cfg) => (cfg.debounce_seconds * MILLIS_PER_SECOND) as nat,
            None => 0,
        }
    }

    /// The state right after fresh activity at `now`, before the lock is
    /// looked at: no brightness remembered, baseline at `now`, debounce
    /// running, no action stamped, cursor at the start of the selected
    /// block.
    pub open spec fn rebased(self, now: u64) -> StateModel {
        StateModel {
            previous_brightness: None,
            last_activity: now,
            last_activity_display: now,
            debounce: Some(add_capped(now, self.debounce_ms())),
            default_actions: cleared(self.default_actions),
            ac_actions: cleared(self.ac_actions),
            battery_actions: cleared(self.battery_actions),
            current_block: Some(self.active_block()),
            action_index: 0,
            cascade_done: false,
            ..self
        }
    }

    /// Whether a reset stops before it looks at the lock: the action it
    /// would start from is an instant one.
    pub open spec fn reset_stops_early(self) -> bool {
        self.active_actions().len() > 0 && self.active_actions()[0].is_instant()
    }

    /// The state after the cursor was moved past the lock action at
    /// `lock_at`: the action behind it, if there is one, starts its
    /// countdown at `resume_at`.
    pub open spec fn moved_past_lock(self, lock_at: int, resume_at: u64) -> StateModel {
        let block = self.active_block();
        let actions = self.active_actions();
        let next = lock_at + 1;
        let moved = StateModel {
            action_index: next as usize,
            lock_state: LockModel { post_advanced: true, ..self.lock_state },
            ..self
        };
        if next < actions.len() {
            moved.with_block_actions(
                block,
                actions.update(next, actions[next].stamped(Some(resume_at))),
            )
        } else {
            moved
        }
    }

    /// The state after fresh activity was reported at `now`.
    pub open spec fn reset(self, now: u64) -> StateModel {
        if self.cfg is None {
            self
        } else {
            let s = self.rebased(now);
            if s.reset_stops_early() || !s.lock_state.is_locked {
                s
            } else {
                match first_lock(s.active_actions()) {
                    Some(lock_at) => s.moved_past_lock(
                        lock_at,
                        add_capped(now, self.debounce_ms()),
                    ),
                    None => s,
                }
            }
        }
    }

    /// What a reset asks of the outside world: the brightness is put back
    /// first if one is remembered, and the idle scheduler is woken last
    /// unless the reset stopped early.
    pub open spec fn reset_effects(self, now: u64) -> Seq<EffectModel> {
        if self.cfg is None {
            Seq::<EffectModel>::empty()
        } else {
            let restore = match self.previous_brightness {
                Some(level) => seq![EffectModel::RestoreBrightness { level }],
                None => Seq::<EffectModel>::empty(),
            };
            let wake = if self.rebased(now).reset_stops_early() {
                Seq::<EffectModel>::empty()
            } else {
                seq![EffectModel::WakeIdle]
            };
            restore + wake
        }
    }

    /// The state after every action of the active block was force-fired at
    /// `now`: all of them stamped, the cursor on the last one, the cascade
    /// over, and the screen locked if a lock action was among them.
    pub open spec fn all_triggered(self, now: u64) -> StateModel {
        let block = self.active_block();
        let actions = self.active_actions();
        if actions.len() == 0 {
            self
        } else {
            StateModel {
                action_index: (actions.len() - 1) as usize,
                cascade_done: true,
                lock_state: LockModel {
                    is_locked: self.lock_state.is_locked || has_lock(actions),
                    ..self.lock_state
                },
                ..self
            }.with_block_actions(block, all_stamped(actions, now))
        }
    }

    /// What force-firing the active block asks of the outside world.
    pub open spec fn all_triggered_effects(self) -> Seq<EffectModel> {
        forced_effects(self.previous_brightness, self.active_actions(), self.lock_state.is_locked)
    }

    /// The state after the instant actions were fired, which happens once
    /// until they are re-armed.
    pub open spec fn instants_fired(self) -> StateModel {
        if self.instants_triggered {
            self
        } else {
            StateModel {
                instants_triggered: true,
                lock_state: LockModel {
                    is_locked: self.lock_state.is_locked || has_lock(self.instant_actions),
                    ..self.lock_state
                },
                ..self
            }
        }
    }

    /// What firing the instant actions asks of the outside world.
    pub open spec fn instants_fired_effects(self) -> Seq<EffectModel> {
        if self.instants_triggered {
            Seq::<EffectModel>::empty()
        } else {
            batch_effects(self.previous_brightness, self.instant_actions)
        }
    }

    /// The state after the lock was found to have ended: no process, the
    /// cursor back at the start, the screen unlocked.
    pub open spec fn lock_ended(self) -> StateModel {
        StateModel {
            action_index: 0,
            cascade_done: false,
            lock_state: LockModel {
                pid: None,
                post_advanced: false,
                is_locked: false,
                ..self.lock_state
            },
            ..self
        }
    }

    /// The state after the power source was reported. A signal that
    /// differs from the last one is taken over, and if it selects another
    /// block, that block starts afresh and the instant actions are
    /// re-armed.
    pub open spec fn power_source_updated(self, on_battery: bool) -> StateModel {
        let switched = StateModel { on_battery: Some(on_battery), ..self };
        let block = switched.active_block();
        if self.on_battery == Some(on_battery) {
            self
        } else if block == self.active_block() {
            StateModel { current_block: Some(block), ..switched }
        } else {
            StateModel {
                current_block: Some(block),
                action_index: 0,
                cascade_done: false,
                instants_triggered: false,
                ..switched
            }.with_block_actions(block, cleared(switched.active_actions()))
        }
    }

    /// What a report of the power source asks of the outside world: a
    /// general wake if the signal differs from the last one.
    pub open spec fn power_source_effects(self, on_battery: bool) -> Seq<EffectModel> {
        if self.on_battery == Some(on_battery) {
            Seq::<EffectModel>::empty()
        } else {
            seq![EffectModel::WakeIdleAll]
        }
    }

    /// All actions whose deadlines the idle scheduler looks at: those of
    /// every block, active or not.
    pub open spec fn scheduled_actions(self) -> Seq<ActionModel> {
        self.default_actions + self.ac_actions + self.battery_actions
    }

    /// The earliest deadline among all scheduled actions, if there is any
    /// action.
    pub open spec fn earliest_deadline(self) -> Option<u64> {
        earliest_from(
            earliest_from(
                earliest_from(None, self.default_actions, self.last_activity),
                self.ac_actions,
                self.last_activity,
            ),
            self.battery_actions,
            self.last_activity,
        )
    }

    /// When the idle scheduler should next look: never while paused,
    /// else at the earliest deadline.
    pub open spec fn next_action_instant(self) -> Option<u64> {
        if self.paused || self.manually_paused {
            None
        } else {
            self.earliest_deadline()
        }
    }
}

/// The earlier of `best` and the deadlines of `actions`.
pub open spec fn earliest_from(
    best: Option<u64>,
    actions: Seq<ActionModel>,
    baseline: u64,
) -> Option<u64>
    decreases actions.len(),
{
    if actions.len() == 0 {
        best
    } else {
        let at = actions.last().deadline(baseline);
        match earliest_from(best, actions.drop_last(), baseline) {
            Some(earlier) => Some(if at < earlier {
                at
            } else {
                earlier
            }),
            None => Some(at),
        }
    }
}

/// `earliest_from` yields the smallest of `best` and all the deadlines: it
/// is one of them, none of them is earlier, and it is absent only when
/// there is nothing to choose from.
pub proof fn lemma_earliest_from(best: Option<u64>, actions: Seq<ActionModel>, baseline: u64)
    ensures
        earliest_from(best, actions, baseline) is None <==> best is None && actions.len() == 0,
        earliest_from(best, actions, baseline) matches Some(at) ==> {
            &&& best matches Some(b) ==> at <= b
            &&& forall|i: int|
                0 <= i < actions.len() ==> at <= (#[trigger] actions[i]).deadline(baseline)
            &&& best == Some(at) || exists|i: int|
                0 <= i < actions.len() && (#[trigger] actions[i]).deadline(baseline) == at
        },
    decreases actions.len(),
{
    if actions.len() > 0 {
        lemma_earliest_from(best, actions.drop_last(), baseline);
        let earlier = earliest_from(best, actions.drop_last(), baseline);
        let at = earliest_from(best, actions, baseline)->0;
        assert forall|i: int| 0 <= i < actions.len() implies at <= (#[trigger] actions[i]).deadline(
            baseline,
        ) by {
            if i < actions.len() - 1 {
                assert(actions[i] == actions.drop_last()[i]);
            }
        }
        if at == actions.last().deadline(baseline) {
            assert(actions[actions.len() - 1].deadline(baseline) == at);
        } else if best != Some(at) {
            let i = choose|i: int|
                0 <= i < actions.drop_last().len() && (#[trigger] actions.drop_last()[i]).deadline(
                    baseline,
                ) == at;
            assert(actions[i].deadline(baseline) == at);
        }
    }
}

} // verus!
