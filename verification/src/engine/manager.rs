pub mod effects;
pub mod helpers;
pub mod laws;
pub mod rules;
pub mod state;
pub mod tasks;

use crate::config::model::{
    actions_view, clone_actions, ActionModel, IdleAction, IdleActionBlock, StasisConfig,
    MILLIS_PER_SECOND,
};
use crate::engine::manager::effects::{append_effects, effects_view, Effect, EffectModel};
use crate::engine::manager::helpers::{restore_brightness, run_action};
use crate::engine::manager::rules::{
    batch_effects, earliest_from, has_lock, lemma_has_lock_step, PRE_SUSPEND_GRACE_MS,
    SHUTDOWN_GRACE_MS,
};
use crate::engine::manager::state::{find_lock, ActionBlock, ManagerState, StateModel};
use std::sync::Arc;
use vstd::prelude::*;

verus! {

/// The scheduler's API: every call is one transition of the shared state,
/// and returns the outside work that goes with it.
#[derive(Debug, PartialEq, Eq)]
pub struct Manager {
    pub state: ManagerState,
}

impl View for Manager {
    type V = StateModel;

    open spec fn view(&self) -> StateModel {
        self.state@
    }
}

/// The general wake that goes with a change of state.
pub open spec fn wake_if_changed(before: StateModel, after: StateModel) -> Seq<EffectModel> {
    if before == after {
        Seq::<EffectModel>::empty()
    } else {
        seq![EffectModel::WakeIdleAll]
    }
}

/// What the pre-suspend hook asks of the outside world: the command, if
/// one is configured, and then the grace period.
pub open spec fn pre_suspend_effects(command: Option<Seq<char>>) -> Seq<EffectModel> {
    match command {
        Some(command) => seq![
            EffectModel::SpawnDetached { command },
            EffectModel::Sleep { millis: PRE_SUSPEND_GRACE_MS },
        ],
        None => Seq::<EffectModel>::empty(),
    }
}

/// What shutting down asks of the outside world: the shutdown signal, the
/// grace period, and then the end of every task that is still there.
pub open spec fn shutdown_effects() -> Seq<EffectModel> {
    seq![
        EffectModel::SignalShutdown,
        EffectModel::Sleep { millis: SHUTDOWN_GRACE_MS },
        EffectModel::AbortTasks,
    ]
}

/// The earlier of `best` and the deadlines of `actions`.
pub fn earliest_deadline(best: Option<u64>, actions: &Vec<IdleActionBlock>, baseline: u64) -> (found:
    Option<u64>)
    ensures
        found == earliest_from(best, actions_view(actions@), baseline),
{
    let ghost all = actions_view(actions@);
    let mut found = best;
    let mut i: usize = 0;
    while i < actions.len()
        invariant
            i <= actions.len(),
            all == actions_view(actions@),
            found == earliest_from(best, all.take(i as int), baseline),
        decreases actions.len() - i,
    {
        let at = actions[i].deadline(baseline);
        proof {
            assert(all.take(i as int + 1).drop_last() =~= all.take(i as int));
            assert(all.take(i as int + 1).last() == actions[i as int]@);
        }
        found = match found {
            Some(earlier) => Some(if at < earlier {
                at
            } else {
                earlier
            }),
            None => Some(at),
        };
        i = i + 1;
    }
    proof {
        assert(all.take(actions.len() as int) =~= all);
    }
    found
}

impl Manager {
    /// A manager in the state a daemon starts in at time `now`.
    pub fn new(cfg: Arc<StasisConfig>, now: u64) -> (manager: Manager)
        ensures
            manager@ == StateModel::initial((*cfg)@, now),
    {
        Manager { state: ManagerState::new(cfg, now) }
    }

    /// Lets the instant actions fire once more.
    pub fn reset_instant_actions(&mut self)
        ensures
            final(self)@ == (StateModel { instants_triggered: false, ..old(self)@ }),
    {
        self.state.instants_triggered = false;
    }

    /// Runs the pre-suspend hook. A suspend that was not asked for by hand
    /// is remembered.
    pub fn trigger_pre_suspend(&mut self, manual: bool) -> (effects: Vec<Effect>)
        ensures
            final(self)@ == (StateModel {
                suspend_occured: old(self)@.suspend_occured || !manual,
                ..old(self)@
            }),
            effects_view(effects@) == pre_suspend_effects(old(self)@.pre_suspend_command),
    {
        if !manual {
            self.state.suspend_occured = true;
        }
        let mut effects: Vec<Effect> = Vec::new();
        match &self.state.pre_suspend_command {
            Some(command) => {
                effects.push(Effect::SpawnDetached { command: command.clone() });
                effects.push(Effect::Sleep { millis: PRE_SUSPEND_GRACE_MS });
            },
            None => {},
        }
        assert(effects_view(effects@) =~= pre_suspend_effects(old(self)@.pre_suspend_command));
        effects
    }

    /// Records at `now` that the cascade was moved past the lock stage.
    pub fn advance_past_lock(&mut self, now: u64)
        ensures
            final(self)@ == (StateModel {
                lock_state: crate::engine::manager::state::LockModel {
                    post_advanced: true,
                    last_advanced: Some(now),
                    ..old(self)@.lock_state
                },
                ..old(self)@
            }),
    {
        self.state.lock_state.post_advanced = true;
        self.state.lock_state.last_advanced = Some(now);
    }

    /// Pauses the timers, by hand (`manual`) or on an automatic signal.
    pub fn pause(&mut self, manual: bool) -> (effects: Vec<Effect>)
        ensures
            final(self)@ == old(self)@.pause(manual),
            effects_view(effects@) == wake_if_changed(old(self)@, final(self)@),
    {
        let was_paused = self.state.paused;
        let was_manual = self.state.manually_paused;
        if manual {
            self.state.manually_paused = true;
            self.state.paused = false;
        } else if !self.state.manually_paused {
            self.state.paused = true;
        }
        self.wake_for_pause_change(Ghost(old(self)@), was_paused, was_manual)
    }

    /// Resumes the timers, by hand (`manual`) or on an automatic signal.
    pub fn resume(&mut self, manual: bool) -> (effects: Vec<Effect>)
        ensures
            final(self)@ == old(self)@.resume(manual),
            effects_view(effects@) == wake_if_changed(old(self)@, final(self)@),
    {
        let was_paused = self.state.paused;
        let was_manual = self.state.manually_paused;
        if manual {
            self.state.manually_paused = false;
        } else if !self.state.manually_paused {
            self.state.paused = false;
        }
        self.wake_for_pause_change(Ghost(old(self)@), was_paused, was_manual)
    }

    /// The wake that goes with a change of the two pause flags since
    /// `before`.
    fn wake_for_pause_change(
        &self,
        Ghost(before): Ghost<StateModel>,
        was_paused: bool,
        was_manual: bool,
    ) -> (effects: Vec<Effect>)
        requires
            before.paused == was_paused,
            before.manually_paused == was_manual,
            self@ == (StateModel {
                paused: self@.paused,
                manually_paused: self@.manually_paused,
                ..before
            }),
        ensures
            effects_view(effects@) == wake_if_changed(before, self@),
    {
        let mut effects: Vec<Effect> = Vec::new();
        if self.state.paused != was_paused || self.state.manually_paused != was_manual {
            effects.push(Effect::WakeIdleAll);
        }
        assert(effects_view(effects@) =~= wake_if_changed(before, self@));
        effects
    }

    /// Sets or lifts the manual inhibit.
    pub fn toggle_state(&mut self, inhibit: bool) -> (effects: Vec<Effect>)
        ensures
            final(self)@ == if inhibit {
                old(self)@.pause(true)
            } else {
                old(self)@.resume(true)
            },
            effects_view(effects@) == wake_if_changed(old(self)@, final(self)@),
    {
        if inhibit {
            self.pause(true)
        } else {
            self.resume(true)
        }
    }

    /// Fires the instant actions, once until they are re-armed.
    pub fn trigger_instant_actions(&mut self) -> (effects: Vec<Effect>)
        ensures
            final(self)@ == old(self)@.instants_fired(),
            effects_view(effects@) == old(self)@.instants_fired_effects(),
    {
        let mut effects: Vec<Effect> = Vec::new();
        if self.state.instants_triggered {
            assert(effects_view(effects@) =~= Seq::<EffectModel>::empty());
            return effects;
        }
        let instant_actions = clone_actions(&self.state.instant_actions);
        let ghost all = actions_view(instant_actions@);
        let ghost start = self@;
        let mut i: usize = 0;
        proof {
            assert(effects_view(effects@) =~= batch_effects(
                start.previous_brightness,
                all.take(0),
            ));
        }
        while i < instant_actions.len()
            invariant
                i <= instant_actions.len(),
                all == actions_view(instant_actions@),
                all == start.instant_actions,
                effects_view(effects@) == batch_effects(
                    start.previous_brightness,
                    all.take(i as int),
                ),
                self@ == (StateModel {
                    lock_state: crate::engine::manager::state::LockModel {
                        is_locked: start.lock_state.is_locked || has_lock(all.take(i as int)),
                        ..start.lock_state
                    },
                    ..start
                }),
            decreases instant_actions.len() - i,
        {
            let ghost before = self@;
            let fired = run_action(self, &instant_actions[i]);
            append_effects(&mut effects, fired);
            proof {
                let grown = all.take(i as int + 1);
                assert(grown.drop_last() =~= all.take(i as int));
                assert(grown.last() == instant_actions[i as int]@);
                lemma_has_lock_step(all, i as int);
            }
            i = i + 1;
        }
        proof {
            assert(all.take(instant_actions.len() as int) =~= all);
        }
        self.state.instants_triggered = true;
        effects
    }

    /// Takes in fresh user activity, reported at `now`.
    pub fn reset(&mut self, now: u64) -> (effects: Vec<Effect>)
        ensures
            final(self)@ == old(self)@.reset(now),
            effects_view(effects@) == old(self)@.reset_effects(now),
    {
        let debounce_seconds = match &self.state.cfg {
            Some(cfg) => cfg.debounce_seconds,
            None => {
                let effects: Vec<Effect> = Vec::new();
                assert(effects_view(effects@) =~= Seq::<EffectModel>::empty());
                return effects;
            },
        };
        let mut effects = restore_brightness(&mut self.state);
        let ghost restore = effects_view(effects@);
        let debounce: u64 = debounce_seconds as u64 * MILLIS_PER_SECOND;
        let debounce_end: u64 = if now > u64::MAX - debounce {
            u64::MAX
        } else {
            now + debounce
        };
        self.state.last_activity = now;
        self.state.last_activity_display = now;
        self.state.debounce = Some(debounce_end);
        self.state.stamp_every(ActionBlock::Default, None);
        self.state.stamp_every(ActionBlock::Ac, None);
        self.state.stamp_every(ActionBlock::Battery, None);
        let block = self.state.active_block();
        self.state.current_block = Some(block);
        self.state.action_index = 0;
        self.state.cascade_done = false;
        assert(self@ == old(self)@.rebased(now));
        let len = self.state.block_actions(block).len();
        if len > 0 && self.state.block_actions(block)[0].is_instant() {
            assert(effects_view(effects@) =~= old(self)@.reset_effects(now));
            return effects;
        }
        if self.state.lock_state.is_locked {
            match find_lock(self.state.block_actions(block)) {
                Some(lock_at) => {
                    let next = lock_at + 1;
                    self.state.action_index = next;
                    if next < len {
                        self.state.stamp(block, next, Some(debounce_end));
                    }
                    self.state.lock_state.post_advanced = true;
                },
                None => {},
            }
        }
        effects.push(Effect::WakeIdle);
        assert(effects_view(effects@) =~= restore + seq![EffectModel::WakeIdle]);
        effects
    }

    /// Deals with a debounce that has run out and selects the block.
    fn settle(&mut self, now: u64) -> (block: ActionBlock)
        requires
            !old(self)@.is_held(now),
        ensures
            final(self)@ == old(self)@.settled(now),
            block == final(self)@.active_block(),
    {
        if self.state.debounce.is_some() {
            self.state.last_activity = now;
            self.state.debounce = None;
        }
        let block = self.state.active_block();
        self.state.current_block = Some(block);
        block
    }

    /// Stamps the action at the cursor as fired at `now` and moves the
    /// cursor on.
    fn advance(&mut self, now: u64)
        requires
            old(self)@.active_actions().len() > 0,
        ensures
            final(self)@ == old(self)@.advanced(now),
    {
        let block = self.state.active_block();
        let len = self.state.block_actions(block).len();
        let index = if self.state.action_index < len {
            self.state.action_index
        } else {
            len - 1
        };
        self.state.stamp(block, index, Some(now));
        if self.state.action_index < len - 1 {
            self.state.action_index = self.state.action_index + 1;
            self.state.stamp(block, self.state.action_index, Some(now));
        } else {
            self.state.action_index = len - 1;
            self.state.cascade_done = true;
        }
    }

    /// The action that an evaluation of the settled state at `now` fires.
    fn due_action(&self, now: u64) -> (due: Option<IdleActionBlock>)
        ensures
            match due {
                Some(action) => {
                    &&& self@.active_actions().len() > 0
                    &&& !self@.cascade_done
                    &&& action@ == self@.active_actions()[self@.cursor()]
                    &&& !(action@.kind == IdleAction::LockScreen && self@.lock_state.is_locked)
                    &&& action@.is_due(self@.last_activity, now)
                },
                None => {
                    ||| self@.active_actions().len() == 0
                    ||| self@.cascade_done
                    ||| {
                        let action = self@.active_actions()[self@.cursor()];
                        ||| action.kind == IdleAction::LockScreen && self@.lock_state.is_locked
                        ||| !action.is_due(self@.last_activity, now)
                    }
                },
            },
    {
        let actions = self.state.block_actions(self.state.active_block());
        let len = actions.len();
        if len == 0 || self.state.cascade_done {
            return None;
        }
        let index = if self.state.action_index < len {
            self.state.action_index
        } else {
            len - 1
        };
        let action = &actions[index];
        if action.kind == IdleAction::LockScreen && self.state.lock_state.is_locked {
            return None;
        }
        if !action.is_due(self.state.last_activity, now) {
            return None;
        }
        Some(action.clone())
    }

    /// Evaluates the cascade once at `now`.
    pub fn check_timeouts(&mut self, now: u64) -> (effects: Vec<Effect>)
        ensures
            final(self)@ == old(self)@.check_timeouts(now),
            effects_view(effects@) == old(self)@.check_timeouts_effects(now),
    {
        let nothing: Vec<Effect> = Vec::new();
        assert(effects_view(nothing@) =~= Seq::<EffectModel>::empty());
        if self.state.paused || self.state.manually_paused {
            return nothing;
        }
        match self.state.debounce {
            Some(until) => {
                if now < until {
                    return nothing;
                }
            },
            None => {},
        }
        self.settle(now);
        match self.due_action(now) {
            Some(fired) => {
                self.advance(now);
                run_action(self, &fired)
            },
            None => nothing,
        }
    }

    /// When the idle scheduler should next look at the cascade.
    pub fn next_action_instant(&self) -> (next: Option<u64>)
        ensures
            next == self@.next_action_instant(),
    {
        if self.state.paused || self.state.manually_paused {
            return None;
        }
        let baseline = self.state.last_activity;
        let found = earliest_deadline(None, &self.state.default_actions, baseline);
        let found = earliest_deadline(found, &self.state.ac_actions, baseline);
        earliest_deadline(found, &self.state.battery_actions, baseline)
    }

    /// Takes in the power source: `true` on battery, `false` on AC.
    pub fn update_power_source(&mut self, on_battery: bool) -> (effects: Vec<Effect>)
        ensures
            final(self)@ == old(self)@.power_source_updated(on_battery),
            effects_view(effects@) == old(self)@.power_source_effects(on_battery),
    {
        let mut effects: Vec<Effect> = Vec::new();
        let unchanged = match self.state.on_battery {
            Some(last) => last == on_battery,
            None => false,
        };
        if unchanged {
            assert(effects_view(effects@) =~= Seq::<EffectModel>::empty());
            return effects;
        }
        let before = self.state.active_block();
        self.state.on_battery = Some(on_battery);
        let block = self.state.active_block();
        self.state.current_block = Some(block);
        if block != before {
            self.state.action_index = 0;
            self.state.cascade_done = false;
            self.state.instants_triggered = false;
            self.state.stamp_every(block, None);
        }
        effects.push(Effect::WakeIdleAll);
        assert(effects_view(effects@) =~= seq![EffectModel::WakeIdleAll]);
        effects
    }

    /// The shutdown protocol.
    pub fn shutdown(&mut self) -> (effects: Vec<Effect>)
        ensures
            final(self)@ == old(self)@,
            effects_view(effects@) == shutdown_effects(),
    {
        let mut effects: Vec<Effect> = Vec::new();
        effects.push(Effect::SignalShutdown);
        effects.push(Effect::Sleep { millis: SHUTDOWN_GRACE_MS });
        effects.push(Effect::AbortTasks);
        assert(effects_view(effects@) =~= shutdown_effects());
        effects
    }
}

} // verus!
