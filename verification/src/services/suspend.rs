use crate::config::idle::TimedActionModel;
use crate::engine::manager::effects::{effects_view, Effect, EffectModel};
use crate::engine::timer::{IdleTimer, TimerModel};
use crate::text::texts_view;
use vstd::prelude::*;

verus! {

/// The resume commands of those of the first `n` places that hold a
/// triggered action with a resume command, in order.
pub open spec fn resume_commands_upto(triggered: Seq<Option<TimedActionModel>>, n: int) -> Seq<
    Seq<char>,
>
    decreases n,
{
    if n <= 0 {
        Seq::<Seq<char>>::empty()
    } else {
        match triggered[n - 1] {
            Some(action) => match action.resume_command {
                Some(command) => resume_commands_upto(triggered, n - 1).push(command),
                None => resume_commands_upto(triggered, n - 1),
            },
            None => resume_commands_upto(triggered, n - 1),
        }
    }
}

/// A fire-and-forget launch for each of the commands, in order.
pub open spec fn untracked_launches(commands: Seq<Seq<char>>) -> Seq<EffectModel> {
    commands.map_values(|command: Seq<char>| EffectModel::SpawnUntracked { command })
}

impl TimerModel {
    /// The resume commands of the actions that have fired, in order.
    pub open spec fn resume_commands(self) -> Seq<Seq<char>> {
        resume_commands_upto(self.triggered_actions, self.triggered_actions.len() as int)
    }

    /// The timer after a sleep signal came in at `now`: before the system
    /// sleeps the pre-suspend hook runs as if asked for by hand and without
    /// a rewind; after it has woken nothing changes.
    pub open spec fn sleep_signalled(self, going_to_sleep: bool, now: u64) -> TimerModel {
        if going_to_sleep {
            self.pre_suspended(false, true, now)
        } else {
            self
        }
    }

    /// What a sleep signal asks of the outside world: the pre-suspend
    /// command before the system sleeps, the resume commands after it has
    /// woken.
    pub open spec fn sleep_signalled_effects(self, going_to_sleep: bool, now: u64) -> Seq<
        EffectModel,
    > {
        if going_to_sleep {
            self.pre_suspended_effects(false, true, now)
        } else {
            untracked_launches(self.resume_commands())
        }
    }
}

/// The resume commands of the actions that have fired, in order.
pub fn resume_commands(timer: &IdleTimer) -> (commands: Vec<String>)
    ensures
        texts_view(commands@) == timer@.resume_commands(),
{
    let mut commands: Vec<String> = Vec::new();
    let mut i: usize = 0;
    assert(texts_view(commands@) =~= resume_commands_upto(timer@.triggered_actions, 0));
    while i < timer.triggered_actions.len()
        invariant
            i <= timer.triggered_actions.len(),
            texts_view(commands@) == resume_commands_upto(timer@.triggered_actions, i as int),
        decreases timer.triggered_actions.len() - i,
    {
        let ghost before = commands@;
        assert(timer@.triggered_actions[i as int] == crate::engine::timer::opt_action_view(
            timer.triggered_actions@[i as int],
        ));
        match &timer.triggered_actions[i] {
            Some(action) => match &action.resume_command {
                Some(command) => {
                    commands.push(command.clone());
                    assert(texts_view(commands@) =~= texts_view(before).push(command@));
                },
                None => {},
            },
            None => {},
        }
        i = i + 1;
    }
    commands
}

/// Takes in a sleep signal of the system at `now`.
pub fn suspend_signal(timer: &mut IdleTimer, going_to_sleep: bool, now: u64) -> (effects: Vec<
    Effect,
>)
    ensures
        final(timer)@ == old(timer)@.sleep_signalled(going_to_sleep, now),
        effects_view(effects@) == old(timer)@.sleep_signalled_effects(going_to_sleep, now),
        old(timer)@.wf() ==> final(timer)@.wf(),
{
    if going_to_sleep {
        timer.trigger_pre_suspend(false, true, now)
    } else {
        let commands = resume_commands(timer);
        let ghost all = texts_view(commands@);
        let mut effects: Vec<Effect> = Vec::new();
        let mut i: usize = 0;
        while i < commands.len()
            invariant
                i <= commands.len(),
                all == texts_view(commands@),
                effects_view(effects@) =~= untracked_launches(all.take(i as int)),
            decreases commands.len() - i,
        {
            let ghost before = effects@;
            effects.push(Effect::SpawnUntracked { command: commands[i].clone() });
            assert(effects_view(effects@) =~= effects_view(before).push(
                EffectModel::SpawnUntracked { command: all[i as int] },
            ));
            i = i + 1;
        }
        assert(all.take(commands.len() as int) =~= all);
        effects
    }
}

} // verus!
