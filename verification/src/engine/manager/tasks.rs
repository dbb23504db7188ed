use crate::config::model::{add_capped, clone_opt_string};
use crate::engine::manager::effects::{effects_view, Effect, EffectModel};
use crate::engine::manager::state::StateModel;
use crate::engine::manager::Manager;
use vstd::prelude::*;

verus! {

/// The shortest sleep of the idle scheduler, taken when a deadline has
/// passed already.
pub const MIN_SLEEP_MS: u64 = 50;

/// The longest sleep of the idle scheduler.
pub const MAX_SLEEP_MS: u64 = 60_000;

/// How often the lock watcher looks at the lock process.
pub const LOCK_POLL_MS: u64 = 500;

/// Until when the idle scheduler sleeps at `now`, given the next deadline:
/// a deadline that has passed gives the shortest sleep, one far ahead or
/// none at all the longest.
pub open spec fn sleep_target(next: Option<u64>, now: u64) -> u64 {
    match next {
        Some(at) => if at <= now {
            add_capped(now, MIN_SLEEP_MS as nat)
        } else if at - now > MAX_SLEEP_MS {
            add_capped(now, MAX_SLEEP_MS as nat)
        } else {
            at
        },
        None => add_capped(now, MAX_SLEEP_MS as nat),
    }
}

/// `at + span`, stopping at the largest timestamp.
pub fn later(at: u64, span: u64) -> (sum: u64)
    ensures
        sum == add_capped(at, span as nat),
{
    if at > u64::MAX - span {
        u64::MAX
    } else {
        at + span
    }
}

/// Until when the idle scheduler sleeps at `now`, given the next deadline.
pub fn sleep_deadline(next: Option<u64>, now: u64) -> (until: u64)
    ensures
        until == sleep_target(next, now),
{
    match next {
        Some(at) => {
            if at <= now {
                later(now, MIN_SLEEP_MS)
            } else if at - now > MAX_SLEEP_MS {
                later(now, MAX_SLEEP_MS)
            } else {
                at
            }
        },
        None => later(now, MAX_SLEEP_MS),
    }
}

/// Which of the three things the idle scheduler waits for has happened.
#[derive(Clone, Copy, Debug, PartialEq, Eq, Structural)]
pub enum IdleEvent {
    /// The sleep ran to its deadline.
    DeadlineReached,
    /// The general wake signal came.
    Woken,
    /// The shutdown signal came.
    Shutdown,
}

/// What the idle scheduler does next.
#[derive(Clone, Copy, Debug, PartialEq, Eq, Structural)]
pub enum IdleRequest {
    /// Sleep until `deadline`, unless woken or shut down before.
    SleepUntil { deadline: u64 },
    /// Leave the loop.
    Exit,
}

/// One turn of the idle scheduler.
#[derive(Debug, PartialEq, Eq)]
pub struct IdleStep {
    pub request: IdleRequest,
    pub effects: Vec<Effect>,
}

impl StateModel {
    /// The state after one turn of the idle scheduler at `now`: only a
    /// sleep that ran to its deadline evaluates the cascade.
    pub open spec fn idle_turn(self, event: IdleEvent, now: u64) -> StateModel {
        if event == IdleEvent::DeadlineReached {
            self.check_timeouts(now)
        } else {
            self
        }
    }

    /// What one turn of the idle scheduler asks of the outside world.
    pub open spec fn idle_turn_effects(self, event: IdleEvent, now: u64) -> Seq<EffectModel> {
        if event == IdleEvent::DeadlineReached {
            self.check_timeouts_effects(now)
        } else {
            Seq::<EffectModel>::empty()
        }
    }

    /// What the idle scheduler does after one turn at `now`.
    pub open spec fn idle_turn_request(self, event: IdleEvent, now: u64) -> IdleRequest {
        if event == IdleEvent::Shutdown {
            IdleRequest::Exit
        } else {
            IdleRequest::SleepUntil {
                deadline: sleep_target(self.idle_turn(event, now).next_action_instant(), now),
            }
        }
    }
}

/// One turn of the idle scheduler: takes in what ended the last wait at
/// `now`, evaluates the cascade if the sleep ran out, and says until when
/// to sleep next.
pub fn idle_task_step(mgr: &mut Manager, event: IdleEvent, now: u64) -> (step: IdleStep)
    ensures
        final(mgr)@ == old(mgr)@.idle_turn(event, now),
        effects_view(step.effects@) == old(mgr)@.idle_turn_effects(event, now),
        step.request == old(mgr)@.idle_turn_request(event, now),
{
    let nothing: Vec<Effect> = Vec::new();
    assert(effects_view(nothing@) =~= Seq::<EffectModel>::empty());
    match event {
        IdleEvent::Shutdown => IdleStep { request: IdleRequest::Exit, effects: nothing },
        IdleEvent::Woken => {
            let deadline = sleep_deadline(mgr.next_action_instant(), now);
            IdleStep { request: IdleRequest::SleepUntil { deadline }, effects: nothing }
        },
        IdleEvent::DeadlineReached => {
            let effects = if !mgr.state.paused && !mgr.state.manually_paused {
                mgr.check_timeouts(now)
            } else {
                nothing
            };
            let deadline = sleep_deadline(mgr.next_action_instant(), now);
            IdleStep { request: IdleRequest::SleepUntil { deadline }, effects }
        },
    }
}

/// Where the lock watcher stands.
#[derive(Clone, Copy, Debug, PartialEq, Eq, Structural)]
pub enum WatcherPhase {
    /// Waiting for a lock to begin.
    Idle,
    /// A lock is active and its process is polled.
    Supervising,
    /// The watcher has left.
    Stopped,
}

/// What ended the lock watcher's last wait.
#[derive(Clone, Copy, Debug, PartialEq, Eq, Structural)]
pub enum WatcherEvent {
    /// The watcher started, was notified, or waited out a poll interval.
    Wake,
    /// The answer to a liveness check: `None` when the process layer could
    /// not tell.
    Liveness { alive: Option<bool> },
    /// The shutdown signal came.
    Shutdown,
}

/// What the lock watcher does next.
#[derive(Debug, PartialEq, Eq)]
pub enum WatcherRequest {
    /// Wait for the lock notification or shutdown, then report `Wake`.
    AwaitLock,
    /// Ask the process layer whether `command` still runs, and report the
    /// answer.
    CheckProcess { command: String },
    /// No lock command is known: wait, then report the lock as alive.
    AssumeAlive { after_ms: u64 },
    /// Wait for the lock notification, the poll interval or shutdown, then
    /// report `Wake`.
    AwaitPoll { within_ms: u64 },
    /// Leave the loop.
    Exit,
}

/// Mathematical value of a [`WatcherRequest`].
pub enum WatcherRequestModel {
    AwaitLock,
    CheckProcess { command: Seq<char> },
    AssumeAlive { after_ms: u64 },
    AwaitPoll { within_ms: u64 },
    Exit,
}

impl View for WatcherRequest {
    type V = WatcherRequestModel;

    open spec fn view(&self) -> WatcherRequestModel {
        match *self {
            WatcherRequest::AwaitLock => WatcherRequestModel::AwaitLock,
            WatcherRequest::CheckProcess { command } => WatcherRequestModel::CheckProcess {
                command: command@,
            },
            WatcherRequest::AssumeAlive { after_ms } => WatcherRequestModel::AssumeAlive {
                after_ms,
            },
            WatcherRequest::AwaitPoll { within_ms } => WatcherRequestModel::AwaitPoll {
                within_ms,
            },
            WatcherRequest::Exit => WatcherRequestModel::Exit,
        }
    }
}

/// One turn of the lock watcher.
#[derive(Debug, PartialEq, Eq)]
pub struct WatcherStep {
    pub phase: WatcherPhase,
    pub request: WatcherRequest,
    pub effects: Vec<Effect>,
}

/// Whether a turn of the lock watcher finds that the lock has ended: it
/// supervises, and the lock process is reported as not alive, or its
/// liveness could not be told.
pub open spec fn lock_lost(phase: WatcherPhase, event: WatcherEvent) -> bool {
    &&& phase == WatcherPhase::Supervising
    &&& event matches WatcherEvent::Liveness { alive }
    &&& alive != Some(true)
}

impl StateModel {
    /// How the lock watcher checks on an active lock.
    pub open spec fn liveness_probe(self) -> WatcherRequestModel {
        match self.lock_state.command {
            Some(command) => WatcherRequestModel::CheckProcess { command },
            None => WatcherRequestModel::AssumeAlive { after_ms: LOCK_POLL_MS },
        }
    }

    /// The state after one turn of the lock watcher: it changes only when
    /// the lock is found to have ended.
    pub open spec fn watcher_turn(self, phase: WatcherPhase, event: WatcherEvent) -> StateModel {
        if lock_lost(phase, event) {
            self.lock_ended()
        } else {
            self
        }
    }

    /// Where the lock watcher stands after one turn.
    pub open spec fn watcher_turn_phase(
        self,
        phase: WatcherPhase,
        event: WatcherEvent,
    ) -> WatcherPhase {
        if phase == WatcherPhase::Stopped || event == WatcherEvent::Shutdown {
            WatcherPhase::Stopped
        } else if lock_lost(phase, event) || !self.lock_state.is_locked {
            WatcherPhase::Idle
        } else {
            WatcherPhase::Supervising
        }
    }

    /// What the lock watcher does after one turn.
    pub open spec fn watcher_turn_request(
        self,
        phase: WatcherPhase,
        event: WatcherEvent,
    ) -> WatcherRequestModel {
        if phase == WatcherPhase::Stopped || event == WatcherEvent::Shutdown {
            WatcherRequestModel::Exit
        } else if lock_lost(phase, event) || !self.lock_state.is_locked {
            WatcherRequestModel::AwaitLock
        } else if phase == WatcherPhase::Supervising && event is Liveness {
            WatcherRequestModel::AwaitPoll { within_ms: LOCK_POLL_MS }
        } else {
            self.liveness_probe()
        }
    }

    /// What one turn of the lock watcher asks of the outside world: the
    /// idle scheduler is woken when the lock has ended.
    pub open spec fn watcher_turn_effects(
        self,
        phase: WatcherPhase,
        event: WatcherEvent,
    ) -> Seq<EffectModel> {
        if lock_lost(phase, event) {
            seq![EffectModel::WakeIdle]
        } else {
            Seq::<EffectModel>::empty()
        }
    }
}

/// Resets what depends on the lock once the lock has ended.
pub fn end_lock(mgr: &mut Manager)
    ensures
        final(mgr)@ == old(mgr)@.lock_ended(),
{
    mgr.state.lock_state.pid = None;
    mgr.state.lock_state.post_advanced = false;
    mgr.state.action_index = 0;
    mgr.state.cascade_done = false;
    mgr.state.lock_state.is_locked = false;
}

/// One turn of the lock watcher: takes in what ended its last wait and
/// says where it stands and what to do next.
pub fn lock_watcher_step(mgr: &mut Manager, phase: WatcherPhase, event: WatcherEvent) -> (step:
    WatcherStep)
    ensures
        final(mgr)@ == old(mgr)@.watcher_turn(phase, event),
        step.phase == old(mgr)@.watcher_turn_phase(phase, event),
        step.request@ == old(mgr)@.watcher_turn_request(phase, event),
        effects_view(step.effects@) == old(mgr)@.watcher_turn_effects(phase, event),
{
    let mut effects: Vec<Effect> = Vec::new();
    assert(effects_view(effects@) =~= Seq::<EffectModel>::empty());
    if phase == WatcherPhase::Stopped || event == WatcherEvent::Shutdown {
        return WatcherStep { phase: WatcherPhase::Stopped, request: WatcherRequest::Exit, effects };
    }
    let answered = match event {
        WatcherEvent::Liveness { alive } => Some(alive),
        _ => None,
    };
    if phase == WatcherPhase::Supervising {
        match answered {
            Some(alive) => {
                let still_alive = match alive {
                    Some(alive) => alive,
                    None => false,
                };
                if !still_alive {
                    end_lock(mgr);
                    effects.push(Effect::WakeIdle);
                    assert(effects_view(effects@) =~= seq![EffectModel::WakeIdle]);
                    return WatcherStep {
                        phase: WatcherPhase::Idle,
                        request: WatcherRequest::AwaitLock,
                        effects,
                    };
                }
            },
            None => {},
        }
    }
    if !mgr.state.lock_state.is_locked {
        return WatcherStep { phase: WatcherPhase::Idle, request: WatcherRequest::AwaitLock, effects };
    }
    let request = if phase == WatcherPhase::Supervising && answered.is_some() {
        WatcherRequest::AwaitPoll { within_ms: LOCK_POLL_MS }
    } else {
        match clone_opt_string(&mgr.state.lock_state.command) {
            Some(command) => WatcherRequest::CheckProcess { command },
            None => WatcherRequest::AssumeAlive { after_ms: LOCK_POLL_MS },
        }
    };
    WatcherStep { phase: WatcherPhase::Supervising, request, effects }
}

} // verus!
