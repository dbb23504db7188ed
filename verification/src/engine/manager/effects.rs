use vstd::prelude::*;

verus! {

/// Outside work that a state transition asks its caller to perform.
///
/// Transitions return their effects in the order in which they must be
/// carried out.
#[derive(Debug, PartialEq, Eq)]
pub enum Effect {
    /// Read the present brightness level and hand it to `capture_brightness`.
    CaptureBrightness,
    /// Set the brightness back to `level`.
    RestoreBrightness { level: u8 },
    /// Signal the lock watcher.
    NotifyLockWatcher,
    /// Wake the idle scheduler, leaving a permit if it is not waiting.
    WakeIdle,
    /// Wake every task that is waiting on the general wake signal.
    WakeIdleAll,
    /// Launch the lock command as a tracked, detached process and report
    /// the outcome to `lock_launched`.
    SpawnLock { command: String },
    /// Launch a command as a fire-and-forget task and keep its handle for
    /// cleanup at shutdown.
    SpawnCommand { command: String },
    /// Launch a command as a fire-and-forget task whose handle is let go.
    SpawnUntracked { command: String },
    /// Launch a command as a detached process that nobody tracks.
    SpawnDetached { command: String },
    /// Run a command and wait until it has ended.
    RunAndWait { command: String },
    /// Wait this many milliseconds before carrying on.
    Sleep { millis: u64 },
    /// Broadcast the shutdown signal to every long-running task.
    SignalShutdown,
    /// Abandon the idle loop, the lock watcher, the input listener and every
    /// spawned command task that is still outstanding.
    AbortTasks,
}

/// Mathematical value of an [`Effect`].
pub enum EffectModel {
    CaptureBrightness,
    RestoreBrightness { level: u8 },
    NotifyLockWatcher,
    WakeIdle,
    WakeIdleAll,
    SpawnLock { command: Seq<char> },
    SpawnCommand { command: Seq<char> },
    SpawnUntracked { command: Seq<char> },
    SpawnDetached { command: Seq<char> },
    RunAndWait { command: Seq<char> },
    Sleep { millis: u64 },
    SignalShutdown,
    AbortTasks,
}

impl View for Effect {
    type V = EffectModel;

    open spec fn view(&self) -> EffectModel {
        match *self {
            Effect::CaptureBrightness => EffectModel::CaptureBrightness,
            Effect::RestoreBrightness { level } => EffectModel::RestoreBrightness { level },
            Effect::NotifyLockWatcher => EffectModel::NotifyLockWatcher,
            Effect::WakeIdle => EffectModel::WakeIdle,
            Effect::WakeIdleAll => EffectModel::WakeIdleAll,
            Effect::SpawnLock { command } => EffectModel::SpawnLock { command: command@ },
            Effect::SpawnCommand { command } => EffectModel::SpawnCommand { command: command@ },
            Effect::SpawnUntracked { command } => EffectModel::SpawnUntracked { command: command@ },
            Effect::SpawnDetached { command } => EffectModel::SpawnDetached { command: command@ },
            Effect::RunAndWait { command } => EffectModel::RunAndWait { command: command@ },
            Effect::Sleep { millis } => EffectModel::Sleep { millis },
            Effect::SignalShutdown => EffectModel::SignalShutdown,
            Effect::AbortTasks => EffectModel::AbortTasks,
        }
    }
}

/// The values of a list of effects, in order.
pub open spec fn effects_view(v: Seq<Effect>) -> Seq<EffectModel> {
    v.map_values(|e: Effect| e@)
}

/// Appends `tail` to `out`.
pub fn append_effects(out: &mut Vec<Effect>, tail: Vec<Effect>)
    ensures
        effects_view(final(out)@) == effects_view(old(out)@) + effects_view(tail@),
{
    let mut tail = tail;
    let ghost start = out@;
    let ghost all = tail@;
    out.append(&mut tail);
    assert(effects_view(out@) =~= effects_view(start) + effects_view(all));
}

} // verus!
