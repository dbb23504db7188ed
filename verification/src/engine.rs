pub mod manager;
pub mod services;
pub mod timer;
pub mod utils;

use crate::config::idle::IdleConfig;
use crate::engine::timer::{IdleTimer, TimerModel};
use vstd::prelude::*;

verus! {

/// Builds the simple idle timer for a configuration at time `now`.
pub fn build_idle_timer(cfg: &IdleConfig, now: u64) -> (timer: IdleTimer)
    ensures
        timer@ == TimerModel::initial(cfg@, now),
        timer@.wf(),
{
    IdleTimer::new(cfg, now)
}

} // verus!
