use crate::config::model::{
    actions_view, clone_opt_string, opt_string_view, ActionModel, ConfigModel, IdleAction,
    IdleActionBlock, StasisConfig,
};
use crate::text::starts_with;
use std::sync::Arc;
use vstd::prelude::*;

verus! {

/// The three pools of cascading actions.
#[derive(Clone, Copy, Debug, PartialEq, Eq, Structural)]
pub enum ActionBlock {
    Default,
    Ac,
    Battery,
}

/// Whether the screen is locked, and by what.
#[derive(Debug, PartialEq, Eq)]
pub struct LockState {
    pub is_locked: bool,
    pub pid: Option<u32>,
    pub command: Option<String>,
    pub post_advanced: bool,
    pub last_advanced: Option<u64>,
}

/// Mathematical value of a [`LockState`].
pub struct LockModel {
    pub is_locked: bool,
    pub pid: Option<u32>,
    pub command: Option<Seq<char>>,
    pub post_advanced: bool,
    pub last_advanced: Option<u64>,
}

impl View for LockState {
    type V = LockModel;

    open spec fn view(&self) -> LockModel {
        LockModel {
            is_locked: self.is_locked,
            pid: self.pid,
            command: opt_string_view(self.command),
            post_advanced: self.post_advanced,
            last_advanced: self.last_advanced,
        }
    }
}

/// Everything the scheduler's tasks share.
///
/// Timestamps are milliseconds on one monotonic clock that the caller
/// reads; timeouts and the debounce are whole seconds.
#[derive(Debug, PartialEq, Eq)]
pub struct ManagerState {
    pub cfg: Option<Arc<StasisConfig>>,
    pub default_actions: Vec<IdleActionBlock>,
    pub ac_actions: Vec<IdleActionBlock>,
    pub battery_actions: Vec<IdleActionBlock>,
    pub instant_actions: Vec<IdleActionBlock>,
    pub action_index: usize,
    /// Set once the last action of the active block has fired; cleared when
    /// the cascade starts over.
    pub cascade_done: bool,
    pub last_activity: u64,
    pub last_activity_display: u64,
    pub debounce: Option<u64>,
    pub paused: bool,
    pub manually_paused: bool,
    pub previous_brightness: Option<u8>,
    pub instants_triggered: bool,
    pub current_block: Option<ActionBlock>,
    pub lock_state: LockState,
    pub on_battery: Option<bool>,
    pub compositor_managed: bool,
    pub suspend_occured: bool,
    pub pre_suspend_command: Option<String>,
}

/// Mathematical value of a [`ManagerState`].
pub struct StateModel {
    pub cfg: Option<ConfigModel>,
    pub default_actions: Seq<ActionModel>,
    pub ac_actions: Seq<ActionModel>,
    pub battery_actions: Seq<ActionModel>,
    pub instant_actions: Seq<ActionModel>,
    pub action_index: usize,
    pub cascade_done: bool,
    pub last_activity: u64,
    pub last_activity_display: u64,
    pub debounce: Option<u64>,
    pub paused: bool,
    pub manually_paused: bool,
    pub previous_brightness: Option<u8>,
    pub instants_triggered: bool,
    pub current_block: Option<ActionBlock>,
    pub lock_state: LockModel,
    pub on_battery: Option<bool>,
    pub compositor_managed: bool,
    pub suspend_occured: bool,
    pub pre_suspend_command: Option<Seq<char>>,
}

/// The value of an optional shared configuration.
pub open spec fn opt_config_view(cfg: Option<Arc<StasisConfig>>) -> Option<ConfigModel> {
    match cfg {
        Some(c) => Some((*c)@),
        None => None,
    }
}

impl View for ManagerState {
    type V = StateModel;

    open spec fn view(&self) -> StateModel {
        StateModel {
            cfg: opt_config_view(self.cfg),
            default_actions: actions_view(self.default_actions@),
            ac_actions: actions_view(self.ac_actions@),
            battery_actions: actions_view(self.battery_actions@),
            instant_actions: actions_view(self.instant_actions@),
            action_index: self.action_index,
            cascade_done: self.cascade_done,
            last_activity: self.last_activity,
            last_activity_display: self.last_activity_display,
            debounce: self.debounce,
            paused: self.paused,
            manually_paused: self.manually_paused,
            previous_brightness: self.previous_brightness,
            instants_triggered: self.instants_triggered,
            current_block: self.current_block,
            lock_state: self.lock_state@,
            on_battery: self.on_battery,
            compositor_managed: self.compositor_managed,
            suspend_occured: self.suspend_occured,
            pre_suspend_command: opt_string_view(self.pre_suspend_command),
        }
    }
}

/// An action named for the on-AC profile.
pub open spec fn named_for_ac(a: ActionModel) -> bool {
    "ac."@.is_prefix_of(a.name)
}

/// An action named for the on-battery profile.
pub open spec fn named_for_battery(a: ActionModel) -> bool {
    "battery."@.is_prefix_of(a.name)
}

/// The block whose cascade an action belongs to, going by its name.
pub open spec fn home_block(a: ActionModel) -> ActionBlock {
    if named_for_ac(a) {
        ActionBlock::Ac
    } else if named_for_battery(a) {
        ActionBlock::Battery
    } else {
        ActionBlock::Default
    }
}

/// Picks the actions that cascade in `block`: those named for it that are
/// not instant.
pub open spec fn cascades_in(block: ActionBlock) -> spec_fn(ActionModel) -> bool {
    |a: ActionModel| !a.is_instant() && home_block(a) == block
}

/// Picks the instant actions.
pub open spec fn fires_at_once() -> spec_fn(ActionModel) -> bool {
    |a: ActionModel| a.is_instant()
}

/// Position of the first lock-screen action, if there is one.
pub open spec fn first_lock(actions: Seq<ActionModel>) -> Option<int> {
    first_lock_from(actions, 0)
}

/// Position of the first lock-screen action at or after `start`.
pub open spec fn first_lock_from(actions: Seq<ActionModel>, start: int) -> Option<int>
    decreases actions.len() - start,
{
    if start < 0 || start >= actions.len() {
        None
    } else if actions[start].kind == IdleAction::LockScreen {
        Some(start)
    } else {
        first_lock_from(actions, start + 1)
    }
}

/// What `first_lock_from` finds is the earliest lock-screen action from
/// `start` on, and it finds one whenever there is one.
pub proof fn lemma_first_lock_from(actions: Seq<ActionModel>, start: int)
    requires
        0 <= start,
    ensures
        match first_lock_from(actions, start) {
            Some(i) => {
                &&& start <= i < actions.len()
                &&& actions[i].kind == IdleAction::LockScreen
                &&& forall|j: int| start <= j < i ==> actions[j].kind != IdleAction::LockScreen
            },
            None => forall|j: int|
                start <= j < actions.len() ==> actions[j].kind != IdleAction::LockScreen,
        },
    decreases actions.len() - start,
{
    if start < actions.len() && actions[start].kind != IdleAction::LockScreen {
        lemma_first_lock_from(actions, start + 1);
    }
}

/// All firing stamps removed.
pub open spec fn cleared(actions: Seq<ActionModel>) -> Seq<ActionModel> {
    actions.map_values(|a: ActionModel| a.stamped(None))
}

/// Every action stamped as fired at `at`.
pub open spec fn all_stamped(actions: Seq<ActionModel>, at: u64) -> Seq<ActionModel> {
    actions.map_values(|a: ActionModel| a.stamped(Some(at)))
}

impl StateModel {
    /// Whether the state can be held in memory: every list of actions has a
    /// length that a machine word can count. This holds of the value of
    /// every [`ManagerState`].
    pub open spec fn fits(self) -> bool {
        &&& self.default_actions.len() <= usize::MAX
        &&& self.ac_actions.len() <= usize::MAX
        &&& self.battery_actions.len() <= usize::MAX
        &&& self.instant_actions.len() <= usize::MAX
    }

    /// Power profiles are in use as soon as one of them holds an action.
    pub open spec fn uses_profiles(self) -> bool {
        self.ac_actions.len() > 0 || self.battery_actions.len() > 0
    }

    /// The block that the power source selects.
    pub open spec fn active_block(self) -> ActionBlock {
        if self.uses_profiles() {
            match self.on_battery {
                Some(true) => ActionBlock::Battery,
                Some(false) => ActionBlock::Ac,
                None => ActionBlock::Default,
            }
        } else {
            ActionBlock::Default
        }
    }

    /// The actions of one block.
    pub open spec fn block_actions(self, block: ActionBlock) -> Seq<ActionModel> {
        match block {
            ActionBlock::Default => self.default_actions,
            ActionBlock::Ac => self.ac_actions,
            ActionBlock::Battery => self.battery_actions,
        }
    }

    /// The same state with other actions in one block.
    pub open spec fn with_block_actions(
        self,
        block: ActionBlock,
        actions: Seq<ActionModel>,
    ) -> StateModel {
        match block {
            ActionBlock::Default => StateModel { default_actions: actions, ..self },
            ActionBlock::Ac => StateModel { ac_actions: actions, ..self },
            ActionBlock::Battery => StateModel { battery_actions: actions, ..self },
        }
    }

    /// The actions that the cascade runs through.
    pub open spec fn active_actions(self) -> Seq<ActionModel> {
        self.block_actions(self.active_block())
    }

    /// The state a daemon starts in at time `now`.
    ///
    /// Instant actions are kept apart from the cascade; the others go to
    /// the block their name is prefixed for, in configured order.
    pub open spec fn initial(cfg: ConfigModel, now: u64) -> StateModel {
        let lock = first_lock(cfg.actions);
        StateModel {
            cfg: Some(cfg),
            default_actions: cfg.actions.filter(cascades_in(ActionBlock::Default)),
            ac_actions: cfg.actions.filter(cascades_in(ActionBlock::Ac)),
            battery_actions: cfg.actions.filter(cascades_in(ActionBlock::Battery)),
            instant_actions: cfg.actions.filter(fires_at_once()),
            action_index: 0,
            cascade_done: false,
            last_activity: now,
            last_activity_display: now,
            debounce: None,
            paused: false,
            manually_paused: false,
            previous_brightness: None,
            instants_triggered: false,
            current_block: None,
            lock_state: LockModel {
                is_locked: false,
                pid: None,
                command: match lock {
                    Some(i) => Some(cfg.actions[i].command),
                    None => None,
                },
                post_advanced: false,
                last_advanced: None,
            },
            on_battery: None,
            compositor_managed: false,
            suspend_occured: false,
            pre_suspend_command: cfg.pre_suspend_command,
        }
    }
}

/// Filtering a sequence that grew by one element.
pub proof fn lemma_filter_push<A>(s: Seq<A>, x: A, keep: spec_fn(A) -> bool)
    ensures
        s.push(x).filter(keep) == if keep(x) {
            s.filter(keep).push(x)
        } else {
            s.filter(keep)
        },
{
    reveal(Seq::filter);
    assert(s.push(x).drop_last() =~= s);
}

/// Position of the first lock-screen action in `actions`.
pub fn find_lock(actions: &Vec<IdleActionBlock>) -> (found: Option<usize>)
    ensures
        match found {
            Some(i) => i < actions.len() && first_lock(actions_view(actions@)) == Some(i as int),
            None => first_lock(actions_view(actions@)) is None,
        },
{
    let ghost model = actions_view(actions@);
    let mut i: usize = 0;
    while i < actions.len()
        invariant
            i <= actions.len(),
            model == actions_view(actions@),
            first_lock(model) == first_lock_from(model, i as int),
        decreases actions.len() - i,
    {
        if actions[i].kind == IdleAction::LockScreen {
            return Some(i);
        }
        i = i + 1;
    }
    None
}

impl ManagerState {
    /// Builds the state a daemon starts in at time `now`.
    pub fn new(cfg: Arc<StasisConfig>, now: u64) -> (state: ManagerState)
        ensures
            state@ == StateModel::initial((*cfg)@, now),
    {
        let mut default_actions: Vec<IdleActionBlock> = Vec::new();
        let mut ac_actions: Vec<IdleActionBlock> = Vec::new();
        let mut battery_actions: Vec<IdleActionBlock> = Vec::new();
        let mut instant_actions: Vec<IdleActionBlock> = Vec::new();
        let ghost all = actions_view(cfg.actions@);
        let ghost keep_default = cascades_in(ActionBlock::Default);
        let ghost keep_ac = cascades_in(ActionBlock::Ac);
        let ghost keep_battery = cascades_in(ActionBlock::Battery);
        let ghost keep_instant = fires_at_once();
        proof {
            reveal(Seq::filter);
            assert(all.take(0) =~= Seq::<ActionModel>::empty());
        }
        let mut i: usize = 0;
        while i < cfg.actions.len()
            invariant
                i <= cfg.actions.len(),
                all == actions_view(cfg.actions@),
                keep_default == cascades_in(ActionBlock::Default),
                keep_ac == cascades_in(ActionBlock::Ac),
                keep_battery == cascades_in(ActionBlock::Battery),
                keep_instant == fires_at_once(),
                actions_view(default_actions@) == all.take(i as int).filter(keep_default),
                actions_view(ac_actions@) == all.take(i as int).filter(keep_ac),
                actions_view(battery_actions@) == all.take(i as int).filter(keep_battery),
                actions_view(instant_actions@) == all.take(i as int).filter(keep_instant),
            decreases cfg.actions.len() - i,
        {
            let action = &cfg.actions[i];
            let ghost before_default = default_actions@;
            let ghost before_ac = ac_actions@;
            let ghost before_battery = battery_actions@;
            let ghost before_instant = instant_actions@;
            proof {
                assert(all.take(i as int + 1) =~= all.take(i as int).push(action@));
                lemma_filter_push(all.take(i as int), action@, keep_default);
                lemma_filter_push(all.take(i as int), action@, keep_ac);
                lemma_filter_push(all.take(i as int), action@, keep_battery);
                lemma_filter_push(all.take(i as int), action@, keep_instant);
            }
            if action.is_instant() {
                instant_actions.push(action.clone());
                assert(actions_view(instant_actions@) =~= actions_view(before_instant).push(
                    action@,
                ));
            } else if starts_with(action.name.as_str(), "ac.") {
                ac_actions.push(action.clone());
                assert(actions_view(ac_actions@) =~= actions_view(before_ac).push(action@));
            } else if starts_with(action.name.as_str(), "battery.") {
                battery_actions.push(action.clone());
                assert(actions_view(battery_actions@) =~= actions_view(before_battery).push(
                    action@,
                ));
            } else {
                default_actions.push(action.clone());
                assert(actions_view(default_actions@) =~= actions_view(before_default).push(
                    action@,
                ));
            }
            i = i + 1;
        }
        proof {
            assert(all.take(cfg.actions.len() as int) =~= all);
        }
        let command = match find_lock(&cfg.actions) {
            Some(at) => Some(cfg.actions[at].command.clone()),
            None => None,
        };
        let pre_suspend_command = clone_opt_string(&cfg.pre_suspend_command);
        ManagerState {
            cfg: Some(cfg),
            default_actions,
            ac_actions,
            battery_actions,
            instant_actions,
            action_index: 0,
            cascade_done: false,
            last_activity: now,
            last_activity_display: now,
            debounce: None,
            paused: false,
            manually_paused: false,
            previous_brightness: None,
            instants_triggered: false,
            current_block: None,
            lock_state: LockState {
                is_locked: false,
                pid: None,
                command,
                post_advanced: false,
                last_advanced: None,
            },
            on_battery: None,
            compositor_managed: false,
            suspend_occured: false,
            pre_suspend_command,
        }
    }

    /// The value of a state fits in memory.
    pub proof fn lemma_fits(&self)
        ensures
            self@.fits(),
    {
        assert(self.default_actions.len() == self.default_actions@.len());
        assert(self.ac_actions.len() == self.ac_actions@.len());
        assert(self.battery_actions.len() == self.battery_actions@.len());
        assert(self.instant_actions.len() == self.instant_actions@.len());
    }

    /// The last power-source signal: `Some(true)` on battery, `Some(false)`
    /// on AC, `None` while none has been seen.
    pub fn on_battery(&self) -> (signal: Option<bool>)
        ensures
            signal == self.on_battery,
    {
        self.on_battery
    }

    /// The block that the power source selects.
    pub fn active_block(&self) -> (block: ActionBlock)
        ensures
            block == self@.active_block(),
    {
        if self.ac_actions.len() > 0 || self.battery_actions.len() > 0 {
            match self.on_battery() {
                Some(true) => ActionBlock::Battery,
                Some(false) => ActionBlock::Ac,
                None => ActionBlock::Default,
            }
        } else {
            ActionBlock::Default
        }
    }

    /// The actions of one block.
    pub fn block_actions(&self, block: ActionBlock) -> (actions: &Vec<IdleActionBlock>)
        ensures
            actions_view(actions@) == self@.block_actions(block),
    {
        match block {
            ActionBlock::Default => &self.default_actions,
            ActionBlock::Ac => &self.ac_actions,
            ActionBlock::Battery => &self.battery_actions,
        }
    }

    /// Sets the firing stamp of one action of `block`.
    pub fn stamp(&mut self, block: ActionBlock, at: usize, stamp: Option<u64>)
        requires
            at < old(self)@.block_actions(block).len(),
        ensures
            final(self)@ == old(self)@.with_block_actions(
                block,
                old(self)@.block_actions(block).update(
                    at as int,
                    old(self)@.block_actions(block)[at as int].stamped(stamp),
                ),
            ),
    {
        match block {
            ActionBlock::Default => {
                self.default_actions[at].last_triggered = stamp;
                assert(actions_view(self.default_actions@) =~= old(self)@.default_actions.update(
                    at as int,
                    old(self)@.default_actions[at as int].stamped(stamp),
                ));
            },
            ActionBlock::Ac => {
                self.ac_actions[at].last_triggered = stamp;
                assert(actions_view(self.ac_actions@) =~= old(self)@.ac_actions.update(
                    at as int,
                    old(self)@.ac_actions[at as int].stamped(stamp),
                ));
            },
            ActionBlock::Battery => {
                self.battery_actions[at].last_triggered = stamp;
                assert(actions_view(self.battery_actions@) =~= old(self)@.battery_actions.update(
                    at as int,
                    old(self)@.battery_actions[at as int].stamped(stamp),
                ));
            },
        }
    }

    /// Gives every action of `block` the same firing stamp, or none.
    pub fn stamp_every(&mut self, block: ActionBlock, stamp: Option<u64>)
        ensures
            final(self)@ == old(self)@.with_block_actions(
                block,
                old(self)@.block_actions(block).map_values(|a: ActionModel| a.stamped(stamp)),
            ),
    {
        let ghost before = self@.block_actions(block);
        let len = self.block_actions(block).len();
        let mut i: usize = 0;
        while i < len
            invariant
                i <= len,
                len == before.len(),
                before == old(self)@.block_actions(block),
                self@.block_actions(block).len() == len,
                self@ == old(self)@.with_block_actions(block, self@.block_actions(block)),
                forall|j: int| 0 <= j < i ==> self@.block_actions(block)[j] == before[j].stamped(stamp),
                forall|j: int| i <= j < len ==> self@.block_actions(block)[j] == before[j],
            decreases len - i,
        {
            self.stamp(block, i, stamp);
            i = i + 1;
        }
        assert(self@.block_actions(block) =~= before.map_values(|a: ActionModel| a.stamped(stamp)));
    }
}

} // verus!
