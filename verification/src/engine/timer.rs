use crate::config::idle::{
    clone_timed_actions, entries_view, timed_actions_view, ConfigEntry, EntryModel, IdleAction,
    IdleActionKind, IdleConfig, IdleConfigModel, KindSet, TimedActionModel,
};
use crate::config::model::{add_capped, clone_opt_string, opt_string_view, MILLIS_PER_SECOND};
use crate::engine::manager::effects::{append_effects, effects_view, Effect, EffectModel};
use crate::engine::manager::state::lemma_filter_push;
use crate::text::{
    insert_name, inserted, lemma_inserted_sorted, normalize, normalized, push_joined, same_text,
    sorted_names, starts_with, strip_prefix, texts_view, with_joined, without_prefix,
};
use vstd::prelude::*;

verus! {

/// The shortest timeout that is assumed where no action has one, in
/// seconds.
pub const DEFAULT_SHORTEST_TIMEOUT: u64 = 60;

/// The simple idle timer: every action has a timeout of its own, counted
/// from the last activity, and fires once until the timers are rewound.
///
/// Timestamps are milliseconds on one monotonic clock that the caller
/// reads.
#[derive(Debug, PartialEq, Eq)]
pub struct IdleTimer {
    pub cfg: IdleConfig,
    pub last_activity: u64,
    pub debounce_until: Option<u64>,
    pub idle_debounce_until: Option<u64>,
    pub paused: bool,
    pub manually_paused: bool,
    pub previous_brightness: Option<u8>,
    pub suspend_occurred: bool,
    pub is_idle_flags: Vec<bool>,
    pub active_kinds: KindSet,
    pub triggered_actions: Vec<Option<IdleAction>>,
    pub on_ac: bool,
    pub start_time: u64,
    pub actions: Vec<IdleAction>,
    pub ac_actions: Vec<IdleAction>,
    pub battery_actions: Vec<IdleAction>,
    pub pre_suspend_command: Option<String>,
    pub compositor_managed: bool,
}

/// Mathematical value of an [`IdleTimer`].
pub struct TimerModel {
    pub cfg: IdleConfigModel,
    pub last_activity: u64,
    pub debounce_until: Option<u64>,
    pub idle_debounce_until: Option<u64>,
    pub paused: bool,
    pub manually_paused: bool,
    pub previous_brightness: Option<u8>,
    pub suspend_occurred: bool,
    pub is_idle_flags: Seq<bool>,
    pub active_kinds: KindSet,
    pub triggered_actions: Seq<Option<TimedActionModel>>,
    pub on_ac: bool,
    pub start_time: u64,
    pub actions: Seq<TimedActionModel>,
    pub ac_actions: Seq<TimedActionModel>,
    pub battery_actions: Seq<TimedActionModel>,
    pub pre_suspend_command: Option<Seq<char>>,
    pub compositor_managed: bool,
}

/// The value of an optional action.
pub open spec fn opt_action_view(a: Option<IdleAction>) -> Option<TimedActionModel> {
    match a {
        Some(action) => Some(action@),
        None => None,
    }
}

/// The values of a list of optional actions, in order.
pub open spec fn triggered_view(v: Seq<Option<IdleAction>>) -> Seq<Option<TimedActionModel>> {
    v.map_values(|a: Option<IdleAction>| opt_action_view(a))
}

impl View for IdleTimer {
    type V = TimerModel;

    open spec fn view(&self) -> TimerModel {
        TimerModel {
            cfg: self.cfg@,
            last_activity: self.last_activity,
            debounce_until: self.debounce_until,
            idle_debounce_until: self.idle_debounce_until,
            paused: self.paused,
            manually_paused: self.manually_paused,
            previous_brightness: self.previous_brightness,
            suspend_occurred: self.suspend_occurred,
            is_idle_flags: self.is_idle_flags@,
            active_kinds: self.active_kinds,
            triggered_actions: triggered_view(self.triggered_actions@),
            on_ac: self.on_ac,
            start_time: self.start_time,
            actions: timed_actions_view(self.actions@),
            ac_actions: timed_actions_view(self.ac_actions@),
            battery_actions: timed_actions_view(self.battery_actions@),
            pre_suspend_command: opt_string_view(self.pre_suspend_command),
            compositor_managed: self.compositor_managed,
        }
    }
}

/// Which list an entry of the configuration goes to.
#[derive(Clone, Copy, Debug, PartialEq, Eq, Structural)]
pub enum Profile {
    Desktop,
    Ac,
    Battery,
}

/// The list an entry goes to, going by its key.
pub open spec fn profile_of(key: Seq<char>) -> Profile {
    if "ac."@.is_prefix_of(key) {
        Profile::Ac
    } else if "battery."@.is_prefix_of(key) {
        Profile::Battery
    } else {
        Profile::Desktop
    }
}

/// Picks the entries that go to `profile`.
pub open spec fn goes_to(profile: Profile) -> spec_fn(EntryModel) -> bool {
    |e: EntryModel| profile_of(e.key) == profile
}

/// The actions of the entries, in order.
pub open spec fn entry_actions(entries: Seq<EntryModel>) -> Seq<TimedActionModel> {
    entries.map_values(|e: EntryModel| e.action)
}

/// The actions of the entries that go to `profile`, in order.
pub open spec fn profile_actions(entries: Seq<EntryModel>, profile: Profile) -> Seq<
    TimedActionModel,
> {
    entry_actions(entries.filter(goes_to(profile)))
}

/// `n` flags, none of them set.
pub open spec fn no_flags(n: nat) -> Seq<bool> {
    Seq::new(n, |i: int| false)
}

/// `n` flags, all of them set.
pub open spec fn all_flags(n: nat) -> Seq<bool> {
    Seq::new(n, |i: int| true)
}

/// `n` places for triggered actions, all of them empty.
pub open spec fn none_triggered(n: nat) -> Seq<Option<TimedActionModel>> {
    Seq::new(n, |i: int| None::<TimedActionModel>)
}

/// What firing `action` asks of the outside world: the brightness is
/// captured first for a brightness action if no level is remembered, then
/// the command is launched.
pub open spec fn firing_effects(previous_brightness: Option<u8>, action: TimedActionModel) -> Seq<
    EffectModel,
> {
    let capture = if action.kind == IdleActionKind::Brightness && previous_brightness is None {
        seq![EffectModel::CaptureBrightness]
    } else {
        Seq::<EffectModel>::empty()
    };
    capture + seq![EffectModel::SpawnCommand { command: action.command }]
}

impl TimerModel {
    /// Whether the three lists that run side by side have one length.
    pub open spec fn wf(self) -> bool {
        &&& self.is_idle_flags.len() == self.actions.len()
        &&& self.triggered_actions.len() == self.actions.len()
    }

    /// The same timer with `actions` as its active list and nothing fired.
    pub open spec fn rearmed(self, actions: Seq<TimedActionModel>) -> TimerModel {
        TimerModel {
            actions,
            is_idle_flags: no_flags(actions.len()),
            triggered_actions: none_triggered(actions.len()),
            active_kinds: KindSet::none(),
            ..self
        }
    }

    /// The timer a daemon starts with at time `now`: on AC, and with the AC
    /// list active if a profile is configured, else with the desktop list.
    pub open spec fn initial(cfg: IdleConfigModel, now: u64) -> TimerModel {
        let ac = profile_actions(cfg.actions, Profile::Ac);
        let battery = profile_actions(cfg.actions, Profile::Battery);
        let actions = if ac.len() > 0 || battery.len() > 0 {
            ac
        } else {
            profile_actions(cfg.actions, Profile::Desktop)
        };
        TimerModel {
            cfg,
            last_activity: now,
            debounce_until: None,
            idle_debounce_until: None,
            paused: false,
            manually_paused: false,
            previous_brightness: None,
            suspend_occurred: false,
            is_idle_flags: no_flags(actions.len()),
            active_kinds: KindSet::none(),
            triggered_actions: none_triggered(actions.len()),
            on_ac: true,
            start_time: now,
            actions,
            ac_actions: ac,
            battery_actions: battery,
            pre_suspend_command: cfg.pre_suspend_command,
            compositor_managed: false,
        }
    }

    /// The timer after the action at `at` was marked as fired, without its
    /// kind being taken into the active kinds.
    pub open spec fn marked(self, at: int) -> TimerModel {
        TimerModel {
            is_idle_flags: self.is_idle_flags.update(at, true),
            triggered_actions: self.triggered_actions.update(at, Some(self.actions[at])),
            ..self
        }
    }

    /// The timer after the action at `at` fired.
    pub open spec fn fired(self, at: int) -> TimerModel {
        TimerModel {
            active_kinds: self.active_kinds.with(self.actions[at].kind),
            ..self.marked(at)
        }
    }

    /// Whether the action at `at` fires at once and has not fired yet.
    pub open spec fn is_pending_instant(self, at: int) -> bool {
        self.actions[at].timeout_seconds == 0 && !self.is_idle_flags[at]
    }

    /// The timer after the instant actions among the first `n` actions
    /// fired.
    pub open spec fn instants_upto(self, n: int) -> TimerModel
        decreases n,
    {
        if n <= 0 {
            self
        } else {
            let before = self.instants_upto(n - 1);
            if before.is_pending_instant(n - 1) {
                before.fired(n - 1)
            } else {
                before
            }
        }
    }

    /// What firing the instant actions among the first `n` actions asks of
    /// the outside world.
    pub open spec fn instant_effects_upto(self, n: int) -> Seq<EffectModel>
        decreases n,
    {
        if n <= 0 {
            Seq::<EffectModel>::empty()
        } else {
            let before = self.instants_upto(n - 1);
            if before.is_pending_instant(n - 1) {
                self.instant_effects_upto(n - 1) + firing_effects(
                    self.previous_brightness,
                    self.actions[n - 1],
                )
            } else {
                self.instant_effects_upto(n - 1)
            }
        }
    }

    /// The timer after its instant actions fired.
    pub open spec fn instants_fired(self) -> TimerModel {
        self.instants_upto(self.actions.len() as int)
    }

    /// What firing the instant actions asks of the outside world.
    pub open spec fn instants_fired_effects(self) -> Seq<EffectModel> {
        self.instant_effects_upto(self.actions.len() as int)
    }

    /// The timer after those of the first `n` actions that had not fired
    /// were forced to.
    pub open spec fn forced_upto(self, n: int) -> TimerModel
        decreases n,
    {
        if n <= 0 {
            self
        } else {
            let before = self.forced_upto(n - 1);
            if !before.is_idle_flags[n - 1] {
                before.marked(n - 1)
            } else {
                before
            }
        }
    }

    /// What forcing the first `n` actions asks of the outside world: the
    /// command of each that had not fired.
    pub open spec fn forced_effects_upto(self, n: int) -> Seq<EffectModel>
        decreases n,
    {
        if n <= 0 {
            Seq::<EffectModel>::empty()
        } else if !self.forced_upto(n - 1).is_idle_flags[n - 1] {
            self.forced_effects_upto(n - 1).push(
                EffectModel::SpawnCommand { command: self.actions[n - 1].command },
            )
        } else {
            self.forced_effects_upto(n - 1)
        }
    }

    /// How long the user has been idle at `now`, in milliseconds: not at
    /// all inside the debounce window.
    pub open spec fn elapsed_idle(self, now: u64) -> u64 {
        if self.debounce_until matches Some(until) && now < until {
            0
        } else if now >= self.last_activity {
            (now - self.last_activity) as u64
        } else {
            0
        }
    }

    /// The timer after the timers were rewound at `now`: nothing has
    /// fired, and the idle time starts over.
    pub open spec fn rewound(self, now: u64) -> TimerModel {
        TimerModel { last_activity: now, ..self.rearmed(self.actions) }
    }

    /// The timer after the pre-suspend hook ran at `now`.
    pub open spec fn pre_suspended(self, rewind_timers: bool, manual: bool, now: u64) -> TimerModel {
        let noted = TimerModel { suspend_occurred: self.suspend_occurred || !manual, ..self };
        if self.pre_suspend_command is Some && rewind_timers {
            noted.rewound(now).instants_fired()
        } else {
            noted
        }
    }

    /// What the pre-suspend hook asks of the outside world: the command is
    /// run to its end, and after a rewind the instant actions fire.
    pub open spec fn pre_suspended_effects(
        self,
        rewind_timers: bool,
        manual: bool,
        now: u64,
    ) -> Seq<EffectModel> {
        let noted = TimerModel { suspend_occurred: self.suspend_occurred || !manual, ..self };
        match self.pre_suspend_command {
            Some(command) => {
                let run = seq![EffectModel::RunAndWait { command }];
                if rewind_timers {
                    run + noted.rewound(now).instants_fired_effects()
                } else {
                    run
                }
            },
            None => Seq::<EffectModel>::empty(),
        }
    }

    /// The timer when it takes up the list of another power source: no
    /// brightness remembered, nothing fired.
    pub open spec fn switched(self, on_ac: bool) -> TimerModel {
        TimerModel { on_ac, previous_brightness: None, ..self }.rearmed(
            if on_ac {
                self.ac_actions
            } else {
                self.battery_actions
            },
        )
    }

    /// The timer after the power source was reported.
    pub open spec fn power_source_updated(self, on_ac: bool) -> TimerModel {
        if self.on_ac == on_ac {
            self
        } else {
            self.switched(on_ac).instants_fired()
        }
    }

    /// What a report of the power source asks of the outside world: the
    /// remembered brightness is put back, and the instant actions of the
    /// new list fire.
    pub open spec fn power_source_effects(self, on_ac: bool) -> Seq<EffectModel> {
        if self.on_ac == on_ac {
            Seq::<EffectModel>::empty()
        } else {
            let restore = match self.previous_brightness {
                Some(level) => seq![EffectModel::RestoreBrightness { level }],
                None => Seq::<EffectModel>::empty(),
            };
            restore + self.switched(on_ac).instants_fired_effects()
        }
    }

    /// The timer when it takes up another configuration at `now`, before
    /// its instant actions fire.
    pub open spec fn reconfigured(self, cfg: IdleConfigModel, now: u64) -> TimerModel {
        let ac = profile_actions(cfg.actions, Profile::Ac);
        let battery = profile_actions(cfg.actions, Profile::Battery);
        let actions = if ac.len() > 0 || battery.len() > 0 {
            if self.on_ac {
                ac
            } else {
                battery
            }
        } else {
            profile_actions(cfg.actions, Profile::Desktop)
        };
        TimerModel {
            cfg,
            ac_actions: ac,
            battery_actions: battery,
            pre_suspend_command: cfg.pre_suspend_command,
            last_activity: now,
            previous_brightness: None,
            ..self
        }.rearmed(actions)
    }

    /// The debounce in milliseconds.
    pub open spec fn debounce_ms(self) -> nat {
        (self.cfg.debounce_seconds * MILLIS_PER_SECOND) as nat
    }

    /// Whether the action at `at` can fire by its timeout: it has one, it
    /// has not fired, and no action of its kind is active.
    pub open spec fn is_eligible(self, at: int) -> bool {
        &&& self.actions[at].timeout_seconds > 0
        &&& !self.is_idle_flags[at]
        &&& !self.active_kinds.has(self.actions[at].kind)
    }

    /// Whether the timeout of the action at `at` has run out after
    /// `elapsed` milliseconds of idling.
    pub open spec fn is_due(self, at: int, elapsed: u64) -> bool {
        elapsed >= self.actions[at].timeout_seconds * MILLIS_PER_SECOND
    }

    /// The timer after the actions from `at` on were looked at, at `now`
    /// and after `elapsed` milliseconds of idling. The first action that
    /// is due starts the idle debounce if none runs, and the look ends
    /// there; it ends there too while the idle debounce runs. Once the
    /// idle debounce has run out, the action fires and the look goes on.
    pub open spec fn checked_from(self, at: int, elapsed: u64, now: u64) -> TimerModel
        decreases self.actions.len() - at,
    {
        if at < 0 || at >= self.actions.len() {
            self
        } else if !self.is_eligible(at) || !self.is_due(at, elapsed) {
            self.checked_from(at + 1, elapsed, now)
        } else {
            match self.idle_debounce_until {
                Some(until) => if now < until {
                    self
                } else {
                    TimerModel { idle_debounce_until: None, ..self }.fired(at).checked_from(
                        at + 1,
                        elapsed,
                        now,
                    )
                },
                None => TimerModel {
                    idle_debounce_until: Some(add_capped(now, self.debounce_ms())),
                    ..self
                },
            }
        }
    }

    /// What looking at the actions from `at` on asks of the outside world.
    pub open spec fn check_effects_from(self, at: int, elapsed: u64, now: u64) -> Seq<EffectModel>
        decreases self.actions.len() - at,
    {
        if at < 0 || at >= self.actions.len() {
            Seq::<EffectModel>::empty()
        } else if !self.is_eligible(at) || !self.is_due(at, elapsed) {
            self.check_effects_from(at + 1, elapsed, now)
        } else {
            match self.idle_debounce_until {
                Some(until) => if now < until {
                    Seq::<EffectModel>::empty()
                } else {
                    firing_effects(self.previous_brightness, self.actions[at]) + TimerModel {
                        idle_debounce_until: None,
                        ..self
                    }.fired(at).check_effects_from(at + 1, elapsed, now)
                },
                None => Seq::<EffectModel>::empty(),
            }
        }
    }

    /// Whether a check at `now` is a no-op: paused, or still inside the
    /// debounce window.
    pub open spec fn is_held(self, now: u64) -> bool {
        self.paused || (self.debounce_until matches Some(until) && now < until)
    }

    /// The timer once a check has dealt with a debounce that ran out.
    pub open spec fn settled(self) -> TimerModel {
        TimerModel { debounce_until: None, ..self }
    }

    /// The timer after one check at `now`.
    pub open spec fn check_idle(self, now: u64) -> TimerModel {
        if self.is_held(now) {
            self
        } else {
            self.settled().checked_from(0, self.settled().elapsed_idle(now), now)
        }
    }

    /// What one check at `now` asks of the outside world.
    pub open spec fn check_idle_effects(self, now: u64) -> Seq<EffectModel> {
        if self.is_held(now) {
            Seq::<EffectModel>::empty()
        } else {
            self.settled().check_effects_from(0, self.settled().elapsed_idle(now), now)
        }
    }

    /// Whether a power profile is configured.
    pub open spec fn uses_profiles(self) -> bool {
        self.ac_actions.len() > 0 || self.battery_actions.len() > 0
    }

    /// The prefix that marks the keys of the present power source.
    pub open spec fn profile_prefix(self) -> Seq<char> {
        if self.on_ac {
            "ac."@
        } else {
            "battery."@
        }
    }

    /// The name by which the action under `key` is asked for: the key
    /// without the prefix of the present power source, if profiles are in
    /// use and it has that prefix, else without the desktop prefix, if it
    /// has that.
    pub open spec fn action_name(self, key: Seq<char>) -> Seq<char> {
        let desktop = match without_prefix(key, "desktop."@) {
            Some(rest) => rest,
            None => key,
        };
        if self.uses_profiles() {
            match without_prefix(key, self.profile_prefix()) {
                Some(rest) => rest,
                None => desktop,
            }
        } else {
            desktop
        }
    }

    /// Whether `entry` configures the action at `at` and goes by the name
    /// `wanted`.
    pub open spec fn entry_names(self, at: int, entry: EntryModel, wanted: Seq<char>) -> bool {
        &&& entry.action.command == self.actions[at].command
        &&& entry.action.timeout_seconds == self.actions[at].timeout_seconds
        &&& normalized(self.action_name(entry.key)) == wanted
    }

    /// The name of the first entry from `from` on that configures the
    /// action at `at` and goes by the name `wanted`.
    pub open spec fn custom_name_from(self, at: int, from: int, wanted: Seq<char>) -> Option<
        Seq<char>,
    >
        decreases self.cfg.actions.len() - from,
    {
        if from < 0 || from >= self.cfg.actions.len() {
            None
        } else if self.entry_names(at, self.cfg.actions[from], wanted) {
            Some(self.action_name(self.cfg.actions[from].key))
        } else {
            self.custom_name_from(at, from + 1, wanted)
        }
    }

    /// The name under which the action at `at` answers to `wanted`, if it
    /// does: the name of its kind, or for a custom action the name of an
    /// entry that configures it.
    pub open spec fn answers_to(self, at: int, wanted: Seq<char>) -> Option<Seq<char>> {
        if self.actions[at].kind.name() == wanted {
            Some(self.actions[at].kind.name())
        } else if self.actions[at].kind == IdleActionKind::Custom {
            self.custom_name_from(at, 0, wanted)
        } else {
            None
        }
    }

    /// The first action from `at` on that answers to `wanted`, with the
    /// name under which it does.
    pub open spec fn found_from(self, at: int, wanted: Seq<char>) -> Option<(int, Seq<char>)>
        decreases self.actions.len() - at,
    {
        if at < 0 || at >= self.actions.len() {
            None
        } else {
            match self.answers_to(at, wanted) {
                Some(name) => Some((at, name)),
                None => self.found_from(at + 1, wanted),
            }
        }
    }

    /// The sorted names of the kinds of the first `n` actions, custom
    /// actions aside.
    pub open spec fn kind_names_upto(self, n: int) -> Seq<Seq<char>>
        decreases n,
    {
        if n <= 0 {
            Seq::<Seq<char>>::empty()
        } else if self.actions[n - 1].kind != IdleActionKind::Custom {
            inserted(self.kind_names_upto(n - 1), self.actions[n - 1].kind.name())
        } else {
            self.kind_names_upto(n - 1)
        }
    }

    /// `names` with the names of the first `n` entries of the
    /// configuration put in.
    pub open spec fn with_entry_names_upto(self, names: Seq<Seq<char>>, n: int) -> Seq<Seq<char>>
        decreases n,
    {
        if n <= 0 {
            names
        } else {
            inserted(
                self.with_entry_names_upto(names, n - 1),
                self.action_name(self.cfg.actions[n - 1].key),
            )
        }
    }

    /// The names that can be asked for, sorted, each once: the kinds of
    /// the actions, custom actions aside; the names of the configured
    /// entries; and the pre-suspend hook if it is configured.
    pub open spec fn available(self) -> Seq<Seq<char>> {
        let names = self.with_entry_names_upto(
            self.kind_names_upto(self.actions.len() as int),
            self.cfg.actions.len() as int,
        );
        if self.pre_suspend_command is Some {
            inserted(names, "pre_suspend"@)
        } else {
            names
        }
    }

    /// The timer after the action was asked for that goes by the name
    /// `wanted`, at `now`.
    pub open spec fn triggered_by(self, wanted: Seq<char>, now: u64) -> TimerModel {
        if names_pre_suspend(wanted) {
            self.pre_suspended(false, true, now)
        } else {
            match self.found_from(0, wanted) {
                Some((at, _)) => if self.is_idle_flags[at] {
                    self
                } else {
                    self.fired(at)
                },
                None => self,
            }
        }
    }

    /// What asking for the action that goes by the name `wanted` asks of
    /// the outside world.
    pub open spec fn triggered_by_effects(self, wanted: Seq<char>, now: u64) -> Seq<EffectModel> {
        if names_pre_suspend(wanted) {
            self.pre_suspended_effects(false, true, now)
        } else {
            match self.found_from(0, wanted) {
                Some((at, _)) => if self.is_idle_flags[at] {
                    Seq::<EffectModel>::empty()
                } else {
                    firing_effects(self.previous_brightness, self.actions[at])
                },
                None => Seq::<EffectModel>::empty(),
            }
        }
    }

    /// The answer to a request for the action that was asked for as `name`
    /// and goes by the name `wanted`: the name under which it was found,
    /// or the complaint that there is none.
    pub open spec fn triggered_by_answer(self, name: Seq<char>, wanted: Seq<char>) -> Result<
        Seq<char>,
        Seq<char>,
    > {
        if names_pre_suspend(wanted) {
            Ok("pre_suspend"@)
        } else {
            match self.found_from(0, wanted) {
                Some((_, found)) => Ok(found),
                None => Err(not_found_message(name, self.available())),
            }
        }
    }

    /// Whether `at` is the shortest timeout among the actions that have
    /// one.
    pub open spec fn is_shortest_timeout(self, at: u64) -> bool {
        &&& at > 0
        &&& exists|i: int| 0 <= i < self.actions.len() && (#[trigger] self.actions[i]).timeout_seconds == at
        &&& forall|i: int|
            0 <= i < self.actions.len() && (#[trigger] self.actions[i]).timeout_seconds > 0 ==> at
                <= self.actions[i].timeout_seconds
    }

    /// Whether no action has a timeout.
    pub open spec fn none_timed(self) -> bool {
        forall|i: int| 0 <= i < self.actions.len() ==> (#[trigger] self.actions[i]).timeout_seconds == 0
    }
}

/// Whether a name, in the form in which it is compared, asks for the
/// pre-suspend hook.
pub open spec fn names_pre_suspend(wanted: Seq<char>) -> bool {
    wanted == "pre-suspend"@ || wanted == "presuspend"@
}

/// The complaint that no action goes by `name`, with the names that can be
/// asked for.
pub open spec fn not_found_message(name: Seq<char>, available: Seq<Seq<char>>) -> Seq<char> {
    with_joined(
        Seq::<char>::empty() + "Action '"@ + name + "' not found. Available actions: "@,
        available,
        ", "@,
    )
        + "\nNote: Custom actions defined in your config (e.g. `[desktop.<name>]` or `[ac.<name>]`) can also be triggered using their names."@
}

/// The text of an answer.
pub open spec fn answer_view(answer: Result<String, String>) -> Result<Seq<char>, Seq<char>> {
    match answer {
        Ok(s) => Ok(s@),
        Err(s) => Err(s@),
    }
}

/// What came of asking for an action by its name.
#[derive(Debug, PartialEq, Eq)]
pub struct NameTrigger {
    /// The name under which the action was found, or the complaint that
    /// there is none.
    pub answer: Result<String, String>,
    pub effects: Vec<Effect>,
}

/// The list an entry goes to, going by its key.
pub fn profile_for(key: &str) -> (profile: Profile)
    ensures
        profile == profile_of(key@),
{
    if starts_with(key, "ac.") {
        Profile::Ac
    } else if starts_with(key, "battery.") {
        Profile::Battery
    } else {
        Profile::Desktop
    }
}

/// The actions of the entries that go to `profile`, in order.
pub fn actions_for(entries: &Vec<ConfigEntry>, profile: Profile) -> (actions: Vec<IdleAction>)
    ensures
        timed_actions_view(actions@) == profile_actions(entries_view(entries@), profile),
{
    let ghost all = entries_view(entries@);
    let ghost keep = goes_to(profile);
    let mut actions: Vec<IdleAction> = Vec::new();
    let mut i: usize = 0;
    proof {
        reveal(Seq::filter);
        assert(all.take(0) =~= Seq::<EntryModel>::empty());
        assert(timed_actions_view(actions@) =~= entry_actions(all.take(0).filter(keep)));
    }
    while i < entries.len()
        invariant
            i <= entries.len(),
            all == entries_view(entries@),
            keep == goes_to(profile),
            timed_actions_view(actions@) == entry_actions(all.take(i as int).filter(keep)),
        decreases entries.len() - i,
    {
        let entry = &entries[i];
        let ghost before = actions@;
        proof {
            assert(all.take(i as int + 1) =~= all.take(i as int).push(entry@));
            lemma_filter_push(all.take(i as int), entry@, keep);
        }
        if profile_for(entry.key.as_str()) == profile {
            actions.push(entry.action.clone());
            assert(timed_actions_view(actions@) =~= timed_actions_view(before).push(
                entry.action@,
            ));
            assert(timed_actions_view(actions@) =~= entry_actions(
                all.take(i as int + 1).filter(keep),
            ));
        }
        i = i + 1;
    }
    proof {
        assert(all.take(entries.len() as int) =~= all);
    }
    actions
}

/// `n` flags, none of them set.
pub fn blank_flags(n: usize) -> (flags: Vec<bool>)
    ensures
        flags@ == no_flags(n as nat),
{
    let mut flags: Vec<bool> = Vec::new();
    let mut i: usize = 0;
    while i < n
        invariant
            i <= n,
            flags@ =~= no_flags(i as nat),
        decreases n - i,
    {
        flags.push(false);
        i = i + 1;
    }
    flags
}

/// `n` places for triggered actions, all of them empty.
pub fn blank_triggered(n: usize) -> (places: Vec<Option<IdleAction>>)
    ensures
        triggered_view(places@) == none_triggered(n as nat),
{
    let mut places: Vec<Option<IdleAction>> = Vec::new();
    let mut i: usize = 0;
    while i < n
        invariant
            i <= n,
            triggered_view(places@) =~= none_triggered(i as nat),
        decreases n - i,
    {
        let ghost before = places@;
        places.push(None);
        assert(triggered_view(places@) =~= triggered_view(before).push(None));
        i = i + 1;
    }
    places
}

impl IdleTimer {
    /// Builds the timer a daemon starts with at time `now`.
    pub fn new(cfg: &IdleConfig, now: u64) -> (timer: IdleTimer)
        ensures
            timer@ == TimerModel::initial(cfg@, now),
            timer@.wf(),
    {
        let ac_actions = actions_for(&cfg.actions, Profile::Ac);
        let battery_actions = actions_for(&cfg.actions, Profile::Battery);
        let actions = if ac_actions.len() > 0 || battery_actions.len() > 0 {
            clone_timed_actions(&ac_actions)
        } else {
            actions_for(&cfg.actions, Profile::Desktop)
        };
        let is_idle_flags = blank_flags(actions.len());
        let triggered_actions = blank_triggered(actions.len());
        IdleTimer {
            cfg: cfg.clone(),
            last_activity: now,
            debounce_until: None,
            idle_debounce_until: None,
            paused: false,
            manually_paused: false,
            previous_brightness: None,
            suspend_occurred: false,
            is_idle_flags,
            active_kinds: KindSet::new(),
            triggered_actions,
            on_ac: true,
            start_time: now,
            actions,
            ac_actions,
            battery_actions,
            pre_suspend_command: clone_opt_string(&cfg.pre_suspend_command),
            compositor_managed: false,
        }
    }

    /// Whether the three lists that run side by side have one length.
    pub fn is_well_formed(&self) -> (ok: bool)
        ensures
            ok == self@.wf(),
    {
        self.is_idle_flags.len() == self.actions.len() && self.triggered_actions.len()
            == self.actions.len()
    }

    /// Takes up `actions` as the active list, with nothing fired.
    pub fn rearm(&mut self, actions: Vec<IdleAction>)
        ensures
            final(self)@ == old(self)@.rearmed(timed_actions_view(actions@)),
            final(self)@.wf(),
    {
        self.is_idle_flags = blank_flags(actions.len());
        self.triggered_actions = blank_triggered(actions.len());
        self.active_kinds = KindSet::new();
        self.actions = actions;
    }

    /// Marks the action at `at` as fired and says what that asks of the
    /// outside world.
    pub fn fire(&mut self, at: usize) -> (effects: Vec<Effect>)
        requires
            old(self)@.wf(),
            at < old(self)@.actions.len(),
        ensures
            final(self)@ == old(self)@.fired(at as int),
            final(self)@.wf(),
            effects_view(effects@) == firing_effects(
                old(self)@.previous_brightness,
                old(self)@.actions[at as int],
            ),
    {
        let action = self.actions[at].clone();
        self.is_idle_flags.set(at, true);
        self.active_kinds.insert(action.kind);
        let mut effects: Vec<Effect> = Vec::new();
        if action.kind == IdleActionKind::Brightness && self.previous_brightness.is_none() {
            effects.push(Effect::CaptureBrightness);
        }
        effects.push(Effect::SpawnCommand { command: action.command.clone() });
        assert(effects_view(effects@) =~= firing_effects(
            old(self)@.previous_brightness,
            old(self)@.actions[at as int],
        ));
        self.triggered_actions.set(at, Some(action));
        assert(triggered_view(self.triggered_actions@) =~= old(self)@.triggered_actions.update(
            at as int,
            Some(old(self)@.actions[at as int]),
        ));
        effects
    }

    /// Fires the instant actions that have not fired yet.
    pub fn trigger_instant_actions(&mut self) -> (effects: Vec<Effect>)
        requires
            old(self)@.wf(),
        ensures
            final(self)@ == old(self)@.instants_fired(),
            final(self)@.wf(),
            effects_view(effects@) == old(self)@.instants_fired_effects(),
    {
        let mut effects: Vec<Effect> = Vec::new();
        let len = self.actions.len();
        let mut i: usize = 0;
        while i < len
            invariant
                i <= len,
                len == old(self)@.actions.len(),
                self@.wf(),
                self@ == old(self)@.instants_upto(i as int),
                self@.actions == old(self)@.actions,
                self@.previous_brightness == old(self)@.previous_brightness,
                effects_view(effects@) == old(self)@.instant_effects_upto(i as int),
            decreases len - i,
        {
            if self.actions[i].timeout_seconds == 0 && !self.is_idle_flags[i] {
                let fired = self.fire(i);
                append_effects(&mut effects, fired);
            }
            i = i + 1;
        }
        effects
    }

    /// Starts the timer: the instant actions fire.
    pub fn init(&mut self) -> (effects: Vec<Effect>)
        requires
            old(self)@.wf(),
        ensures
            final(self)@ == old(self)@.instants_fired(),
            final(self)@.wf(),
            effects_view(effects@) == old(self)@.instants_fired_effects(),
    {
        self.trigger_instant_actions()
    }

    /// How long the user has been idle at `now`, in milliseconds.
    pub fn elapsed_idle(&self, now: u64) -> (elapsed: u64)
        ensures
            elapsed == self@.elapsed_idle(now),
    {
        match self.debounce_until {
            Some(until) => {
                if now < until {
                    return 0;
                }
            },
            None => {},
        }
        if now >= self.last_activity {
            now - self.last_activity
        } else {
            0
        }
    }

    /// Checks at `now` whether an action is due, and fires it if the idle
    /// debounce allows.
    pub fn check_idle(&mut self, now: u64) -> (effects: Vec<Effect>)
        requires
            old(self)@.wf(),
        ensures
            final(self)@ == old(self)@.check_idle(now),
            final(self)@.wf(),
            effects_view(effects@) == old(self)@.check_idle_effects(now),
    {
        let mut effects: Vec<Effect> = Vec::new();
        assert(effects_view(effects@) =~= Seq::<EffectModel>::empty());
        if self.paused {
            return effects;
        }
        match self.debounce_until {
            Some(until) => {
                if now < until {
                    return effects;
                }
                self.debounce_until = None;
            },
            None => {},
        }
        let elapsed = self.elapsed_idle(now);
        let debounce: u64 = self.cfg.debounce_seconds as u64 * MILLIS_PER_SECOND;
        let ghost start = self@;
        let len = self.actions.len();
        let mut i: usize = 0;
        assert(start.check_effects_from(0, elapsed, now) =~= effects_view(effects@)
            + start.check_effects_from(0, elapsed, now));
        while i < len
            invariant
                i <= len,
                len == self@.actions.len(),
                self@.wf(),
                debounce == self@.debounce_ms(),
                !old(self)@.is_held(now),
                start == old(self)@.settled(),
                elapsed == start.elapsed_idle(now),
                start.checked_from(0, elapsed, now) == self@.checked_from(i as int, elapsed, now),
                start.check_effects_from(0, elapsed, now) == effects_view(effects@)
                    + self@.check_effects_from(i as int, elapsed, now),
            decreases len - i,
        {
            let timeout = self.actions[i].timeout_seconds;
            let kind = self.actions[i].kind;
            let eligible = timeout > 0 && !self.is_idle_flags[i] && !self.active_kinds.contains(
                kind,
            );
            if eligible && elapsed / MILLIS_PER_SECOND >= timeout {
                assert(self@.is_eligible(i as int) && self@.is_due(i as int, elapsed));
                match self.idle_debounce_until {
                    Some(until) => {
                        if now < until {
                            assert(effects_view(effects@) + Seq::<EffectModel>::empty()
                                =~= effects_view(effects@));
                            return effects;
                        }
                        self.idle_debounce_until = None;
                    },
                    None => {
                        self.idle_debounce_until = Some(
                            if now > u64::MAX - debounce {
                                u64::MAX
                            } else {
                                now + debounce
                            },
                        );
                        assert(effects_view(effects@) + Seq::<EffectModel>::empty()
                            =~= effects_view(effects@));
                        return effects;
                    },
                }
                let ghost before = self@;
                let ghost sent = effects_view(effects@);
                let fired = self.fire(i);
                append_effects(&mut effects, fired);
                assert(sent + (firing_effects(
                    before.previous_brightness,
                    before.actions[i as int],
                ) + self@.check_effects_from(i as int + 1, elapsed, now)) =~= effects_view(
                    effects@,
                ) + self@.check_effects_from(i as int + 1, elapsed, now));
            } else {
                assert(!self@.is_eligible(i as int) || !self@.is_due(i as int, elapsed));
            }
            i = i + 1;
        }
        assert(effects_view(effects@) + Seq::<EffectModel>::empty() =~= effects_view(effects@));
        effects
    }

    /// The name by which the action under `key` is asked for.
    pub fn action_name<'a>(&self, key: &'a str) -> (name: &'a str)
        ensures
            name@ == self@.action_name(key@),
    {
        let desktop = match strip_prefix(key, "desktop.") {
            Some(rest) => rest,
            None => key,
        };
        if self.ac_actions.len() > 0 || self.battery_actions.len() > 0 {
            let prefix = if self.on_ac {
                "ac."
            } else {
                "battery."
            };
            match strip_prefix(key, prefix) {
                Some(rest) => rest,
                None => desktop,
            }
        } else {
            desktop
        }
    }

    /// The name of the first entry that configures the action at `at` and
    /// goes by the name `wanted`.
    pub fn custom_name(&self, at: usize, wanted: &str) -> (name: Option<String>)
        requires
            at < self@.actions.len(),
        ensures
            opt_string_view(name) == self@.custom_name_from(at as int, 0, wanted@),
    {
        let action = &self.actions[at];
        let mut from: usize = 0;
        while from < self.cfg.actions.len()
            invariant
                from <= self.cfg.actions.len(),
                at < self@.actions.len(),
                action@ == self@.actions[at as int],
                self@.custom_name_from(at as int, 0, wanted@) == self@.custom_name_from(
                    at as int,
                    from as int,
                    wanted@,
                ),
            decreases self.cfg.actions.len() - from,
        {
            let entry = &self.cfg.actions[from];
            assert(self@.cfg.actions[from as int] == entry@);
            if same_text(entry.action.command.as_str(), action.command.as_str())
                && entry.action.timeout_seconds == action.timeout_seconds {
                let name = self.action_name(entry.key.as_str());
                let compared = normalize(name);
                if same_text(compared.as_str(), wanted) {
                    return Some(String::from_str(name));
                }
            }
            from = from + 1;
        }
        None
    }

    /// The first action that answers to `wanted`, with the name under
    /// which it does.
    pub fn find_action(&self, wanted: &str) -> (found: Option<(usize, String)>)
        ensures
            match found {
                Some((at, name)) => at < self@.actions.len() && self@.found_from(0, wanted@) == Some(
                    (at as int, name@),
                ),
                None => self@.found_from(0, wanted@) is None,
            },
    {
        let mut at: usize = 0;
        while at < self.actions.len()
            invariant
                at <= self.actions.len(),
                self@.found_from(0, wanted@) == self@.found_from(at as int, wanted@),
            decreases self.actions.len() - at,
        {
            let kind = self.actions[at].kind;
            assert(self@.actions[at as int].kind == kind);
            if same_text(kind.as_str(), wanted) {
                return Some((at, String::from_str(kind.as_str())));
            }
            if kind == IdleActionKind::Custom {
                match self.custom_name(at, wanted) {
                    Some(name) => {
                        return Some((at, name));
                    },
                    None => {},
                }
            }
            at = at + 1;
        }
        None
    }

    /// The names that can be asked for, sorted, each once.
    pub fn available_actions(&self) -> (names: Vec<String>)
        ensures
            texts_view(names@) == self@.available(),
    {
        let mut names: Vec<String> = Vec::new();
        let mut i: usize = 0;
        assert(texts_view(names@) =~= self@.kind_names_upto(0));
        while i < self.actions.len()
            invariant
                i <= self.actions.len(),
                texts_view(names@) == self@.kind_names_upto(i as int),
            decreases self.actions.len() - i,
        {
            let kind = self.actions[i].kind;
            assert(self@.actions[i as int].kind == kind);
            if kind != IdleActionKind::Custom {
                insert_name(&mut names, String::from_str(kind.as_str()));
            }
            i = i + 1;
        }
        let ghost kinds = texts_view(names@);
        let mut j: usize = 0;
        while j < self.cfg.actions.len()
            invariant
                j <= self.cfg.actions.len(),
                kinds == self@.kind_names_upto(self@.actions.len() as int),
                texts_view(names@) == self@.with_entry_names_upto(kinds, j as int),
            decreases self.cfg.actions.len() - j,
        {
            let entry = &self.cfg.actions[j];
            assert(self@.cfg.actions[j as int] == entry@);
            insert_name(&mut names, String::from_str(self.action_name(entry.key.as_str())));
            j = j + 1;
        }
        if self.pre_suspend_command.is_some() {
            insert_name(&mut names, String::from_str("pre_suspend"));
        }
        names
    }

    /// The complaint that no action goes by `name`.
    pub fn not_found(&self, name: &str) -> (message: String)
        ensures
            message@ == not_found_message(name@, self@.available()),
    {
        let available = self.available_actions();
        let mut message = String::new();
        message.append("Action '");
        message.append(name);
        message.append("' not found. Available actions: ");
        push_joined(&mut message, &available, ", ");
        message.append(
            "\nNote: Custom actions defined in your config (e.g. `[desktop.<name>]` or `[ac.<name>]`) can also be triggered using their names.",
        );
        message
    }

    /// Fires the action that was asked for as `name` and goes by the name
    /// `wanted`, unless it has fired already.
    pub fn trigger_normalized(&mut self, name: &str, wanted: &str, now: u64) -> (outcome:
        NameTrigger)
        requires
            old(self)@.wf(),
        ensures
            final(self)@ == old(self)@.triggered_by(wanted@, now),
            final(self)@.wf(),
            effects_view(outcome.effects@) == old(self)@.triggered_by_effects(wanted@, now),
            answer_view(outcome.answer) == old(self)@.triggered_by_answer(name@, wanted@),
    {
        if same_text(wanted, "pre-suspend") || same_text(wanted, "presuspend") {
            let effects = self.trigger_pre_suspend(false, true, now);
            return NameTrigger { answer: Ok(String::from_str("pre_suspend")), effects };
        }
        let mut effects: Vec<Effect> = Vec::new();
        assert(effects_view(effects@) =~= Seq::<EffectModel>::empty());
        match self.find_action(wanted) {
            Some((at, found)) => {
                if !self.is_idle_flags[at] {
                    effects = self.fire(at);
                }
                NameTrigger { answer: Ok(found), effects }
            },
            None => {
                let message = self.not_found(name);
                NameTrigger { answer: Err(message), effects }
            },
        }
    }

    /// Fires the action that goes by `name`, unless it has fired already.
    /// Underscores count as hyphens in a name, and case does not count.
    pub fn trigger_action_by_name(&mut self, name: &str, now: u64) -> (outcome: NameTrigger)
        requires
            old(self)@.wf(),
        ensures
            final(self)@ == old(self)@.triggered_by(normalized(name@), now),
            final(self)@.wf(),
            effects_view(outcome.effects@) == old(self)@.triggered_by_effects(
                normalized(name@),
                now,
            ),
            answer_view(outcome.answer) == old(self)@.triggered_by_answer(
                name@,
                normalized(name@),
            ),
    {
        let wanted = normalize(name);
        self.trigger_normalized(name, wanted.as_str(), now)
    }

    /// Forces every action that has not fired to fire.
    pub fn trigger_idle(&mut self) -> (effects: Vec<Effect>)
        requires
            old(self)@.wf(),
        ensures
            final(self)@ == old(self)@.forced_upto(old(self)@.actions.len() as int),
            final(self)@.wf(),
            effects_view(effects@) == old(self)@.forced_effects_upto(old(self)@.actions.len() as int),
    {
        let mut effects: Vec<Effect> = Vec::new();
        let len = self.actions.len();
        let mut i: usize = 0;
        assert(effects_view(effects@) =~= Seq::<EffectModel>::empty());
        while i < len
            invariant
                i <= len,
                len == old(self)@.actions.len(),
                self@.wf(),
                self@ == old(self)@.forced_upto(i as int),
                self@.actions == old(self)@.actions,
                effects_view(effects@) == old(self)@.forced_effects_upto(i as int),
            decreases len - i,
        {
            if !self.is_idle_flags[i] {
                let ghost before = self@;
                let ghost sent = effects@;
                self.is_idle_flags.set(i, true);
                let action = self.actions[i].clone();
                effects.push(Effect::SpawnCommand { command: action.command.clone() });
                self.triggered_actions.set(i, Some(action));
                assert(triggered_view(self.triggered_actions@) =~= before.triggered_actions.update(
                    i as int,
                    Some(before.actions[i as int]),
                ));
                assert(effects_view(effects@) =~= effects_view(sent).push(
                    EffectModel::SpawnCommand { command: before.actions[i as int].command },
                ));
            }
            i = i + 1;
        }
        effects
    }

    /// Rewinds the timers at `now`.
    pub fn rewind(&mut self, now: u64)
        ensures
            final(self)@ == old(self)@.rewound(now),
            final(self)@.wf(),
    {
        self.last_activity = now;
        let actions = clone_timed_actions(&self.actions);
        self.rearm(actions);
    }

    /// Runs the pre-suspend hook at `now`. A suspend that was not asked
    /// for by hand is remembered; after the command the timers are rewound
    /// if asked for.
    pub fn trigger_pre_suspend(&mut self, rewind_timers: bool, manual: bool, now: u64) -> (effects:
        Vec<Effect>)
        ensures
            final(self)@ == old(self)@.pre_suspended(rewind_timers, manual, now),
            effects_view(effects@) == old(self)@.pre_suspended_effects(rewind_timers, manual, now),
            old(self)@.wf() ==> final(self)@.wf(),
    {
        if !manual {
            self.suspend_occurred = true;
        }
        let mut effects: Vec<Effect> = Vec::new();
        match clone_opt_string(&self.pre_suspend_command) {
            Some(command) => {
                effects.push(Effect::RunAndWait { command });
                assert(effects_view(effects@) =~= seq![
                    EffectModel::RunAndWait { command: command@ },
                ]);
                if rewind_timers {
                    self.rewind(now);
                    let fired = self.trigger_instant_actions();
                    append_effects(&mut effects, fired);
                }
            },
            None => {
                assert(effects_view(effects@) =~= Seq::<EffectModel>::empty());
            },
        }
        effects
    }

    /// Takes in the power source: `true` on AC, `false` on battery.
    pub fn update_power_source(&mut self, on_ac: bool) -> (effects: Vec<Effect>)
        ensures
            final(self)@ == old(self)@.power_source_updated(on_ac),
            effects_view(effects@) == old(self)@.power_source_effects(on_ac),
            old(self)@.wf() ==> final(self)@.wf(),
    {
        let mut effects: Vec<Effect> = Vec::new();
        if self.on_ac == on_ac {
            assert(effects_view(effects@) =~= Seq::<EffectModel>::empty());
            return effects;
        }
        self.on_ac = on_ac;
        match self.previous_brightness {
            Some(level) => {
                effects.push(Effect::RestoreBrightness { level });
                assert(effects_view(effects@) =~= seq![EffectModel::RestoreBrightness { level }]);
            },
            None => {
                assert(effects_view(effects@) =~= Seq::<EffectModel>::empty());
            },
        }
        self.previous_brightness = None;
        let actions = if on_ac {
            clone_timed_actions(&self.ac_actions)
        } else {
            clone_timed_actions(&self.battery_actions)
        };
        self.rearm(actions);
        let fired = self.trigger_instant_actions();
        append_effects(&mut effects, fired);
        effects
    }

    /// The shortest timeout among the actions that have one, in seconds;
    /// a minute if none has.
    pub fn shortest_timeout(&self) -> (shortest: u64)
        ensures
            if self@.none_timed() {
                shortest == DEFAULT_SHORTEST_TIMEOUT
            } else {
                self@.is_shortest_timeout(shortest)
            },
    {
        let mut found: Option<u64> = None;
        let mut i: usize = 0;
        while i < self.actions.len()
            invariant
                i <= self.actions.len(),
                match found {
                    Some(at) => {
                        &&& at > 0
                        &&& exists|k: int|
                            0 <= k < i && (#[trigger] self@.actions[k]).timeout_seconds == at
                        &&& forall|k: int|
                            0 <= k < i && (#[trigger] self@.actions[k]).timeout_seconds > 0 ==> at
                                <= self@.actions[k].timeout_seconds
                    },
                    None => forall|k: int|
                        0 <= k < i ==> (#[trigger] self@.actions[k]).timeout_seconds == 0,
                },
            decreases self.actions.len() - i,
        {
            let timeout = self.actions[i].timeout_seconds;
            assert(self@.actions[i as int].timeout_seconds == timeout);
            if timeout > 0 {
                found = match found {
                    Some(at) => Some(if timeout < at {
                        timeout
                    } else {
                        at
                    }),
                    None => Some(timeout),
                };
            }
            i = i + 1;
        }
        match found {
            Some(at) => {
                let ghost k = choose|k: int|
                    0 <= k < self@.actions.len() && (#[trigger] self@.actions[k]).timeout_seconds
                        == at;
                assert(self@.actions[k].timeout_seconds != 0);
                at
            },
            None => DEFAULT_SHORTEST_TIMEOUT,
        }
    }

    /// Notes whether the compositor manages idling.
    pub fn set_compositor_managed(&mut self, value: bool)
        ensures
            final(self)@ == (TimerModel { compositor_managed: value, ..old(self)@ }),
    {
        self.compositor_managed = value;
    }

    /// Whether the compositor manages idling.
    pub fn is_compositor_managed(&self) -> (managed: bool)
        ensures
            managed == self@.compositor_managed,
    {
        self.compositor_managed
    }

    /// Marks every action as fired.
    pub fn mark_all_idle(&mut self)
        ensures
            final(self)@ == (TimerModel {
                is_idle_flags: all_flags(old(self)@.is_idle_flags.len()),
                ..old(self)@
            }),
    {
        let len = self.is_idle_flags.len();
        let mut i: usize = 0;
        while i < len
            invariant
                i <= len,
                len == self.is_idle_flags.len(),
                self@ == (TimerModel { is_idle_flags: self@.is_idle_flags, ..old(self)@ }),
                forall|k: int| 0 <= k < i ==> self@.is_idle_flags[k],
            decreases len - i,
        {
            self.is_idle_flags.set(i, true);
            i = i + 1;
        }
        assert(self@.is_idle_flags =~= all_flags(old(self)@.is_idle_flags.len()));
    }

    /// Takes up another configuration at `now`.
    pub fn update_from_config(&mut self, cfg: &IdleConfig, now: u64) -> (effects: Vec<Effect>)
        ensures
            final(self)@ == old(self)@.reconfigured(cfg@, now).instants_fired(),
            final(self)@.wf(),
            effects_view(effects@) == old(self)@.reconfigured(cfg@, now).instants_fired_effects(),
    {
        self.ac_actions = actions_for(&cfg.actions, Profile::Ac);
        self.battery_actions = actions_for(&cfg.actions, Profile::Battery);
        let actions = if self.ac_actions.len() > 0 || self.battery_actions.len() > 0 {
            if self.on_ac {
                clone_timed_actions(&self.ac_actions)
            } else {
                clone_timed_actions(&self.battery_actions)
            }
        } else {
            actions_for(&cfg.actions, Profile::Desktop)
        };
        self.cfg = cfg.clone();
        self.pre_suspend_command = clone_opt_string(&cfg.pre_suspend_command);
        self.last_activity = now;
        self.previous_brightness = None;
        self.rearm(actions);
        self.trigger_instant_actions()
    }

    /// What shutting down asks of the outside world: the end of every task
    /// that is still there.
    pub fn shutdown(&mut self) -> (effects: Vec<Effect>)
        ensures
            final(self)@ == old(self)@,
            effects_view(effects@) == seq![EffectModel::AbortTasks],
    {
        let mut effects: Vec<Effect> = Vec::new();
        effects.push(Effect::AbortTasks);
        assert(effects_view(effects@) =~= seq![EffectModel::AbortTasks]);
        effects
    }
}

/// How often the timer is checked, in milliseconds, given the shortest
/// timeout in seconds: the shorter the timeout, the more often.
pub open spec fn tick_rate_ms(shortest_timeout: u64) -> u64 {
    if shortest_timeout < 15 {
        250
    } else if shortest_timeout < 60 {
        500
    } else {
        1000
    }
}

/// How often the timer is checked, in milliseconds.
pub fn tick_rate(shortest_timeout: u64) -> (millis: u64)
    ensures
        millis == tick_rate_ms(shortest_timeout),
{
    if shortest_timeout < 15 {
        250
    } else if shortest_timeout < 60 {
        500
    } else {
        1000
    }
}

/// One tick of the timer's task at `now`: the timer is checked unless it
/// is paused by hand.
pub fn idle_tick(timer: &mut IdleTimer, now: u64) -> (effects: Vec<Effect>)
    requires
        old(timer)@.wf(),
    ensures
        final(timer)@ == if old(timer)@.manually_paused {
            old(timer)@
        } else {
            old(timer)@.check_idle(now)
        },
        final(timer)@.wf(),
        effects_view(effects@) == if old(timer)@.manually_paused {
            Seq::<EffectModel>::empty()
        } else {
            old(timer)@.check_idle_effects(now)
        },
{
    if !timer.manually_paused {
        timer.check_idle(now)
    } else {
        let effects: Vec<Effect> = Vec::new();
        assert(effects_view(effects@) =~= Seq::<EffectModel>::empty());
        effects
    }
}

/// The names of the kinds of the first `n` actions stand in the order of
/// a dictionary, each once.
pub proof fn lemma_kind_names_sorted(timer: TimerModel, n: int)
    ensures
        sorted_names(timer.kind_names_upto(n)),
    decreases n,
{
    if n > 0 {
        lemma_kind_names_sorted(timer, n - 1);
        lemma_inserted_sorted(timer.kind_names_upto(n - 1), timer.actions[n - 1].kind.name());
    }
}

/// A sorted list of names stays sorted when the names of the first `n`
/// entries of the configuration are put in.
pub proof fn lemma_entry_names_sorted(timer: TimerModel, names: Seq<Seq<char>>, n: int)
    requires
        sorted_names(names),
    ensures
        sorted_names(timer.with_entry_names_upto(names, n)),
    decreases n,
{
    if n > 0 {
        lemma_entry_names_sorted(timer, names, n - 1);
        lemma_inserted_sorted(
            timer.with_entry_names_upto(names, n - 1),
            timer.action_name(timer.cfg.actions[n - 1].key),
        );
    }
}

/// The names that can be asked for stand in the order of a dictionary,
/// each once.
pub proof fn lemma_available_sorted(timer: TimerModel)
    ensures
        sorted_names(timer.available()),
{
    let kinds = timer.kind_names_upto(timer.actions.len() as int);
    lemma_kind_names_sorted(timer, timer.actions.len() as int);
    lemma_entry_names_sorted(timer, kinds, timer.cfg.actions.len() as int);
    lemma_inserted_sorted(
        timer.with_entry_names_upto(kinds, timer.cfg.actions.len() as int),
        "pre_suspend"@,
    );
}

} // verus!
