use vstd::prelude::*;

verus! {

/// What an idle action does when it fires.
#[derive(Clone, Copy, Debug, PartialEq, Eq, Structural)]
pub enum IdleAction {
    LockScreen,
    Suspend,
    Dpms,
    Brightness,
    Custom,
}

/// Mathematical value of an [`IdleActionBlock`].
pub struct ActionModel {
    pub name: Seq<char>,
    pub timeout: u64,
    pub command: Seq<char>,
    pub kind: IdleAction,
    pub resume_command: Option<Seq<char>>,
    pub last_triggered: Option<u64>,
}

/// One configured idle action.
///
/// `timeout` is in seconds; zero marks an instant action. `last_triggered`
/// is a timestamp in milliseconds on the caller's monotonic clock.
#[derive(Debug, PartialEq, Eq)]
pub struct IdleActionBlock {
    pub name: String,
    pub timeout: u64,
    pub command: String,
    pub kind: IdleAction,
    pub resume_command: Option<String>,
    pub last_triggered: Option<u64>,
}

/// The characters of an optional string.
pub open spec fn opt_string_view(s: Option<String>) -> Option<Seq<char>> {
    match s {
        Some(t) => Some(t@),
        None => None,
    }
}

impl View for IdleActionBlock {
    type V = ActionModel;

    open spec fn view(&self) -> ActionModel {
        ActionModel {
            name: self.name@,
            timeout: self.timeout,
            command: self.command@,
            kind: self.kind,
            resume_command: opt_string_view(self.resume_command),
            last_triggered: self.last_triggered,
        }
    }
}

impl ActionModel {
    /// An instant action has no timeout.
    pub open spec fn is_instant(self) -> bool {
        self.timeout == 0
    }

    /// The same action with another firing stamp.
    pub open spec fn stamped(self, at: Option<u64>) -> ActionModel {
        ActionModel { last_triggered: at, ..self }
    }
}

/// Copies an optional string.
pub fn clone_opt_string(s: &Option<String>) -> (res: Option<String>)
    ensures
        res == *s,
{
    match s {
        Some(t) => Some(t.clone()),
        None => None,
    }
}

impl Clone for IdleActionBlock {
    fn clone(&self) -> (res: Self)
        ensures
            res == *self,
    {
        IdleActionBlock {
            name: self.name.clone(),
            timeout: self.timeout,
            command: self.command.clone(),
            kind: self.kind,
            resume_command: clone_opt_string(&self.resume_command),
            last_triggered: self.last_triggered,
        }
    }
}

impl IdleActionBlock {
    /// Whether the action fires at once, outside the cascade.
    pub fn is_instant(&self) -> (b: bool)
        ensures
            b == self@.is_instant(),
    {
        self.timeout == 0
    }

    /// Whether the timeout has run out at `now`, counted from the action's
    /// own stamp or else from `baseline`.
    pub fn is_due(&self, baseline: u64, now: u64) -> (due: bool)
        ensures
            due == self@.is_due(baseline, now),
    {
        let start = match self.last_triggered {
            Some(at) => at,
            None => baseline,
        };
        let elapsed: u64 = if now >= start {
            now - start
        } else {
            0
        };
        elapsed / MILLIS_PER_SECOND >= self.timeout
    }

    /// The moment the timeout runs out, counted from the action's own stamp
    /// or else from `baseline`; the largest timestamp if it lies beyond.
    pub fn deadline(&self, baseline: u64) -> (at: u64)
        ensures
            at == self@.deadline(baseline),
    {
        let start = match self.last_triggered {
            Some(at) => at,
            None => baseline,
        };
        if self.timeout > (u64::MAX - start) / MILLIS_PER_SECOND {
            u64::MAX
        } else {
            start + self.timeout * MILLIS_PER_SECOND
        }
    }
}

/// Milliseconds in one second.
pub const MILLIS_PER_SECOND: u64 = 1000;

/// `at + span`, stopping at the largest timestamp.
pub open spec fn add_capped(at: u64, span: nat) -> u64 {
    if at + span > u64::MAX {
        u64::MAX
    } else {
        (at + span) as u64
    }
}

impl ActionModel {
    /// The timeout in milliseconds.
    pub open spec fn timeout_ms(self) -> nat {
        (self.timeout * MILLIS_PER_SECOND) as nat
    }

    /// The moment the action's countdown starts from: its own stamp if it
    /// has one, the activity baseline otherwise.
    pub open spec fn countdown_start(self, baseline: u64) -> u64 {
        match self.last_triggered {
            Some(at) => at,
            None => baseline,
        }
    }

    /// Time run since the countdown started; none while the start still
    /// lies ahead.
    pub open spec fn elapsed(self, baseline: u64, now: u64) -> int {
        if now >= self.countdown_start(baseline) {
            now - self.countdown_start(baseline)
        } else {
            0
        }
    }

    /// Whether the timeout has run out at `now`.
    pub open spec fn is_due(self, baseline: u64, now: u64) -> bool {
        self.elapsed(baseline, now) >= self.timeout_ms()
    }

    /// The moment the timeout runs out.
    pub open spec fn deadline(self, baseline: u64) -> u64 {
        add_capped(self.countdown_start(baseline), self.timeout_ms())
    }
}

/// The values of a sequence of actions, in order.
pub open spec fn actions_view(v: Seq<IdleActionBlock>) -> Seq<ActionModel> {
    v.map_values(|a: IdleActionBlock| a@)
}

/// Copies a list of actions.
pub fn clone_actions(v: &Vec<IdleActionBlock>) -> (res: Vec<IdleActionBlock>)
    ensures
        res@ == v@,
{
    let mut out: Vec<IdleActionBlock> = Vec::new();
    let mut i: usize = 0;
    while i < v.len()
        invariant
            i <= v.len(),
            out@ == v@.take(i as int),
        decreases v.len() - i,
    {
        out.push(v[i].clone());
        i = i + 1;
    }
    proof {
        assert(v@.take(v.len() as int) =~= v@);
    }
    out
}

/// What to do when the lid closes.
#[derive(Debug, PartialEq, Eq)]
pub enum LidCloseAction {
    Ignore,
    LockScreen,
    Suspend,
    Custom(String),
}

/// Mathematical value of a [`LidCloseAction`].
pub enum LidCloseModel {
    Ignore,
    LockScreen,
    Suspend,
    Custom(Seq<char>),
}

impl View for LidCloseAction {
    type V = LidCloseModel;

    open spec fn view(&self) -> LidCloseModel {
        match *self {
            LidCloseAction::Ignore => LidCloseModel::Ignore,
            LidCloseAction::LockScreen => LidCloseModel::LockScreen,
            LidCloseAction::Suspend => LidCloseModel::Suspend,
            LidCloseAction::Custom(cmd) => LidCloseModel::Custom(cmd@),
        }
    }
}

impl Clone for LidCloseAction {
    fn clone(&self) -> (res: Self)
        ensures
            res == *self,
    {
        match self {
            LidCloseAction::Ignore => LidCloseAction::Ignore,
            LidCloseAction::LockScreen => LidCloseAction::LockScreen,
            LidCloseAction::Suspend => LidCloseAction::Suspend,
            LidCloseAction::Custom(cmd) => LidCloseAction::Custom(cmd.clone()),
        }
    }
}

/// What to do when the lid opens.
#[derive(Debug, PartialEq, Eq)]
pub enum LidOpenAction {
    Ignore,
    Wake,
    Custom(String),
}

/// Mathematical value of a [`LidOpenAction`].
pub enum LidOpenModel {
    Ignore,
    Wake,
    Custom(Seq<char>),
}

impl View for LidOpenAction {
    type V = LidOpenModel;

    open spec fn view(&self) -> LidOpenModel {
        match *self {
            LidOpenAction::Ignore => LidOpenModel::Ignore,
            LidOpenAction::Wake => LidOpenModel::Wake,
            LidOpenAction::Custom(cmd) => LidOpenModel::Custom(cmd@),
        }
    }
}

impl Clone for LidOpenAction {
    fn clone(&self) -> (res: Self)
        ensures
            res == *self,
    {
        match self {
            LidOpenAction::Ignore => LidOpenAction::Ignore,
            LidOpenAction::Wake => LidOpenAction::Wake,
            LidOpenAction::Custom(cmd) => LidOpenAction::Custom(cmd.clone()),
        }
    }
}

/// How an application that inhibits idling is recognised: by its exact
/// name, or by a regular expression kept as its source text.
#[derive(Debug, PartialEq, Eq)]
pub enum AppInhibitPattern {
    Literal(String),
    Regex(String),
}

/// Mathematical value of an [`AppInhibitPattern`].
pub enum PatternModel {
    Literal(Seq<char>),
    Regex(Seq<char>),
}

impl View for AppInhibitPattern {
    type V = PatternModel;

    open spec fn view(&self) -> PatternModel {
        match *self {
            AppInhibitPattern::Literal(s) => PatternModel::Literal(s@),
            AppInhibitPattern::Regex(s) => PatternModel::Regex(s@),
        }
    }
}

impl PatternModel {
    /// The text the pattern was written as.
    pub open spec fn text(self) -> Seq<char> {
        match self {
            PatternModel::Literal(s) => s,
            PatternModel::Regex(s) => s,
        }
    }
}

impl Clone for AppInhibitPattern {
    fn clone(&self) -> (res: Self)
        ensures
            res == *self,
    {
        match self {
            AppInhibitPattern::Literal(s) => AppInhibitPattern::Literal(s.clone()),
            AppInhibitPattern::Regex(s) => AppInhibitPattern::Regex(s.clone()),
        }
    }
}

impl AppInhibitPattern {
    /// The text the pattern was written as.
    pub fn as_str(&self) -> (s: &str)
        ensures
            s@ == self@.text(),
    {
        match self {
            AppInhibitPattern::Literal(s) => s.as_str(),
            AppInhibitPattern::Regex(s) => s.as_str(),
        }
    }
}

/// The values of a sequence of patterns, in order.
pub open spec fn patterns_view(v: Seq<AppInhibitPattern>) -> Seq<PatternModel> {
    v.map_values(|p: AppInhibitPattern| p@)
}

/// The daemon's configuration.
#[derive(Debug, PartialEq, Eq)]
pub struct StasisConfig {
    pub actions: Vec<IdleActionBlock>,
    pub pre_suspend_command: Option<String>,
    pub monitor_media: bool,
    pub ignore_remote_media: bool,
    pub respect_wayland_inhibitors: bool,
    pub inhibit_apps: Vec<AppInhibitPattern>,
    pub debounce_seconds: u8,
    pub lid_close_action: LidCloseAction,
    pub lid_open_action: LidOpenAction,
}

/// Mathematical value of a [`StasisConfig`].
pub struct ConfigModel {
    pub actions: Seq<ActionModel>,
    pub pre_suspend_command: Option<Seq<char>>,
    pub monitor_media: bool,
    pub ignore_remote_media: bool,
    pub respect_wayland_inhibitors: bool,
    pub inhibit_apps: Seq<PatternModel>,
    pub debounce_seconds: u8,
    pub lid_close_action: LidCloseModel,
    pub lid_open_action: LidOpenModel,
}

impl View for StasisConfig {
    type V = ConfigModel;

    open spec fn view(&self) -> ConfigModel {
        ConfigModel {
            actions: actions_view(self.actions@),
            pre_suspend_command: opt_string_view(self.pre_suspend_command),
            monitor_media: self.monitor_media,
            ignore_remote_media: self.ignore_remote_media,
            respect_wayland_inhibitors: self.respect_wayland_inhibitors,
            inhibit_apps: patterns_view(self.inhibit_apps@),
            debounce_seconds: self.debounce_seconds,
            lid_close_action: self.lid_close_action@,
            lid_open_action: self.lid_open_action@,
        }
    }
}

/// Copies a list of patterns.
pub fn clone_patterns(v: &Vec<AppInhibitPattern>) -> (res: Vec<AppInhibitPattern>)
    ensures
        res@ == v@,
{
    let mut out: Vec<AppInhibitPattern> = Vec::new();
    let mut i: usize = 0;
    while i < v.len()
        invariant
            i <= v.len(),
            out@ == v@.take(i as int),
        decreases v.len() - i,
    {
        out.push(v[i].clone());
        i = i + 1;
    }
    proof {
        assert(v@.take(v.len() as int) =~= v@);
    }
    out
}

impl Clone for StasisConfig {
    fn clone(&self) -> (res: Self)
        ensures
            res@ == self@,
    {
        StasisConfig {
            actions: clone_actions(&self.actions),
            pre_suspend_command: clone_opt_string(&self.pre_suspend_command),
            monitor_media: self.monitor_media,
            ignore_remote_media: self.ignore_remote_media,
            respect_wayland_inhibitors: self.respect_wayland_inhibitors,
            inhibit_apps: clone_patterns(&self.inhibit_apps),
            debounce_seconds: self.debounce_seconds,
            lid_close_action: self.lid_close_action.clone(),
            lid_open_action: self.lid_open_action.clone(),
        }
    }
}

} // verus!
