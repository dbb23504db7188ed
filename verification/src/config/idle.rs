use crate::config::model::{clone_opt_string, opt_string_view};
use vstd::prelude::*;

verus! {

/// What an action of the simple timer does.
#[derive(Clone, Copy, Debug, PartialEq, Eq, Structural)]
pub enum IdleActionKind {
    LockScreen,
    Suspend,
    Dpms,
    Brightness,
    Custom,
}

impl IdleActionKind {
    /// The name by which an action of this kind is asked for.
    pub open spec fn name(self) -> Seq<char> {
        match self {
            IdleActionKind::LockScreen => "lockscreen"@,
            IdleActionKind::Suspend => "suspend"@,
            IdleActionKind::Dpms => "dpms"@,
            IdleActionKind::Brightness => "brightness"@,
            IdleActionKind::Custom => "custom"@,
        }
    }

    /// The name by which an action of this kind is asked for.
    pub fn as_str(&self) -> (s: &'static str)
        ensures
            s@ == self.name(),
    {
        match self {
            IdleActionKind::LockScreen => "lockscreen",
            IdleActionKind::Suspend => "suspend",
            IdleActionKind::Dpms => "dpms",
            IdleActionKind::Brightness => "brightness",
            IdleActionKind::Custom => "custom",
        }
    }
}

/// A set of action kinds.
#[derive(Clone, Copy, Debug, PartialEq, Eq, Structural)]
pub struct KindSet {
    pub lock_screen: bool,
    pub suspend: bool,
    pub dpms: bool,
    pub brightness: bool,
    pub custom: bool,
}

impl KindSet {
    /// Whether `kind` is in the set.
    pub open spec fn has(self, kind: IdleActionKind) -> bool {
        match kind {
            IdleActionKind::LockScreen => self.lock_screen,
            IdleActionKind::Suspend => self.suspend,
            IdleActionKind::Dpms => self.dpms,
            IdleActionKind::Brightness => self.brightness,
            IdleActionKind::Custom => self.custom,
        }
    }

    /// The set with `kind` in it.
    pub open spec fn with(self, kind: IdleActionKind) -> KindSet {
        match kind {
            IdleActionKind::LockScreen => KindSet { lock_screen: true, ..self },
            IdleActionKind::Suspend => KindSet { suspend: true, ..self },
            IdleActionKind::Dpms => KindSet { dpms: true, ..self },
            IdleActionKind::Brightness => KindSet { brightness: true, ..self },
            IdleActionKind::Custom => KindSet { custom: true, ..self },
        }
    }

    /// The set that holds no kind.
    pub open spec fn none() -> KindSet {
        KindSet { lock_screen: false, suspend: false, dpms: false, brightness: false, custom: false }
    }

    /// The set that holds no kind.
    pub fn new() -> (set: KindSet)
        ensures
            set == KindSet::none(),
    {
        KindSet { lock_screen: false, suspend: false, dpms: false, brightness: false, custom: false }
    }

    /// Whether `kind` is in the set.
    pub fn contains(&self, kind: IdleActionKind) -> (b: bool)
        ensures
            b == self.has(kind),
    {
        match kind {
            IdleActionKind::LockScreen => self.lock_screen,
            IdleActionKind::Suspend => self.suspend,
            IdleActionKind::Dpms => self.dpms,
            IdleActionKind::Brightness => self.brightness,
            IdleActionKind::Custom => self.custom,
        }
    }

    /// Puts `kind` into the set.
    pub fn insert(&mut self, kind: IdleActionKind)
        ensures
            *final(self) == old(self).with(kind),
    {
        match kind {
            IdleActionKind::LockScreen => {
                self.lock_screen = true;
            },
            IdleActionKind::Suspend => {
                self.suspend = true;
            },
            IdleActionKind::Dpms => {
                self.dpms = true;
            },
            IdleActionKind::Brightness => {
                self.brightness = true;
            },
            IdleActionKind::Custom => {
                self.custom = true;
            },
        }
    }
}

/// One action of the simple timer. The timeout is in seconds; zero marks
/// an action that fires at once.
#[derive(Debug, PartialEq, Eq)]
pub struct IdleAction {
    pub kind: IdleActionKind,
    pub command: String,
    pub timeout_seconds: u64,
    pub resume_command: Option<String>,
}

/// Mathematical value of an [`IdleAction`].
pub struct TimedActionModel {
    pub kind: IdleActionKind,
    pub command: Seq<char>,
    pub timeout_seconds: u64,
    pub resume_command: Option<Seq<char>>,
}

impl View for IdleAction {
    type V = TimedActionModel;

    open spec fn view(&self) -> TimedActionModel {
        TimedActionModel {
            kind: self.kind,
            command: self.command@,
            timeout_seconds: self.timeout_seconds,
            resume_command: opt_string_view(self.resume_command),
        }
    }
}

impl Clone for IdleAction {
    fn clone(&self) -> (res: Self)
        ensures
            res == *self,
    {
        IdleAction {
            kind: self.kind,
            command: self.command.clone(),
            timeout_seconds: self.timeout_seconds,
            resume_command: clone_opt_string(&self.resume_command),
        }
    }
}

/// The values of a list of actions, in order.
pub open spec fn timed_actions_view(v: Seq<IdleAction>) -> Seq<TimedActionModel> {
    v.map_values(|a: IdleAction| a@)
}

/// Copies a list of actions.
pub fn clone_timed_actions(v: &Vec<IdleAction>) -> (res: Vec<IdleAction>)
    ensures
        res@ == v@,
{
    let mut out: Vec<IdleAction> = Vec::new();
    let mut i: usize = 0;
    while i < v.len()
        invariant
            i <= v.len(),
            out@ == v@.take(i as int),
        decreases v.len() - i,
    {
        out.push(v[i].clone());
        i = i + 1;
    }
    proof {
        assert(v@.take(v.len() as int) =~= v@);
    }
    out
}

/// An action under the key it is configured by.
#[derive(Debug, PartialEq, Eq)]
pub struct ConfigEntry {
    pub key: String,
    pub action: IdleAction,
}

/// Mathematical value of a [`ConfigEntry`].
pub struct EntryModel {
    pub key: Seq<char>,
    pub action: TimedActionModel,
}

impl View for ConfigEntry {
    type V = EntryModel;

    open spec fn view(&self) -> EntryModel {
        EntryModel { key: self.key@, action: self.action@ }
    }
}

impl Clone for ConfigEntry {
    fn clone(&self) -> (res: Self)
        ensures
            res == *self,
    {
        ConfigEntry { key: self.key.clone(), action: self.action.clone() }
    }
}

/// The values of a list of entries, in order.
pub open spec fn entries_view(v: Seq<ConfigEntry>) -> Seq<EntryModel> {
    v.map_values(|e: ConfigEntry| e@)
}

/// The configuration of the simple timer: the actions under their keys,
/// in configured order.
#[derive(Debug, PartialEq, Eq)]
pub struct IdleConfig {
    pub actions: Vec<ConfigEntry>,
    pub debounce_seconds: u8,
    pub pre_suspend_command: Option<String>,
}

/// Mathematical value of an [`IdleConfig`].
pub struct IdleConfigModel {
    pub actions: Seq<EntryModel>,
    pub debounce_seconds: u8,
    pub pre_suspend_command: Option<Seq<char>>,
}

impl View for IdleConfig {
    type V = IdleConfigModel;

    open spec fn view(&self) -> IdleConfigModel {
        IdleConfigModel {
            actions: entries_view(self.actions@),
            debounce_seconds: self.debounce_seconds,
            pre_suspend_command: opt_string_view(self.pre_suspend_command),
        }
    }
}

impl Clone for IdleConfig {
    fn clone(&self) -> (res: Self)
        ensures
            res@ == self@,
    {
        let mut actions: Vec<ConfigEntry> = Vec::new();
        let mut i: usize = 0;
        while i < self.actions.len()
            invariant
                i <= self.actions.len(),
                actions@ == self.actions@.take(i as int),
            decreases self.actions.len() - i,
        {
            actions.push(self.actions[i].clone());
            i = i + 1;
        }
        proof {
            assert(self.actions@.take(self.actions.len() as int) =~= self.actions@);
        }
        IdleConfig {
            actions,
            debounce_seconds: self.debounce_seconds,
            pre_suspend_command: clone_opt_string(&self.pre_suspend_command),
        }
    }
}

} // verus!
