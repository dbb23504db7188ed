use crate::config::model::{
    actions_view, clone_opt_string, opt_string_view, patterns_view, ActionModel,
    AppInhibitPattern, ConfigModel, IdleAction, IdleActionBlock, LidCloseAction, LidCloseModel,
    LidOpenAction, LidOpenModel, PatternModel, StasisConfig,
};
use crate::text::{matches_at, same_text, starts_with, trim, trimmed};
use vstd::prelude::*;

verus! {

/// The error that the `regex` crate reports for a pattern it cannot
/// compile.
#[verifier::external_type_specification]
#[verifier::external_body]
pub struct ExRegexError(regex::Error);

/// `regex::Regex::new` compiles a pattern, or says why it cannot. Nothing
/// is claimed here of which patterns compile.
#[verifier::external_body]
fn compile_regex(pattern: &str) -> (outcome: Result<(), regex::Error>) {
    match regex::Regex::new(pattern) {
        Ok(_) => Ok(()),
        Err(e) => Err(e),
    }
}

/// Why a configuration is turned down.
#[derive(Clone, Copy, Debug, PartialEq, Eq, Structural)]
pub enum ConfigError {
    InvalidRegex,
    InvalidMonitorMedia,
    InvalidIgnoreRemoteMedia,
    InvalidRespectInhibitors,
    NoActions,
}

impl ConfigError {
    /// The error in words.
    pub open spec fn text(self) -> Seq<char> {
        match self {
            ConfigError::InvalidRegex => "invalid regex in inhibit_apps"@,
            ConfigError::InvalidMonitorMedia => "invalid value for 'stasis.monitor_media'"@,
            ConfigError::InvalidIgnoreRemoteMedia => "invalid value for 'stasis.ignore_remote_media'"@,
            ConfigError::InvalidRespectInhibitors =>
                "invalid value for 'stasis.respect_wayland_inhibitors'"@,
            ConfigError::NoActions => "no valid idle actions found in config"@,
        }
    }

    /// The error in words.
    pub fn message(&self) -> (s: &'static str)
        ensures
            s@ == self.text(),
    {
        match self {
            ConfigError::InvalidRegex => "invalid regex in inhibit_apps",
            ConfigError::InvalidMonitorMedia => "invalid value for 'stasis.monitor_media'",
            ConfigError::InvalidIgnoreRemoteMedia => "invalid value for 'stasis.ignore_remote_media'",
            ConfigError::InvalidRespectInhibitors =>
                "invalid value for 'stasis.respect_wayland_inhibitors'",
            ConfigError::NoActions => "no valid idle actions found in config",
        }
    }
}

/// Whether a character has a meaning of its own in a regular expression.
pub open spec fn is_regex_meta(c: char) -> bool {
    ||| c == '.'
    ||| c == '*'
    ||| c == '+'
    ||| c == '?'
    ||| c == '('
    ||| c == ')'
    ||| c == '['
    ||| c == ']'
    ||| c == '{'
    ||| c == '}'
    ||| c == '|'
    ||| c == '\\'
    ||| c == '^'
    ||| c == '$'
}

/// Whether a text holds a character with a meaning of its own in a
/// regular expression.
pub open spec fn has_regex_meta(s: Seq<char>) -> bool {
    exists|i: int| 0 <= i < s.len() && is_regex_meta(#[trigger] s[i])
}

/// Whether a text holds a character with a meaning of its own in a
/// regular expression.
pub fn looks_like_regex(s: &str) -> (b: bool)
    ensures
        b == has_regex_meta(s@),
{
    let len = s.unicode_len();
    let mut i: usize = 0;
    while i < len
        invariant
            i <= len,
            len == s@.len(),
            forall|j: int| 0 <= j < i ==> !is_regex_meta(#[trigger] s@[j]),
        decreases len - i,
    {
        let c = s.get_char(i);
        if c == '.' || c == '*' || c == '+' || c == '?' || c == '(' || c == ')' || c == '['
            || c == ']' || c == '{' || c == '}' || c == '|' || c == '\\' || c == '^' || c == '$' {
            return true;
        }
        i = i + 1;
    }
    false
}

/// The pattern that a text stands for, given whether it compiles as a
/// regular expression: a text without special characters is taken
/// literally; one with them must compile.
pub open spec fn pattern_of(s: Seq<char>, compiles: bool) -> Result<PatternModel, ConfigError> {
    if !has_regex_meta(s) {
        Ok(PatternModel::Literal(s))
    } else if compiles {
        Ok(PatternModel::Regex(s))
    } else {
        Err(ConfigError::InvalidRegex)
    }
}

/// The value of a pattern or of the error in its place.
pub open spec fn pattern_result_view(r: Result<AppInhibitPattern, ConfigError>) -> Result<
    PatternModel,
    ConfigError,
> {
    match r {
        Ok(p) => Ok(p@),
        Err(e) => Err(e),
    }
}

/// Makes the pattern that a text stands for, given whether the text
/// compiles as a regular expression.
pub fn pattern_from(s: &str, compiles: bool) -> (pattern: Result<AppInhibitPattern, ConfigError>)
    ensures
        pattern_result_view(pattern) == pattern_of(s@, compiles),
{
    if !looks_like_regex(s) {
        Ok(AppInhibitPattern::Literal(String::from_str(s)))
    } else if compiles {
        Ok(AppInhibitPattern::Regex(String::from_str(s)))
    } else {
        Err(ConfigError::InvalidRegex)
    }
}

/// Reads an application pattern. A text without special characters always
/// gives a literal pattern; any other gives a regular expression if it
/// compiles and an error if it does not.
pub fn parse_app_pattern(s: &str) -> (pattern: Result<AppInhibitPattern, ConfigError>)
    ensures
        pattern_result_view(pattern) == pattern_of(s@, true) || pattern_result_view(pattern)
            == pattern_of(s@, false),
{
    let compiles = if looks_like_regex(s) {
        compile_regex(s).is_ok()
    } else {
        true
    };
    pattern_from(s, compiles)
}

/// Whether a key names a setting rather than an action.
pub open spec fn special_key(key: Seq<char>) -> bool {
    ||| key == "resume_command"@
    ||| key == "resume-command"@
    ||| key == "pre_suspend_command"@
    ||| key == "pre-suspend-command"@
    ||| key == "monitor_media"@
    ||| key == "monitor-media"@
    ||| key == "ignore_remote_media"@
    ||| key == "ignore-remote-media"@
    ||| key == "respect_wayland_inhibitors"@
    ||| key == "respect-wayland-inhibitors"@
    ||| key == "inhibit_apps"@
    ||| key == "inhibit-apps"@
    ||| key == "debounce_seconds"@
    ||| key == "debounce-seconds"@
}

/// Whether a key names a setting rather than an action.
pub fn is_special_key(key: &str) -> (b: bool)
    ensures
        b == special_key(key@),
{
    same_text(key, "resume_command") || same_text(key, "resume-command") || same_text(
        key,
        "pre_suspend_command",
    ) || same_text(key, "pre-suspend-command") || same_text(key, "monitor_media") || same_text(
        key,
        "monitor-media",
    ) || same_text(key, "ignore_remote_media") || same_text(key, "ignore-remote-media")
        || same_text(key, "respect_wayland_inhibitors") || same_text(
        key,
        "respect-wayland-inhibitors",
    ) || same_text(key, "inhibit_apps") || same_text(key, "inhibit-apps") || same_text(
        key,
        "debounce_seconds",
    ) || same_text(key, "debounce-seconds")
}

/// The kind of action that a key names.
pub open spec fn kind_of_key(key: Seq<char>) -> IdleAction {
    if key == "lock_screen"@ || key == "lock-screen"@ {
        IdleAction::LockScreen
    } else if key == "suspend"@ {
        IdleAction::Suspend
    } else if key == "dpms"@ {
        IdleAction::Dpms
    } else if key == "brightness"@ {
        IdleAction::Brightness
    } else {
        IdleAction::Custom
    }
}

/// The kind of action that a key names.
pub fn action_kind(key: &str) -> (kind: IdleAction)
    ensures
        kind == kind_of_key(key@),
{
    if same_text(key, "lock_screen") || same_text(key, "lock-screen") {
        IdleAction::LockScreen
    } else if same_text(key, "suspend") {
        IdleAction::Suspend
    } else if same_text(key, "dpms") {
        IdleAction::Dpms
    } else if same_text(key, "brightness") {
        IdleAction::Brightness
    } else {
        IdleAction::Custom
    }
}

/// What a configuration holds under one key of an action section.
#[derive(Debug, PartialEq, Eq)]
pub struct RawAction {
    pub key: String,
    pub command: Option<String>,
    pub timeout: Option<u64>,
    pub resume_command: Option<String>,
}

/// Mathematical value of a [`RawAction`].
pub struct RawActionModel {
    pub key: Seq<char>,
    pub command: Option<Seq<char>>,
    pub timeout: Option<u64>,
    pub resume_command: Option<Seq<char>>,
}

impl View for RawAction {
    type V = RawActionModel;

    open spec fn view(&self) -> RawActionModel {
        RawActionModel {
            key: self.key@,
            command: opt_string_view(self.command),
            timeout: self.timeout,
            resume_command: opt_string_view(self.resume_command),
        }
    }
}

/// The values of a sequence of entries, in order.
pub open spec fn raw_actions_view(v: Seq<RawAction>) -> Seq<RawActionModel> {
    v.map_values(|e: RawAction| e@)
}

impl RawActionModel {
    /// The action that the entry describes, if it describes one: its key
    /// names no setting, and it has both a command and a timeout.
    pub open spec fn action(self) -> Option<ActionModel> {
        if special_key(self.key) || self.command is None || self.timeout is None {
            None
        } else {
            Some(
                ActionModel {
                    name: self.key,
                    timeout: self.timeout->0,
                    command: self.command->0,
                    kind: kind_of_key(self.key),
                    resume_command: self.resume_command,
                    last_triggered: None,
                },
            )
        }
    }
}

/// The actions that the entries describe, in order.
pub open spec fn collected(entries: Seq<RawActionModel>) -> Seq<ActionModel>
    decreases entries.len(),
{
    if entries.len() == 0 {
        Seq::<ActionModel>::empty()
    } else {
        match entries.last().action() {
            Some(action) => collected(entries.drop_last()).push(action),
            None => collected(entries.drop_last()),
        }
    }
}

/// Appends to `out` the actions that the entries describe.
pub fn collect_into(out: &mut Vec<IdleActionBlock>, entries: &Vec<RawAction>)
    ensures
        actions_view(final(out)@) == actions_view(old(out)@) + collected(
            raw_actions_view(entries@),
        ),
{
    let ghost all = raw_actions_view(entries@);
    let ghost start = actions_view(out@);
    let mut i: usize = 0;
    assert(start + collected(all.take(0)) =~= start);
    while i < entries.len()
        invariant
            i <= entries.len(),
            all == raw_actions_view(entries@),
            actions_view(out@) == start + collected(all.take(i as int)),
        decreases entries.len() - i,
    {
        let entry = &entries[i];
        proof {
            let grown = all.take(i as int + 1);
            assert(grown.drop_last() =~= all.take(i as int));
            assert(grown.last() == entry@);
        }
        let ghost before = out@;
        if !is_special_key(entry.key.as_str()) {
            match (&entry.command, entry.timeout) {
                (Some(command), Some(timeout)) => {
                    let action = IdleActionBlock {
                        name: entry.key.clone(),
                        timeout,
                        command: command.clone(),
                        kind: action_kind(entry.key.as_str()),
                        resume_command: clone_opt_string(&entry.resume_command),
                        last_triggered: None,
                    };
                    out.push(action);
                    assert(actions_view(out@) =~= actions_view(before).push(action@));
                    assert(actions_view(out@) =~= start + collected(all.take(i as int + 1)));
                },
                _ => {},
            }
        }
        i = i + 1;
    }
    assert(all.take(entries.len() as int) =~= all);
}

/// The actions that the entries of one section describe, in order.
pub fn collect_actions(entries: &Vec<RawAction>) -> (actions: Vec<IdleActionBlock>)
    ensures
        actions_view(actions@) == collected(raw_actions_view(entries@)),
{
    let mut actions: Vec<IdleActionBlock> = Vec::new();
    collect_into(&mut actions, entries);
    assert(actions_view(actions@) =~= collected(raw_actions_view(entries@)));
    actions
}

/// `s` once every leading repetition of `prefix` is taken off.
pub open spec fn without_leading(s: Seq<char>, prefix: Seq<char>) -> Seq<char>
    decreases s.len(),
{
    if prefix.len() > 0 && prefix.is_prefix_of(s) {
        without_leading(s.skip(prefix.len() as int), prefix)
    } else {
        s
    }
}

/// The command of a custom lid action: what follows the leading
/// `custom:`, without the white space around it.
pub open spec fn custom_command(s: Seq<char>) -> Seq<char> {
    trimmed(without_leading(s, "custom:"@))
}

/// The command of a custom lid action.
pub fn custom_command_of(s: &str) -> (command: String)
    ensures
        command@ == custom_command(s@),
{
    let len = s.unicode_len();
    let prefix = "custom:";
    let width = prefix.unicode_len();
    proof {
        reveal_strlit("custom:");
    }
    let mut start: usize = 0;
    assert(s@.skip(0) =~= s@);
    while len - start >= width && matches_at(s, prefix, start)
        invariant
            start <= len,
            len == s@.len(),
            width == prefix@.len(),
            width == 7,
            without_leading(s@, prefix@) == without_leading(s@.skip(start as int), prefix@),
        decreases len - start,
    {
        proof {
            let rest = s@.skip(start as int);
            assert(rest.subrange(0, width as int) =~= s@.subrange(
                start as int,
                start + width,
            ));
            assert(rest.skip(width as int) =~= s@.skip(start + width));
        }
        start = start + width;
    }
    proof {
        let rest = s@.skip(start as int);
        if prefix@.is_prefix_of(rest) {
            assert(rest.subrange(0, width as int) =~= s@.subrange(
                start as int,
                start + width,
            ));
        }
        assert(s@.subrange(start as int, len as int) =~= rest);
    }
    trim(s.substring_char(start, len))
}

/// What a `lid_close_action` setting asks for. A text that is not
/// understood asks for nothing.
pub open spec fn lid_close_of(s: Seq<char>) -> LidCloseModel {
    if s == "ignore"@ {
        LidCloseModel::Ignore
    } else if s == "lock_screen"@ || s == "lock-screen"@ {
        LidCloseModel::LockScreen
    } else if s == "suspend"@ {
        LidCloseModel::Suspend
    } else if "custom:"@.is_prefix_of(s) {
        LidCloseModel::Custom(custom_command(s))
    } else {
        LidCloseModel::Ignore
    }
}

/// Reads a `lid_close_action` setting.
pub fn parse_lid_close_action(s: &str) -> (action: LidCloseAction)
    ensures
        action@ == lid_close_of(s@),
{
    if same_text(s, "ignore") {
        LidCloseAction::Ignore
    } else if same_text(s, "lock_screen") || same_text(s, "lock-screen") {
        LidCloseAction::LockScreen
    } else if same_text(s, "suspend") {
        LidCloseAction::Suspend
    } else if starts_with(s, "custom:") {
        LidCloseAction::Custom(custom_command_of(s))
    } else {
        LidCloseAction::Ignore
    }
}

/// What a `lid_open_action` setting asks for. A text that is not
/// understood asks for nothing.
pub open spec fn lid_open_of(s: Seq<char>) -> LidOpenModel {
    if s == "ignore"@ {
        LidOpenModel::Ignore
    } else if s == "wake"@ {
        LidOpenModel::Wake
    } else if "custom:"@.is_prefix_of(s) {
        LidOpenModel::Custom(custom_command(s))
    } else {
        LidOpenModel::Ignore
    }
}

/// Reads a `lid_open_action` setting.
pub fn parse_lid_open_action(s: &str) -> (action: LidOpenAction)
    ensures
        action@ == lid_open_of(s@),
{
    if same_text(s, "ignore") {
        LidOpenAction::Ignore
    } else if same_text(s, "wake") {
        LidOpenAction::Wake
    } else if starts_with(s, "custom:") {
        LidOpenAction::Custom(custom_command_of(s))
    } else {
        LidOpenAction::Ignore
    }
}

/// What a configuration holds for a setting that is on or off.
#[derive(Clone, Copy, Debug, PartialEq, Eq, Structural)]
pub enum RawFlag {
    /// The setting is there with this value.
    Value(bool),
    /// The setting is not there.
    Missing,
    /// The setting is there, but is neither on nor off.
    Invalid,
}

impl RawFlag {
    /// The value of the setting, which is on where the setting is
    /// missing; none where it is invalid.
    pub open spec fn resolved(self) -> Option<bool> {
        match self {
            RawFlag::Value(b) => Some(b),
            RawFlag::Missing => Some(true),
            RawFlag::Invalid => None,
        }
    }

    /// The value of the setting.
    pub fn resolve(self) -> (value: Option<bool>)
        ensures
            value == self.resolved(),
    {
        match self {
            RawFlag::Value(b) => Some(b),
            RawFlag::Missing => Some(true),
            RawFlag::Invalid => None,
        }
    }
}

/// One entry of the `inhibit_apps` list as a configuration holds it.
#[derive(Debug, PartialEq, Eq)]
pub enum RawPattern {
    /// A plain text.
    Text(String),
    /// A text marked as a regular expression.
    Regex(String),
    /// Anything else.
    Other,
}

/// Mathematical value of a [`RawPattern`].
pub enum RawPatternModel {
    Text(Seq<char>),
    Regex(Seq<char>),
    Other,
}

impl View for RawPattern {
    type V = RawPatternModel;

    open spec fn view(&self) -> RawPatternModel {
        match *self {
            RawPattern::Text(s) => RawPatternModel::Text(s@),
            RawPattern::Regex(s) => RawPatternModel::Regex(s@),
            RawPattern::Other => RawPatternModel::Other,
        }
    }
}

/// The values of a sequence of raw patterns, in order.
pub open spec fn raw_patterns_view(v: Seq<RawPattern>) -> Seq<RawPatternModel> {
    v.map_values(|p: RawPattern| p@)
}

impl RawPatternModel {
    /// The pattern that the entry gives, if it gives one, given whether
    /// its text compiles as a regular expression.
    pub open spec fn pattern(self, compiles: bool) -> Option<PatternModel> {
        match self {
            RawPatternModel::Text(s) => match pattern_of(s, compiles) {
                Ok(p) => Some(p),
                Err(_) => None,
            },
            RawPatternModel::Regex(s) => if compiles {
                Some(PatternModel::Regex(s))
            } else {
                None
            },
            RawPatternModel::Other => None,
        }
    }
}

/// The patterns that the entries give, in order, where `compiles` says of
/// each entry whether its text compiles as a regular expression.
pub open spec fn selected_patterns(
    entries: Seq<RawPatternModel>,
    compiles: Seq<bool>,
) -> Seq<PatternModel>
    decreases entries.len(),
{
    if entries.len() == 0 || compiles.len() != entries.len() {
        Seq::<PatternModel>::empty()
    } else {
        let earlier = selected_patterns(entries.drop_last(), compiles.drop_last());
        match entries.last().pattern(compiles.last()) {
            Some(p) => earlier.push(p),
            None => earlier,
        }
    }
}

/// The pattern that one entry gives, given whether its text compiles.
pub fn select_pattern(entry: &RawPattern, compiles: bool) -> (pattern: Option<AppInhibitPattern>)
    ensures
        match pattern {
            Some(p) => entry@.pattern(compiles) == Some(p@),
            None => entry@.pattern(compiles) is None,
        },
{
    match entry {
        RawPattern::Text(s) => match pattern_from(s.as_str(), compiles) {
            Ok(p) => Some(p),
            Err(_) => None,
        },
        RawPattern::Regex(s) => if compiles {
            Some(AppInhibitPattern::Regex(s.clone()))
        } else {
            None
        },
        RawPattern::Other => None,
    }
}

/// The patterns that the entries give, in order: an entry whose text does
/// not compile as a regular expression where it has to is left out.
pub fn collect_patterns(entries: &Vec<RawPattern>) -> (patterns: Vec<AppInhibitPattern>)
    ensures
        exists|compiles: Seq<bool>|
            compiles.len() == entries.len() && patterns_view(patterns@) == #[trigger] selected_patterns(
                raw_patterns_view(entries@),
                compiles,
            ),
{
    let ghost all = raw_patterns_view(entries@);
    let ghost mut outcomes: Seq<bool> = Seq::empty();
    let mut patterns: Vec<AppInhibitPattern> = Vec::new();
    let mut i: usize = 0;
    while i < entries.len()
        invariant
            i <= entries.len(),
            all == raw_patterns_view(entries@),
            outcomes.len() == i,
            patterns_view(patterns@) =~= selected_patterns(all.take(i as int), outcomes),
        decreases entries.len() - i,
    {
        let entry = &entries[i];
        let compiles = match entry {
            RawPattern::Text(s) => compile_regex(s.as_str()).is_ok(),
            RawPattern::Regex(s) => compile_regex(s.as_str()).is_ok(),
            RawPattern::Other => false,
        };
        let ghost before = patterns@;
        proof {
            let grown = all.take(i as int + 1);
            assert(grown.drop_last() =~= all.take(i as int));
            assert(grown.last() == entry@);
            assert(outcomes.push(compiles).drop_last() =~= outcomes);
        }
        match select_pattern(entry, compiles) {
            Some(p) => {
                patterns.push(p);
                assert(patterns_view(patterns@) =~= patterns_view(before).push(p@));
            },
            None => {},
        }
        proof {
            outcomes = outcomes.push(compiles);
        }
        i = i + 1;
    }
    assert(all.take(entries.len() as int) =~= all);
    patterns
}

/// Everything that was looked up in a configuration, before it is judged.
#[derive(Debug, PartialEq, Eq)]
pub struct RawConfig {
    pub pre_suspend_command: Option<String>,
    pub monitor_media: RawFlag,
    pub ignore_remote_media: RawFlag,
    pub respect_wayland_inhibitors: RawFlag,
    pub lid_close_action: Option<String>,
    pub lid_open_action: Option<String>,
    pub debounce_seconds: Option<u8>,
    pub inhibit_apps: Vec<RawPattern>,
    /// Whether the machine is a laptop, which decides the sections that
    /// the actions are taken from.
    pub laptop: bool,
    pub desktop_actions: Vec<RawAction>,
    pub ac_actions: Vec<RawAction>,
    pub battery_actions: Vec<RawAction>,
}

/// Mathematical value of a [`RawConfig`].
pub struct RawConfigModel {
    pub pre_suspend_command: Option<Seq<char>>,
    pub monitor_media: RawFlag,
    pub ignore_remote_media: RawFlag,
    pub respect_wayland_inhibitors: RawFlag,
    pub lid_close_action: Option<Seq<char>>,
    pub lid_open_action: Option<Seq<char>>,
    pub debounce_seconds: Option<u8>,
    pub inhibit_apps: Seq<RawPatternModel>,
    pub laptop: bool,
    pub desktop_actions: Seq<RawActionModel>,
    pub ac_actions: Seq<RawActionModel>,
    pub battery_actions: Seq<RawActionModel>,
}

impl View for RawConfig {
    type V = RawConfigModel;

    open spec fn view(&self) -> RawConfigModel {
        RawConfigModel {
            pre_suspend_command: opt_string_view(self.pre_suspend_command),
            monitor_media: self.monitor_media,
            ignore_remote_media: self.ignore_remote_media,
            respect_wayland_inhibitors: self.respect_wayland_inhibitors,
            lid_close_action: opt_string_view(self.lid_close_action),
            lid_open_action: opt_string_view(self.lid_open_action),
            debounce_seconds: self.debounce_seconds,
            inhibit_apps: raw_patterns_view(self.inhibit_apps@),
            laptop: self.laptop,
            desktop_actions: raw_actions_view(self.desktop_actions@),
            ac_actions: raw_actions_view(self.ac_actions@),
            battery_actions: raw_actions_view(self.battery_actions@),
        }
    }
}

/// The debounce that holds where none is configured, in seconds.
pub const DEFAULT_DEBOUNCE_SECONDS: u8 = 3;

impl RawConfigModel {
    /// The actions of the configuration: on a laptop those of the AC
    /// section and then those of the battery section, else those of the
    /// desktop section.
    pub open spec fn actions(self) -> Seq<ActionModel> {
        if self.laptop {
            collected(self.ac_actions) + collected(self.battery_actions)
        } else {
            collected(self.desktop_actions)
        }
    }

    /// Why the configuration is turned down, if it is: the first of the
    /// three switches that is invalid, or else the lack of any action.
    pub open spec fn fault(self) -> Option<ConfigError> {
        if self.monitor_media.resolved() is None {
            Some(ConfigError::InvalidMonitorMedia)
        } else if self.ignore_remote_media.resolved() is None {
            Some(ConfigError::InvalidIgnoreRemoteMedia)
        } else if self.respect_wayland_inhibitors.resolved() is None {
            Some(ConfigError::InvalidRespectInhibitors)
        } else if self.actions().len() == 0 {
            Some(ConfigError::NoActions)
        } else {
            None
        }
    }

    /// The configuration that the looked-up values make, where `compiles`
    /// says of each entry of the application list whether its text
    /// compiles as a regular expression.
    pub open spec fn config(self, compiles: Seq<bool>) -> ConfigModel {
        ConfigModel {
            actions: self.actions(),
            pre_suspend_command: self.pre_suspend_command,
            monitor_media: self.monitor_media.resolved().unwrap_or(true),
            ignore_remote_media: self.ignore_remote_media.resolved().unwrap_or(true),
            respect_wayland_inhibitors: self.respect_wayland_inhibitors.resolved().unwrap_or(true),
            inhibit_apps: selected_patterns(self.inhibit_apps, compiles),
            debounce_seconds: match self.debounce_seconds {
                Some(seconds) => seconds,
                None => DEFAULT_DEBOUNCE_SECONDS,
            },
            lid_close_action: match self.lid_close_action {
                Some(s) => lid_close_of(s),
                None => LidCloseModel::Ignore,
            },
            lid_open_action: match self.lid_open_action {
                Some(s) => lid_open_of(s),
                None => LidOpenModel::Ignore,
            },
        }
    }
}

/// Judges what was looked up in a configuration and makes the
/// configuration of it. It is turned down exactly when one of the three
/// switches is invalid or no action is left.
pub fn load_config(raw: &RawConfig) -> (loaded: Result<StasisConfig, ConfigError>)
    ensures
        match loaded {
            Ok(cfg) => raw@.fault() is None && exists|compiles: Seq<bool>|
                compiles.len() == raw@.inhibit_apps.len() && cfg@ == #[trigger] raw@.config(
                    compiles,
                ),
            Err(e) => raw@.fault() == Some(e),
        },
{
    let monitor_media = match raw.monitor_media.resolve() {
        Some(b) => b,
        None => {
            return Err(ConfigError::InvalidMonitorMedia);
        },
    };
    let ignore_remote_media = match raw.ignore_remote_media.resolve() {
        Some(b) => b,
        None => {
            return Err(ConfigError::InvalidIgnoreRemoteMedia);
        },
    };
    let respect_wayland_inhibitors = match raw.respect_wayland_inhibitors.resolve() {
        Some(b) => b,
        None => {
            return Err(ConfigError::InvalidRespectInhibitors);
        },
    };
    let lid_close_action = match &raw.lid_close_action {
        Some(s) => parse_lid_close_action(s.as_str()),
        None => LidCloseAction::Ignore,
    };
    let lid_open_action = match &raw.lid_open_action {
        Some(s) => parse_lid_open_action(s.as_str()),
        None => LidOpenAction::Ignore,
    };
    let debounce_seconds = match raw.debounce_seconds {
        Some(seconds) => seconds,
        None => DEFAULT_DEBOUNCE_SECONDS,
    };
    let inhibit_apps = collect_patterns(&raw.inhibit_apps);
    let ghost compiles = choose|compiles: Seq<bool>|
        compiles.len() == raw.inhibit_apps.len() && patterns_view(inhibit_apps@)
            == #[trigger] selected_patterns(raw_patterns_view(raw.inhibit_apps@), compiles);
    let mut actions: Vec<IdleActionBlock> = Vec::new();
    if raw.laptop {
        collect_into(&mut actions, &raw.ac_actions);
        collect_into(&mut actions, &raw.battery_actions);
    } else {
        collect_into(&mut actions, &raw.desktop_actions);
    }
    assert(actions_view(actions@) =~= raw@.actions());
    if actions.len() == 0 {
        return Err(ConfigError::NoActions);
    }
    let cfg = StasisConfig {
        actions,
        pre_suspend_command: clone_opt_string(&raw.pre_suspend_command),
        monitor_media,
        ignore_remote_media,
        respect_wayland_inhibitors,
        inhibit_apps,
        debounce_seconds,
        lid_close_action,
        lid_open_action,
    };
    assert(cfg@ == raw@.config(compiles));
    Ok(cfg)
}

} // verus!
