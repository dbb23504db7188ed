use crate::config::model::{
    actions_view, patterns_view, ActionModel, AppInhibitPattern, ConfigModel, IdleAction,
    IdleActionBlock, LidCloseAction, LidCloseModel, LidOpenAction, LidOpenModel, PatternModel,
    StasisConfig,
};
use crate::engine::manager::state::{home_block, ActionBlock};
use crate::engine::utils::{duration_text, format_duration};
use crate::text::{decimal, padded, push_decimal, push_padded, starts_with};
use vstd::prelude::*;

verus! {

/// The width that action names are filled up to in the listing.
pub const NAME_WIDTH: usize = 20;

/// A truth value in words.
pub open spec fn bool_text(b: bool) -> Seq<char> {
    if b {
        "true"@
    } else {
        "false"@
    }
}

/// A truth value in words.
pub fn bool_str(b: bool) -> (s: &'static str)
    ensures
        s@ == bool_text(b),
{
    if b {
        "true"
    } else {
        "false"
    }
}

impl IdleAction {
    /// The kind as it is written in a configuration.
    pub open spec fn text(self) -> Seq<char> {
        match self {
            IdleAction::LockScreen => "lock_screen"@,
            IdleAction::Suspend => "suspend"@,
            IdleAction::Dpms => "dpms"@,
            IdleAction::Brightness => "brightness"@,
            IdleAction::Custom => "custom"@,
        }
    }

    /// The kind as it is written in a configuration.
    pub fn as_str(&self) -> (s: &'static str)
        ensures
            s@ == self.text(),
    {
        match self {
            IdleAction::LockScreen => "lock_screen",
            IdleAction::Suspend => "suspend",
            IdleAction::Dpms => "dpms",
            IdleAction::Brightness => "brightness",
            IdleAction::Custom => "custom",
        }
    }
}

impl LidCloseModel {
    /// The action as it is written in a configuration.
    pub open spec fn text(self) -> Seq<char> {
        match self {
            LidCloseModel::Ignore => Seq::<char>::empty() + "ignore"@,
            LidCloseModel::LockScreen => Seq::<char>::empty() + "lock_screen"@,
            LidCloseModel::Suspend => Seq::<char>::empty() + "suspend"@,
            LidCloseModel::Custom(command) => Seq::<char>::empty() + "custom:"@ + command,
        }
    }
}

impl LidCloseAction {
    /// The action as it is written in a configuration.
    pub fn to_text(&self) -> (out: String)
        ensures
            out@ == self@.text(),
    {
        let mut out = String::new();
        match self {
            LidCloseAction::Ignore => {
                out.append("ignore");
            },
            LidCloseAction::LockScreen => {
                out.append("lock_screen");
            },
            LidCloseAction::Suspend => {
                out.append("suspend");
            },
            LidCloseAction::Custom(command) => {
                out.append("custom:");
                out.append(command.as_str());
            },
        }
        out
    }
}

impl LidOpenModel {
    /// The action as it is written in a configuration.
    pub open spec fn text(self) -> Seq<char> {
        match self {
            LidOpenModel::Ignore => Seq::<char>::empty() + "ignore"@,
            LidOpenModel::Wake => Seq::<char>::empty() + "wake"@,
            LidOpenModel::Custom(command) => Seq::<char>::empty() + "custom:"@ + command,
        }
    }
}

impl LidOpenAction {
    /// The action as it is written in a configuration.
    pub fn to_text(&self) -> (out: String)
        ensures
            out@ == self@.text(),
    {
        let mut out = String::new();
        match self {
            LidOpenAction::Ignore => {
                out.append("ignore");
            },
            LidOpenAction::Wake => {
                out.append("wake");
            },
            LidOpenAction::Custom(command) => {
                out.append("custom:");
                out.append(command.as_str());
            },
        }
        out
    }
}

/// `out` with one more line that gives a setting its value.
pub open spec fn setting_line(out: Seq<char>, label: Seq<char>, value: Seq<char>) -> Seq<char> {
    out + label + value + "\n"@
}

/// Appends a line that gives a setting its value.
pub fn push_setting(out: &mut String, label: &str, value: &str)
    ensures
        final(out)@ == setting_line(old(out)@, label@, value@),
{
    out.append(label);
    out.append(value);
    out.append("\n");
}

/// `out` followed by the patterns' texts with commas between them.
pub open spec fn with_patterns(out: Seq<char>, patterns: Seq<PatternModel>) -> Seq<char>
    decreases patterns.len(),
{
    if patterns.len() == 0 {
        out
    } else if patterns.len() == 1 {
        out + patterns[0].text()
    } else {
        with_patterns(out, patterns.drop_last()) + ","@ + patterns.last().text()
    }
}

/// `out` followed by the list of inhibiting applications, or by a dash if
/// there is none.
pub open spec fn with_apps(out: Seq<char>, patterns: Seq<PatternModel>) -> Seq<char> {
    if patterns.len() == 0 {
        out + "-"@
    } else {
        with_patterns(out, patterns)
    }
}

/// Appends the list of inhibiting applications.
pub fn push_apps(out: &mut String, patterns: &Vec<AppInhibitPattern>)
    ensures
        final(out)@ == with_apps(old(out)@, patterns_view(patterns@)),
{
    if patterns.len() == 0 {
        out.append("-");
        return;
    }
    let ghost all = patterns_view(patterns@);
    out.append(patterns[0].as_str());
    assert(all.take(1).len() == 1);
    assert(all.take(1)[0] == all[0]);
    let mut i: usize = 1;
    while i < patterns.len()
        invariant
            1 <= i <= patterns.len(),
            all == patterns_view(patterns@),
            out@ == with_patterns(old(out)@, all.take(i as int)),
        decreases patterns.len() - i,
    {
        out.append(",");
        out.append(patterns[i].as_str());
        proof {
            let grown = all.take(i as int + 1);
            assert(grown.drop_last() =~= all.take(i as int));
            assert(grown.last() == all[i as int]);
        }
        i = i + 1;
    }
    assert(all.take(patterns.len() as int) =~= all);
}

/// The heading that the actions of a block are listed under.
pub open spec fn group_name(block: ActionBlock) -> Seq<char> {
    match block {
        ActionBlock::Ac => "AC"@,
        ActionBlock::Battery => "Battery"@,
        ActionBlock::Default => "Desktop"@,
    }
}

/// Whether an action of `block` is among `actions`.
pub open spec fn group_listed(actions: Seq<ActionModel>, block: ActionBlock) -> bool {
    exists|i: int| 0 <= i < actions.len() && home_block(#[trigger] actions[i]) == block
}

/// `out` with the line that describes one action.
pub open spec fn action_line(out: Seq<char>, action: ActionModel) -> Seq<char> {
    let line = out + "    "@ + padded(action.name, NAME_WIDTH as nat) + " Timeout="@ + decimal(
        action.timeout as nat,
    ) + " Kind="@ + action.kind.text() + " Command=\""@ + action.command + "\""@;
    let resumed = match action.resume_command {
        Some(command) => line + " ResumeCommand=\""@ + command + "\""@,
        None => line,
    };
    resumed + "\n"@
}

/// `out` with the listing of `actions`: a line each, in order, and before
/// the first action of each block the heading of that block.
pub open spec fn action_lines(out: Seq<char>, actions: Seq<ActionModel>) -> Seq<char>
    decreases actions.len(),
{
    if actions.len() == 0 {
        out
    } else {
        let earlier = actions.drop_last();
        let block = home_block(actions.last());
        let before = action_lines(out, earlier);
        let headed = if group_listed(earlier, block) {
            before
        } else {
            before + "  ["@ + group_name(block) + "]\n"@
        };
        action_line(headed, actions.last())
    }
}

impl ConfigModel {
    /// The general settings, a line each.
    pub open spec fn general_section(self) -> Seq<char> {
        let out = Seq::<char>::empty() + "General:\n"@;
        let out = setting_line(
            out,
            "  PreSuspendCommand  = "@,
            match self.pre_suspend_command {
                Some(command) => command,
                None => "-"@,
            },
        );
        let out = setting_line(out, "  MonitorMedia       = "@, bool_text(self.monitor_media));
        let out = setting_line(
            out,
            "  IgnoreRemoteMedia  = "@,
            bool_text(self.ignore_remote_media),
        );
        let out = setting_line(
            out,
            "  RespectInhibitors  = "@,
            bool_text(self.respect_wayland_inhibitors),
        );
        let out = setting_line(
            out,
            "  DebounceSeconds    = "@,
            decimal(self.debounce_seconds as nat),
        );
        let out = setting_line(out, "  LidCloseAction     = "@, self.lid_close_action.text());
        let out = setting_line(out, "  LidOpenAction      = "@, self.lid_open_action.text());
        with_apps(out + "  InhibitApps        = "@, self.inhibit_apps) + "\n"@
    }

    /// The lines on the daemon's present state, of which each is there only
    /// if its value is given.
    pub open spec fn status_section(
        out: Seq<char>,
        idle_secs: Option<u64>,
        uptime_secs: Option<u64>,
        is_inhibited: Option<bool>,
    ) -> Seq<char> {
        let out = match idle_secs {
            Some(secs) => setting_line(out, "  IdleTime           = "@, duration_text(secs as nat)),
            None => out,
        };
        let out = match uptime_secs {
            Some(secs) => setting_line(out, "  Uptime             = "@, duration_text(secs as nat)),
            None => out,
        };
        match is_inhibited {
            Some(inhibited) => setting_line(out, "  IdleInhibited      = "@, bool_text(inhibited)),
            None => out,
        }
    }

    /// The whole report: the general settings, the daemon's state, and the
    /// actions.
    pub open spec fn pretty(
        self,
        idle_secs: Option<u64>,
        uptime_secs: Option<u64>,
        is_inhibited: Option<bool>,
    ) -> Seq<char> {
        action_lines(
            Self::status_section(self.general_section(), idle_secs, uptime_secs, is_inhibited)
                + "\nActions:\n"@,
            self.actions,
        )
    }
}

/// The block an action belongs to, going by its name.
pub fn block_of(action: &IdleActionBlock) -> (block: ActionBlock)
    ensures
        block == home_block(action@),
{
    if starts_with(action.name.as_str(), "ac.") {
        ActionBlock::Ac
    } else if starts_with(action.name.as_str(), "battery.") {
        ActionBlock::Battery
    } else {
        ActionBlock::Default
    }
}

/// Appends the line that describes one action.
pub fn push_action(out: &mut String, action: &IdleActionBlock)
    ensures
        final(out)@ == action_line(old(out)@, action@),
{
    out.append("    ");
    push_padded(out, action.name.as_str(), NAME_WIDTH);
    out.append(" Timeout=");
    push_decimal(out, action.timeout);
    out.append(" Kind=");
    out.append(action.kind.as_str());
    out.append(" Command=\"");
    out.append(action.command.as_str());
    out.append("\"");
    match &action.resume_command {
        Some(command) => {
            out.append(" ResumeCommand=\"");
            out.append(command.as_str());
            out.append("\"");
        },
        None => {},
    }
    out.append("\n");
}

/// A block is listed among the first `n + 1` actions exactly when it is
/// listed among the first `n` or is the block of the action at `n`.
pub proof fn lemma_group_listed_step(actions: Seq<ActionModel>, n: int, block: ActionBlock)
    requires
        0 <= n < actions.len(),
    ensures
        group_listed(actions.take(n + 1), block) == (group_listed(actions.take(n), block)
            || home_block(actions[n]) == block),
{
    let shorter = actions.take(n);
    let longer = actions.take(n + 1);
    if group_listed(shorter, block) {
        let k = choose|k: int| 0 <= k < shorter.len() && home_block(#[trigger] shorter[k]) == block;
        assert(home_block(longer[k]) == block);
    }
    if home_block(actions[n]) == block {
        assert(home_block(longer[n]) == block);
    }
    if group_listed(longer, block) {
        let k = choose|k: int| 0 <= k < longer.len() && home_block(#[trigger] longer[k]) == block;
        if k < n {
            assert(home_block(shorter[k]) == block);
        }
    }
}

/// Appends the listing of `actions`.
pub fn push_actions(out: &mut String, actions: &Vec<IdleActionBlock>)
    ensures
        final(out)@ == action_lines(old(out)@, actions_view(actions@)),
{
    let ghost all = actions_view(actions@);
    let mut seen_ac = false;
    let mut seen_battery = false;
    let mut seen_desktop = false;
    let mut i: usize = 0;
    assert(all.take(0).len() == 0);
    while i < actions.len()
        invariant
            i <= actions.len(),
            all == actions_view(actions@),
            out@ == action_lines(old(out)@, all.take(i as int)),
            seen_ac == group_listed(all.take(i as int), ActionBlock::Ac),
            seen_battery == group_listed(all.take(i as int), ActionBlock::Battery),
            seen_desktop == group_listed(all.take(i as int), ActionBlock::Default),
        decreases actions.len() - i,
    {
        let action = &actions[i];
        let block = block_of(action);
        proof {
            let grown = all.take(i as int + 1);
            assert(grown.drop_last() =~= all.take(i as int));
            assert(grown.last() == action@);
            lemma_group_listed_step(all, i as int, ActionBlock::Ac);
            lemma_group_listed_step(all, i as int, ActionBlock::Battery);
            lemma_group_listed_step(all, i as int, ActionBlock::Default);
        }
        let seen = match block {
            ActionBlock::Ac => seen_ac,
            ActionBlock::Battery => seen_battery,
            ActionBlock::Default => seen_desktop,
        };
        if !seen {
            out.append("  [");
            match block {
                ActionBlock::Ac => {
                    out.append("AC");
                    seen_ac = true;
                },
                ActionBlock::Battery => {
                    out.append("Battery");
                    seen_battery = true;
                },
                ActionBlock::Default => {
                    out.append("Desktop");
                    seen_desktop = true;
                },
            }
            out.append("]\n");
        }
        push_action(out, action);
        i = i + 1;
    }
    assert(all.take(actions.len() as int) =~= all);
}

impl StasisConfig {
    /// Writes the general settings, a line each.
    pub fn general_text(&self) -> (out: String)
        ensures
            out@ == self@.general_section(),
    {
        let mut out = String::new();
        out.append("General:\n");
        match &self.pre_suspend_command {
            Some(command) => push_setting(&mut out, "  PreSuspendCommand  = ", command.as_str()),
            None => push_setting(&mut out, "  PreSuspendCommand  = ", "-"),
        }
        push_setting(&mut out, "  MonitorMedia       = ", bool_str(self.monitor_media));
        push_setting(&mut out, "  IgnoreRemoteMedia  = ", bool_str(self.ignore_remote_media));
        push_setting(&mut out, "  RespectInhibitors  = ", bool_str(self.respect_wayland_inhibitors));
        out.append("  DebounceSeconds    = ");
        push_decimal(&mut out, self.debounce_seconds as u64);
        out.append("\n");
        let close = self.lid_close_action.to_text();
        push_setting(&mut out, "  LidCloseAction     = ", close.as_str());
        let open = self.lid_open_action.to_text();
        push_setting(&mut out, "  LidOpenAction      = ", open.as_str());
        out.append("  InhibitApps        = ");
        push_apps(&mut out, &self.inhibit_apps);
        out.append("\n");
        out
    }

    /// Writes the configuration, and what is given of the daemon's state,
    /// as a report for people to read. The spans are in whole seconds.
    pub fn pretty_print(
        &self,
        idle_time: Option<u64>,
        uptime: Option<u64>,
        is_inhibited: Option<bool>,
    ) -> (out: String)
        ensures
            out@ == self@.pretty(idle_time, uptime, is_inhibited),
    {
        let mut out = self.general_text();
        match idle_time {
            Some(secs) => {
                let text = format_duration(secs);
                push_setting(&mut out, "  IdleTime           = ", text.as_str());
            },
            None => {},
        }
        match uptime {
            Some(secs) => {
                let text = format_duration(secs);
                push_setting(&mut out, "  Uptime             = ", text.as_str());
            },
            None => {},
        }
        match is_inhibited {
            Some(inhibited) => {
                push_setting(&mut out, "  IdleInhibited      = ", bool_str(inhibited));
            },
            None => {},
        }
        out.append("\nActions:\n");
        push_actions(&mut out, &self.actions);
        out
    }
}

} // verus!
