use stasis::config::model::{
    AppInhibitPattern, IdleAction, LidCloseAction, LidOpenAction,
};
use stasis::config::parser::{
    action_kind, collect_actions, collect_patterns, custom_command_of, is_special_key,
    load_config, looks_like_regex, parse_app_pattern, parse_lid_close_action,
    parse_lid_open_action, pattern_from, select_pattern, ConfigError, RawAction, RawConfig,
    RawFlag, RawPattern,
};

fn entry(key: &str, command: Option<&str>, timeout: Option<u64>) -> RawAction {
    RawAction {
        key: key.to_string(),
        command: command.map(|c| c.to_string()),
        timeout,
        resume_command: None,
    }
}

fn raw() -> RawConfig {
    RawConfig {
        pre_suspend_command: Some("lock-now".to_string()),
        monitor_media: RawFlag::Missing,
        ignore_remote_media: RawFlag::Value(false),
        respect_wayland_inhibitors: RawFlag::Value(true),
        lid_close_action: Some("lock-screen".to_string()),
        lid_open_action: None,
        debounce_seconds: None,
        inhibit_apps: vec![
            RawPattern::Text("firefox".to_string()),
            RawPattern::Text("steam.*".to_string()),
            RawPattern::Text("broken[".to_string()),
            RawPattern::Regex("^mpv$".to_string()),
            RawPattern::Regex("(".to_string()),
            RawPattern::Other,
        ],
        laptop: false,
        desktop_actions: vec![
            entry("debounce_seconds", Some("x"), Some(1)),
            entry("lock_screen", Some("locker"), Some(60)),
            entry("no_timeout", Some("x"), None),
            entry("no_command", None, Some(5)),
            entry("my-script", Some("run.sh"), Some(0)),
        ],
        ac_actions: vec![entry("dpms", Some("off"), Some(120))],
        battery_actions: vec![entry("suspend", Some("sleep"), Some(300))],
    }
}

#[test]
fn special_keys_are_recognised() {
    for key in [
        "resume_command",
        "resume-command",
        "pre_suspend_command",
        "pre-suspend-command",
        "monitor_media",
        "monitor-media",
        "ignore_remote_media",
        "ignore-remote-media",
        "respect_wayland_inhibitors",
        "respect-wayland-inhibitors",
        "inhibit_apps",
        "inhibit-apps",
        "debounce_seconds",
        "debounce-seconds",
    ] {
        assert!(is_special_key(key), "{}", key);
    }
    assert!(!is_special_key("lock_screen"));
    assert!(!is_special_key("debounce_second"));
    assert!(!is_special_key("Debounce_seconds"));
    assert!(!is_special_key(""));
}

#[test]
fn keys_name_kinds() {
    assert_eq!(action_kind("lock_screen"), IdleAction::LockScreen);
    assert_eq!(action_kind("lock-screen"), IdleAction::LockScreen);
    assert_eq!(action_kind("suspend"), IdleAction::Suspend);
    assert_eq!(action_kind("dpms"), IdleAction::Dpms);
    assert_eq!(action_kind("brightness"), IdleAction::Brightness);
    assert_eq!(action_kind("lockscreen"), IdleAction::Custom);
    assert_eq!(action_kind("anything"), IdleAction::Custom);
}

#[test]
fn app_patterns() {
    assert_eq!(
        parse_app_pattern("firefox"),
        Ok(AppInhibitPattern::Literal("firefox".to_string()))
    );
    assert_eq!(
        parse_app_pattern("steam.*"),
        Ok(AppInhibitPattern::Regex("steam.*".to_string()))
    );
    assert_eq!(parse_app_pattern("broken["), Err(ConfigError::InvalidRegex));
    assert_eq!(parse_app_pattern(""), Ok(AppInhibitPattern::Literal("".to_string())));
    assert!(looks_like_regex("a$"));
    assert!(looks_like_regex("\\"));
    assert!(!looks_like_regex("plain-name_1"));
    assert_eq!(pattern_from("a+", false), Err(ConfigError::InvalidRegex));
    assert_eq!(pattern_from("a", false), Ok(AppInhibitPattern::Literal("a".to_string())));
    assert_eq!(
        select_pattern(&RawPattern::Regex("plain".to_string()), true),
        Some(AppInhibitPattern::Regex("plain".to_string()))
    );
    assert_eq!(select_pattern(&RawPattern::Regex("plain".to_string()), false), None);
    assert_eq!(select_pattern(&RawPattern::Other, true), None);
}

#[test]
fn patterns_that_do_not_compile_are_left_out() {
    assert_eq!(
        collect_patterns(&raw().inhibit_apps),
        vec![
            AppInhibitPattern::Literal("firefox".to_string()),
            AppInhibitPattern::Regex("steam.*".to_string()),
            AppInhibitPattern::Regex("^mpv$".to_string()),
        ]
    );
}

#[test]
fn actions_are_collected_in_order() {
    let actions = collect_actions(&raw().desktop_actions);
    assert_eq!(actions.len(), 2);
    assert_eq!(actions[0].name, "lock_screen");
    assert_eq!(actions[0].kind, IdleAction::LockScreen);
    assert_eq!(actions[0].timeout, 60);
    assert_eq!(actions[0].command, "locker");
    assert_eq!(actions[0].last_triggered, None);
    assert_eq!(actions[1].name, "my-script");
    assert_eq!(actions[1].kind, IdleAction::Custom);
    assert_eq!(actions[1].timeout, 0);
}

#[test]
fn lid_actions_are_parsed() {
    assert_eq!(parse_lid_close_action("ignore"), LidCloseAction::Ignore);
    assert_eq!(parse_lid_close_action("lock_screen"), LidCloseAction::LockScreen);
    assert_eq!(parse_lid_close_action("lock-screen"), LidCloseAction::LockScreen);
    assert_eq!(parse_lid_close_action("suspend"), LidCloseAction::Suspend);
    assert_eq!(
        parse_lid_close_action("custom: notify-send bye "),
        LidCloseAction::Custom("notify-send bye".to_string())
    );
    assert_eq!(
        parse_lid_close_action("custom:custom:x"),
        LidCloseAction::Custom("x".to_string())
    );
    assert_eq!(parse_lid_close_action("wake"), LidCloseAction::Ignore);
    assert_eq!(parse_lid_open_action("wake"), LidOpenAction::Wake);
    assert_eq!(parse_lid_open_action("ignore"), LidOpenAction::Ignore);
    assert_eq!(parse_lid_open_action("suspend"), LidOpenAction::Ignore);
    assert_eq!(parse_lid_open_action("custom:"), LidOpenAction::Custom("".to_string()));
    assert_eq!(custom_command_of("custom:  a b  "), "a b");
    assert_eq!(custom_command_of("custo"), "custo");
}

#[test]
fn desktop_configuration_is_loaded() {
    let cfg = load_config(&raw()).unwrap();
    assert_eq!(cfg.actions.len(), 2);
    assert_eq!(cfg.actions[0].name, "lock_screen");
    assert_eq!(cfg.pre_suspend_command, Some("lock-now".to_string()));
    assert!(cfg.monitor_media);
    assert!(!cfg.ignore_remote_media);
    assert!(cfg.respect_wayland_inhibitors);
    assert_eq!(cfg.debounce_seconds, 3);
    assert_eq!(cfg.lid_close_action, LidCloseAction::LockScreen);
    assert_eq!(cfg.lid_open_action, LidOpenAction::Ignore);
    assert_eq!(cfg.inhibit_apps.len(), 3);
}

#[test]
fn laptop_configuration_takes_both_profiles() {
    let mut source = raw();
    source.laptop = true;
    source.debounce_seconds = Some(9);
    let cfg = load_config(&source).unwrap();
    assert_eq!(cfg.actions.len(), 2);
    assert_eq!(cfg.actions[0].name, "dpms");
    assert_eq!(cfg.actions[1].name, "suspend");
    assert_eq!(cfg.debounce_seconds, 9);
}

#[test]
fn configuration_faults() {
    let mut source = raw();
    source.desktop_actions.clear();
    assert_eq!(load_config(&source), Err(ConfigError::NoActions));
    source.respect_wayland_inhibitors = RawFlag::Invalid;
    assert_eq!(load_config(&source), Err(ConfigError::InvalidRespectInhibitors));
    source.ignore_remote_media = RawFlag::Invalid;
    assert_eq!(load_config(&source), Err(ConfigError::InvalidIgnoreRemoteMedia));
    source.monitor_media = RawFlag::Invalid;
    assert_eq!(load_config(&source), Err(ConfigError::InvalidMonitorMedia));
    assert_eq!(ConfigError::NoActions.message(), "no valid idle actions found in config");
    assert_eq!(ConfigError::InvalidRegex.message(), "invalid regex in inhibit_apps");
    assert_eq!(
        ConfigError::InvalidMonitorMedia.message(),
        "invalid value for 'stasis.monitor_media'"
    );
    assert_eq!(RawFlag::Missing.resolve(), Some(true));
    assert_eq!(RawFlag::Value(false).resolve(), Some(false));
    assert_eq!(RawFlag::Invalid.resolve(), None);
}
