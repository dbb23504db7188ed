use stasis::config::info::{bool_str, push_setting};
use stasis::config::model::{
    AppInhibitPattern, IdleAction, IdleActionBlock, LidCloseAction, LidOpenAction, StasisConfig,
};
use stasis::engine::utils::{format_duration, is_laptop};

fn sample() -> StasisConfig {
    StasisConfig {
        actions: vec![
            IdleActionBlock {
                name: "brightness".to_string(),
                timeout: 30,
                command: "dim".to_string(),
                kind: IdleAction::Brightness,
                resume_command: Some("undim".to_string()),
                last_triggered: None,
            },
            IdleActionBlock {
                name: "ac.dpms".to_string(),
                timeout: 120,
                command: "off".to_string(),
                kind: IdleAction::Dpms,
                resume_command: None,
                last_triggered: None,
            },
            IdleActionBlock {
                name: "lock_screen".to_string(),
                timeout: 60,
                command: "locker".to_string(),
                kind: IdleAction::LockScreen,
                resume_command: None,
                last_triggered: None,
            },
            IdleActionBlock {
                name: "battery.a-very-long-name-of-an-action".to_string(),
                timeout: 0,
                command: "x".to_string(),
                kind: IdleAction::Custom,
                resume_command: None,
                last_triggered: None,
            },
            IdleActionBlock {
                name: "ac.suspend".to_string(),
                timeout: 600,
                command: "sleep".to_string(),
                kind: IdleAction::Suspend,
                resume_command: None,
                last_triggered: None,
            },
        ],
        pre_suspend_command: None,
        monitor_media: true,
        ignore_remote_media: false,
        respect_wayland_inhibitors: true,
        inhibit_apps: vec![
            AppInhibitPattern::Literal("firefox".to_string()),
            AppInhibitPattern::Regex("^steam.*".to_string()),
        ],
        debounce_seconds: 3,
        lid_close_action: LidCloseAction::LockScreen,
        lid_open_action: LidOpenAction::Custom("notify-send hi".to_string()),
    }
}

#[test]
fn pretty_print_full_report() {
    let expected = "General:\n\
\x20 PreSuspendCommand  = -\n\
\x20 MonitorMedia       = true\n\
\x20 IgnoreRemoteMedia  = false\n\
\x20 RespectInhibitors  = true\n\
\x20 DebounceSeconds    = 3\n\
\x20 LidCloseAction     = lock_screen\n\
\x20 LidOpenAction      = custom:notify-send hi\n\
\x20 InhibitApps        = firefox,^steam.*\n\
\x20 IdleTime           = 1m 15s\n\
\x20 Uptime             = 2h 5m\n\
\x20 IdleInhibited      = false\n\
\n\
Actions:\n\
\x20 [Desktop]\n\
\x20   brightness           Timeout=30 Kind=brightness Command=\"dim\" ResumeCommand=\"undim\"\n\
\x20 [AC]\n\
\x20   ac.dpms              Timeout=120 Kind=dpms Command=\"off\"\n\
\x20   lock_screen          Timeout=60 Kind=lock_screen Command=\"locker\"\n\
\x20 [Battery]\n\
\x20   battery.a-very-long-name-of-an-action Timeout=0 Kind=custom Command=\"x\"\n\
\x20   ac.suspend           Timeout=600 Kind=suspend Command=\"sleep\"\n";
    assert_eq!(sample().pretty_print(Some(75), Some(7_500), Some(false)), expected);
}

#[test]
fn pretty_print_without_state() {
    let mut cfg = sample();
    cfg.actions.clear();
    cfg.inhibit_apps.clear();
    cfg.pre_suspend_command = Some("lock-now".to_string());
    cfg.lid_close_action = LidCloseAction::Custom("beep".to_string());
    cfg.lid_open_action = LidOpenAction::Wake;
    cfg.debounce_seconds = 255;
    let expected = "General:\n\
\x20 PreSuspendCommand  = lock-now\n\
\x20 MonitorMedia       = true\n\
\x20 IgnoreRemoteMedia  = false\n\
\x20 RespectInhibitors  = true\n\
\x20 DebounceSeconds    = 255\n\
\x20 LidCloseAction     = custom:beep\n\
\x20 LidOpenAction      = wake\n\
\x20 InhibitApps        = -\n\
\n\
Actions:\n";
    assert_eq!(cfg.pretty_print(None, None, None), expected);
    assert_eq!(cfg.general_text() + "\nActions:\n", expected);
}

#[test]
fn lid_actions_in_words() {
    assert_eq!(LidCloseAction::Ignore.to_text(), "ignore");
    assert_eq!(LidCloseAction::Suspend.to_text(), "suspend");
    assert_eq!(LidOpenAction::Ignore.to_text(), "ignore");
    assert_eq!(IdleAction::LockScreen.as_str(), "lock_screen");
    assert_eq!(IdleAction::Custom.as_str(), "custom");
    assert_eq!(bool_str(true), "true");
    let mut out = String::from("x");
    push_setting(&mut out, "a = ", "b");
    assert_eq!(out, "xa = b\n");
}

#[test]
fn format_duration_seconds() {
    assert_eq!(format_duration(0), "0s");
    assert_eq!(format_duration(9), "9s");
    assert_eq!(format_duration(59), "59s");
}

#[test]
fn format_duration_minutes() {
    assert_eq!(format_duration(60), "1m 0s");
    assert_eq!(format_duration(75), "1m 15s");
    assert_eq!(format_duration(3_599), "59m 59s");
}

#[test]
fn format_duration_hours() {
    assert_eq!(format_duration(3_600), "1h 0m");
    assert_eq!(format_duration(7_500), "2h 5m");
    assert_eq!(format_duration(86_399), "23h 59m");
    assert_eq!(format_duration(u64::MAX), "5124095576030431h 0m");
}

#[test]
fn laptop_chassis_types() {
    assert!(is_laptop(Some("8")));
    assert!(is_laptop(Some("9\n")));
    assert!(is_laptop(Some(" 10 \n")));
    assert!(!is_laptop(Some("3\n")));
    assert!(!is_laptop(Some("100")));
    assert!(!is_laptop(Some("")));
    assert!(!is_laptop(None));
}
