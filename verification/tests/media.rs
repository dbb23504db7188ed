use stasis::config::model::{
    IdleAction, IdleActionBlock, LidCloseAction, LidOpenAction, StasisConfig,
};
use stasis::engine::manager::effects::Effect;
use stasis::engine::manager::Manager;
use stasis::engine::services::media::{
    check_media_playing, is_remote_player, media_monitor_step, note_listing, poll_interval,
    PlayerSnapshot,
};
use std::sync::Arc;

fn player(identity: &str, bus_name: &str, playing: bool) -> PlayerSnapshot {
    PlayerSnapshot { identity: identity.to_string(), bus_name: bus_name.to_string(), playing }
}

fn media_manager() -> Manager {
    let cfg = StasisConfig {
        actions: vec![IdleActionBlock {
            name: "dpms".to_string(),
            timeout: 10,
            command: "off".to_string(),
            kind: IdleAction::Dpms,
            resume_command: None,
            last_triggered: None,
        }],
        pre_suspend_command: None,
        monitor_media: true,
        ignore_remote_media: true,
        respect_wayland_inhibitors: true,
        inhibit_apps: vec![],
        debounce_seconds: 3,
        lid_close_action: LidCloseAction::Ignore,
        lid_open_action: LidOpenAction::Ignore,
    };
    Manager::new(Arc::new(cfg), 0)
}

#[test]
fn remote_players_are_recognised() {
    assert!(is_remote_player("KDE Connect", "org.mpris.MediaPlayer2.x"));
    assert!(is_remote_player("Phone", "org.mpris.MediaPlayer2.kdeconnect.mpris_1"));
    assert!(is_remote_player("Living room Chromecast", "x"));
    assert!(is_remote_player("x", "org.mpris.MediaPlayer2.spotifyd"));
    assert!(is_remote_player("my bluez device", ""));
    assert!(is_remote_player("", "vlc-http"));
    assert!(is_remote_player("plexamp", ""));
    assert!(is_remote_player("Spotify Connect", ""));
    assert!(is_remote_player("chromecast", ""));
    assert!(!is_remote_player("Firefox", "org.mpris.MediaPlayer2.firefox"));
    assert!(!is_remote_player("kde connect", "Bluez"));
    assert!(!is_remote_player("", ""));
}

#[test]
fn media_playing_needs_a_local_player() {
    let players = vec![
        player("mpv", "org.mpris.MediaPlayer2.mpv", false),
        player("KDE Connect", "org.mpris.MediaPlayer2.kdeconnect", true),
    ];
    assert!(!check_media_playing(Some(&players), true));
    assert!(check_media_playing(Some(&players), false));
    let local = vec![
        player("KDE Connect", "kdeconnect", true),
        player("Firefox", "org.mpris.MediaPlayer2.firefox", true),
    ];
    assert!(check_media_playing(Some(&local), true));
    assert!(!check_media_playing(Some(&vec![]), false));
    assert!(!check_media_playing(None, false));
}

#[test]
fn media_monitor_pauses_and_resumes() {
    let mut mgr = media_manager();
    let step = media_monitor_step(&mut mgr, false, true);
    assert!(step.media_playing);
    assert_eq!(step.effects, vec![Effect::WakeIdleAll]);
    assert!(mgr.state.paused);
    let step = media_monitor_step(&mut mgr, true, true);
    assert!(step.media_playing);
    assert_eq!(step.effects, vec![]);
    let step = media_monitor_step(&mut mgr, true, false);
    assert!(!step.media_playing);
    assert_eq!(step.effects, vec![Effect::WakeIdleAll]);
    assert!(!mgr.state.paused);
    let step = media_monitor_step(&mut mgr, false, false);
    assert!(!step.media_playing);
    assert_eq!(step.effects, vec![]);
}

#[test]
fn media_monitor_yields_to_manual_pause() {
    let mut mgr = media_manager();
    mgr.pause(true);
    let step = media_monitor_step(&mut mgr, false, true);
    assert!(step.media_playing);
    assert_eq!(step.effects, vec![]);
    assert!(!mgr.state.paused);
    assert!(mgr.state.manually_paused);
}

#[test]
fn polling_intervals() {
    assert_eq!(poll_interval(true), 5_000);
    assert_eq!(poll_interval(false), 30_000);
}

#[test]
fn listing_failures_are_reported_once() {
    let mut last: Option<String> = None;
    assert!(note_listing(&mut last, Some("no bus".to_string())));
    assert_eq!(last, Some("no bus".to_string()));
    assert!(!note_listing(&mut last, Some("no bus".to_string())));
    assert!(note_listing(&mut last, Some("other".to_string())));
    assert!(!note_listing(&mut last, None));
    assert_eq!(last, None);
    assert!(note_listing(&mut last, Some("other".to_string())));
}
