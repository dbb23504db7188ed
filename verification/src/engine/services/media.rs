use crate::config::model::opt_string_view;
use crate::engine::manager::effects::{effects_view, Effect};
use crate::engine::manager::state::StateModel;
use crate::engine::manager::{wake_if_changed, Manager};
use crate::text::{contains, occurs_in, same_text};
use vstd::prelude::*;

verus! {

/// How long the polling monitor waits between two looks while media is
/// playing, in milliseconds.
pub const POLL_WHILE_PLAYING_MS: u64 = 5_000;

/// How long the polling monitor waits between two looks while nothing is
/// playing, in milliseconds.
pub const POLL_WHILE_SILENT_MS: u64 = 30_000;

/// What is known of one media player.
#[derive(Debug, PartialEq, Eq)]
pub struct PlayerSnapshot {
    pub identity: String,
    pub bus_name: String,
    /// Whether the player reports that it is playing; a player whose
    /// status cannot be read counts as not playing.
    pub playing: bool,
}

/// Mathematical value of a [`PlayerSnapshot`].
pub struct PlayerModel {
    pub identity: Seq<char>,
    pub bus_name: Seq<char>,
    pub playing: bool,
}

impl View for PlayerSnapshot {
    type V = PlayerModel;

    open spec fn view(&self) -> PlayerModel {
        PlayerModel { identity: self.identity@, bus_name: self.bus_name@, playing: self.playing }
    }
}

/// The values of a list of players, in order.
pub open spec fn players_view(v: Seq<PlayerSnapshot>) -> Seq<PlayerModel> {
    v.map_values(|p: PlayerSnapshot| p@)
}

/// Whether `name` occurs in the identity or in the bus name.
pub open spec fn mentions(identity: Seq<char>, bus_name: Seq<char>, name: Seq<char>) -> bool {
    occurs_in(identity, name) || occurs_in(bus_name, name)
}

/// Whether a player plays somewhere else than on this machine: its
/// identity or its bus name holds the name of a remote player.
pub open spec fn is_remote(identity: Seq<char>, bus_name: Seq<char>) -> bool {
    ||| mentions(identity, bus_name, "KDE Connect"@)
    ||| mentions(identity, bus_name, "kdeconnect"@)
    ||| mentions(identity, bus_name, "Chromecast"@)
    ||| mentions(identity, bus_name, "chromecast"@)
    ||| mentions(identity, bus_name, "Spotify Connect"@)
    ||| mentions(identity, bus_name, "spotifyd"@)
    ||| mentions(identity, bus_name, "vlc-http"@)
    ||| mentions(identity, bus_name, "plexamp"@)
    ||| mentions(identity, bus_name, "bluez"@)
}

/// Whether `name` occurs in the identity or in the bus name.
pub fn names(identity: &str, bus_name: &str, name: &str) -> (b: bool)
    ensures
        b == mentions(identity@, bus_name@, name@),
{
    contains(identity, name) || contains(bus_name, name)
}

/// Whether a player plays somewhere else than on this machine.
pub fn is_remote_player(identity: &str, bus_name: &str) -> (b: bool)
    ensures
        b == is_remote(identity@, bus_name@),
{
    names(identity, bus_name, "KDE Connect") || names(identity, bus_name, "kdeconnect") || names(
        identity,
        bus_name,
        "Chromecast",
    ) || names(identity, bus_name, "chromecast") || names(identity, bus_name, "Spotify Connect")
        || names(identity, bus_name, "spotifyd") || names(identity, bus_name, "vlc-http") || names(
        identity,
        bus_name,
        "plexamp",
    ) || names(identity, bus_name, "bluez")
}

impl PlayerModel {
    /// Whether the player keeps the machine from idling: it plays, and it
    /// is not a remote player that is to be ignored.
    pub open spec fn counts(self, ignore_remote_media: bool) -> bool {
        self.playing && !(ignore_remote_media && is_remote(self.identity, self.bus_name))
    }
}

/// Whether one of the players keeps the machine from idling.
pub open spec fn any_counts(players: Seq<PlayerModel>, ignore_remote_media: bool) -> bool {
    exists|i: int| 0 <= i < players.len() && (#[trigger] players[i]).counts(ignore_remote_media)
}

/// Whether media is playing, given the players if they could be listed.
pub fn check_media_playing(players: Option<&Vec<PlayerSnapshot>>, ignore_remote_media: bool) -> (playing:
    bool)
    ensures
        playing == match players {
            Some(list) => any_counts(players_view(list@), ignore_remote_media),
            None => false,
        },
{
    match players {
        Some(list) => {
            let mut i: usize = 0;
            while i < list.len()
                invariant
                    i <= list.len(),
                    players == Some(list),
                    forall|j: int|
                        0 <= j < i ==> !(#[trigger] players_view(list@)[j]).counts(
                            ignore_remote_media,
                        ),
                decreases list.len() - i,
            {
                let player = &list[i];
                assert(players_view(list@)[i as int] == player@);
                if player.playing && !(ignore_remote_media && is_remote_player(
                    player.identity.as_str(),
                    player.bus_name.as_str(),
                )) {
                    assert(players_view(list@)[i as int].counts(ignore_remote_media));
                    return true;
                }
                i = i + 1;
            }
            false
        },
        None => false,
    }
}

/// One turn of a media monitor.
#[derive(Debug, PartialEq, Eq)]
pub struct MediaStep {
    /// Whether media counts as playing from now on.
    pub media_playing: bool,
    pub effects: Vec<Effect>,
}

impl StateModel {
    /// The state after a media monitor took in whether media plays: the
    /// timers are paused when media starts to play and resumed when it
    /// stops, both as automatic signals.
    pub open spec fn media_turn(self, media_playing: bool, any_playing: bool) -> StateModel {
        if any_playing && !media_playing {
            self.pause(false)
        } else if !any_playing && media_playing {
            self.resume(false)
        } else {
            self
        }
    }
}

/// One turn of a media monitor: takes in whether media plays now, given
/// whether it played at the last look.
pub fn media_monitor_step(mgr: &mut Manager, media_playing: bool, any_playing: bool) -> (step:
    MediaStep)
    ensures
        final(mgr)@ == old(mgr)@.media_turn(media_playing, any_playing),
        step.media_playing == any_playing,
        effects_view(step.effects@) == wake_if_changed(old(mgr)@, final(mgr)@),
{
    if any_playing && !media_playing {
        let effects = mgr.pause(false);
        MediaStep { media_playing: true, effects }
    } else if !any_playing && media_playing {
        let effects = mgr.resume(false);
        MediaStep { media_playing: false, effects }
    } else {
        let effects: Vec<Effect> = Vec::new();
        assert(effects_view(effects@) =~= wake_if_changed(old(mgr)@, mgr@));
        MediaStep { media_playing, effects }
    }
}

/// How long the polling monitor waits before its next look, in
/// milliseconds.
pub fn poll_interval(media_playing: bool) -> (millis: u64)
    ensures
        millis == if media_playing {
            POLL_WHILE_PLAYING_MS
        } else {
            POLL_WHILE_SILENT_MS
        },
{
    if media_playing {
        POLL_WHILE_PLAYING_MS
    } else {
        POLL_WHILE_SILENT_MS
    }
}

/// Takes in how listing the players went, and says whether the failure is
/// to be reported: a failure is reported once, and again only after
/// another failure or a success came in between.
pub fn note_listing(last_error: &mut Option<String>, failure: Option<String>) -> (report: bool)
    ensures
        opt_string_view(*final(last_error)) == opt_string_view(failure),
        report == (failure is Some && opt_string_view(*old(last_error)) != opt_string_view(failure)),
{
    let report = match (&failure, &*last_error) {
        (Some(message), Some(last)) => !same_text(message.as_str(), last.as_str()),
        (Some(_), None) => true,
        (None, _) => false,
    };
    *last_error = failure;
    report
}

} // verus!
