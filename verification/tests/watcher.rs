use mprizzle::EndpointWatcher;
use mprizzle::MprisError;
use mprizzle::MprisEvent;
use mprizzle::PlayerIdentity;
use mprizzle::TickAction;

const SPOTIFY: &str = "org.mpris.MediaPlayer2.spotify";
const VLC: &str = "org.mpris.MediaPlayer2.vlc";

fn watcher(bus: &str) -> EndpointWatcher {
    EndpointWatcher::new(PlayerIdentity::new(bus.to_string()).unwrap())
}

#[test]
fn signals_emit_events_with_the_identity() {
    let w = watcher(SPOTIFY);
    let identity = w.identity().clone();
    assert_eq!(
        w.on_properties_changed(),
        Some(MprisEvent::PlayerPropertiesChanged(identity.clone()))
    );
    assert_eq!(w.on_seeked(), Some(MprisEvent::PlayerSeeked(identity)));
}

#[test]
fn not_playing_ticks_emit_no_position() {
    let mut w = watcher(SPOTIFY);
    assert_eq!(w.on_tick_status("Paused"), TickAction::Idle);
    assert_eq!(w.on_tick_status("Stopped"), TickAction::Idle);
    assert!(w.is_active());
}

#[test]
fn playing_tick_asks_for_and_emits_exactly_one_position() {
    let mut w = watcher(SPOTIFY);
    assert_eq!(w.on_tick_status("Paused"), TickAction::Idle);
    // The instant the decoded status is "playing", the next tick queries
    // the position once and emits it.
    assert_eq!(w.on_tick_status("Playing"), TickAction::QueryPosition);
    let identity = w.identity().clone();
    assert_eq!(
        w.on_tick_position(90_000_000),
        Some(MprisEvent::PlayerPosition(identity, 90_000_000))
    );
}

#[test]
fn negative_position_wraps_like_a_cast() {
    let w = watcher(SPOTIFY);
    let identity = w.identity().clone();
    assert_eq!(
        w.on_tick_position(-1),
        Some(MprisEvent::PlayerPosition(identity, u64::MAX))
    );
}

#[test]
fn undecodable_status_stops_the_watcher_with_the_decode_error() {
    let mut w = watcher(SPOTIFY);
    match w.on_tick_status("Buffering") {
        TickAction::Fail(MprisError::Other(m)) => {
            assert_eq!(m, "PlaybackStatus is not Playing, Paused or Stopped");
        }
        other => panic!("expected the decode failure, got {:?}", other),
    }
    assert!(!w.is_active());
    assert_eq!(w.on_tick_status("Playing"), TickAction::Idle);
}

#[test]
fn token_stops_only_the_matching_watcher() {
    let mut spotify = watcher(SPOTIFY);
    let mut vlc = watcher(VLC);
    // The detach broadcast reaches every watcher; only the one whose bus
    // name the token prefix-matches stops.
    spotify.on_close_token(SPOTIFY);
    vlc.on_close_token(SPOTIFY);
    assert!(!spotify.is_active());
    assert!(vlc.is_active());
}

#[test]
fn token_without_namespace_stops_nothing() {
    let mut w = watcher(SPOTIFY);
    w.on_close_token("org.mpris");
    assert!(w.is_active());
}

#[test]
fn closed_channel_silences_the_watcher() {
    let mut w = watcher(SPOTIFY);
    w.on_channel_closed();
    assert!(!w.is_active());
    assert_eq!(w.on_properties_changed(), None);
    assert_eq!(w.on_seeked(), None);
    assert_eq!(w.on_tick_status("Playing"), TickAction::Idle);
    assert_eq!(w.on_tick_position(5), None);
}
