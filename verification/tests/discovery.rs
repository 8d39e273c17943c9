use mprizzle::DiscoveryAction;
use mprizzle::DiscoveryEngine;
use mprizzle::MprisError;
use mprizzle::MprisEvent;
use mprizzle::PlayerIdentity;

const SPOTIFY: &str = "org.mpris.MediaPlayer2.spotify";
const VLC: &str = "org.mpris.MediaPlayer2.vlc";

fn owner_changed(
    engine: &mut DiscoveryEngine<u32>,
    name: &str,
    old_owner: &str,
    new_owner: &str,
) -> DiscoveryAction {
    engine.on_owner_changed(&name.to_string(), &old_owner.to_string(), &new_owner.to_string())
}

#[test]
fn attach_then_detach_round_trip() {
    let mut engine: DiscoveryEngine<u32> = DiscoveryEngine::new(None);

    // The name gains an owner: the engine asks for the endpoint to be built.
    let action = owner_changed(&mut engine, SPOTIFY, "", ":1.42");
    let identity = match action {
        DiscoveryAction::BuildAttach(identity) => identity,
        other => panic!("expected a build request, got {:?}", other),
    };
    assert_eq!(identity.bus(), SPOTIFY);
    assert_eq!(identity.short(), "spotify");

    // The endpoint was built: exactly one attached event, and the registry
    // now holds the entry.
    let emitted = engine.attach_built(identity.clone(), 7).unwrap();
    assert_eq!(emitted, MprisEvent::PlayerAttached(identity.clone()));
    assert_eq!(engine.registry().get(&identity), Some(&7));

    // The name loses its owner: one detach with the canonical identity and
    // the token to broadcast, and the registry no longer holds the entry.
    let action = owner_changed(&mut engine, SPOTIFY, ":1.42", "");
    match action {
        DiscoveryAction::Detach { token, removed } => {
            assert_eq!(token, SPOTIFY);
            assert_eq!(removed, Some(identity.clone()));
        }
        other => panic!("expected a detach, got {:?}", other),
    }
    assert!(engine.registry().get(&identity).is_none());
    assert_eq!(engine.registry().len(), 0);
    assert!(engine.is_listening());
}

#[test]
fn names_outside_the_namespace_are_ignored() {
    let mut engine: DiscoveryEngine<u32> = DiscoveryEngine::new(None);
    let action = owner_changed(&mut engine, "com.example.service", "", ":1.5");
    assert_eq!(action, DiscoveryAction::Ignored);
    assert!(engine.is_listening());
}

#[test]
fn owner_handoff_is_ignored() {
    let mut engine: DiscoveryEngine<u32> = DiscoveryEngine::new(None);
    let action = owner_changed(&mut engine, SPOTIFY, ":1.4", ":1.5");
    assert_eq!(action, DiscoveryAction::Ignored);
    let action = owner_changed(&mut engine, SPOTIFY, "", "");
    assert_eq!(action, DiscoveryAction::Ignored);
}

#[test]
fn malformed_name_on_attach_is_fatal() {
    let mut engine: DiscoveryEngine<u32> = DiscoveryEngine::new(None);
    // Namespace-prefixed but with only three dot-separated segments.
    let action = owner_changed(&mut engine, "org.mpris.MediaPlayer2", "", ":1.5");
    assert_eq!(action, DiscoveryAction::Fatal(MprisError::InvalidBusName));
    assert!(!engine.is_listening());
}

#[test]
fn filter_rejection_attaches_nothing() {
    let mut engine: DiscoveryEngine<u32> =
        DiscoveryEngine::new(Some(vec!["vlc".to_string()]));
    let action = owner_changed(&mut engine, SPOTIFY, "", ":1.42");
    assert_eq!(action, DiscoveryAction::Ignored);
    assert_eq!(engine.registry().len(), 0);

    // The rejected player's departure still yields a token to broadcast —
    // a no-op for the watchers, since none was started — but no event.
    let action = owner_changed(&mut engine, SPOTIFY, ":1.42", "");
    match action {
        DiscoveryAction::Detach { token, removed } => {
            assert_eq!(token, SPOTIFY);
            assert_eq!(removed, None);
        }
        other => panic!("expected a detach, got {:?}", other),
    }
}

#[test]
fn filter_accepts_by_short_name_or_bus_prefix() {
    let mut engine: DiscoveryEngine<u32> =
        DiscoveryEngine::new(Some(vec!["vlc".to_string()]));
    let action = owner_changed(&mut engine, VLC, "", ":1.9");
    assert!(matches!(action, DiscoveryAction::BuildAttach(_)));

    let mut engine: DiscoveryEngine<u32> =
        DiscoveryEngine::new(Some(vec!["org.mpris.MediaPlayer2.spot".to_string()]));
    let action = owner_changed(&mut engine, SPOTIFY, "", ":1.9");
    assert!(matches!(action, DiscoveryAction::BuildAttach(_)));
}

#[test]
fn closed_channel_silences_the_loop() {
    let mut engine: DiscoveryEngine<u32> = DiscoveryEngine::new(None);
    engine.on_channel_closed();
    assert!(!engine.is_listening());
    let action = owner_changed(&mut engine, SPOTIFY, "", ":1.42");
    assert_eq!(action, DiscoveryAction::Ignored);
    let identity = PlayerIdentity::new(SPOTIFY.to_string()).unwrap();
    assert_eq!(engine.attach_built(identity, 7), None);
    assert_eq!(engine.registry().len(), 0);
}

#[test]
fn attach_failure_stops_the_loop() {
    let mut engine: DiscoveryEngine<u32> = DiscoveryEngine::new(None);
    let action = owner_changed(&mut engine, SPOTIFY, "", ":1.42");
    assert!(matches!(action, DiscoveryAction::BuildAttach(_)));
    engine.on_attach_failed();
    assert!(!engine.is_listening());
}

#[test]
fn bootstrap_picks_parseable_accepted_names_in_order() {
    let engine: DiscoveryEngine<u32> = DiscoveryEngine::new(None);
    let names = vec![
        ":1.3".to_string(),
        SPOTIFY.to_string(),
        "org.freedesktop.DBus".to_string(),
        VLC.to_string(),
        "org.mpris.MediaPlayer2".to_string(),
    ];
    let ids = engine.bootstrap_identities(&names);
    let shorts: Vec<&str> = ids.iter().map(|i| i.short()).collect();
    assert_eq!(shorts, vec!["spotify", "vlc"]);
}

#[test]
fn bootstrap_applies_the_filter() {
    let engine: DiscoveryEngine<u32> =
        DiscoveryEngine::new(Some(vec!["vlc".to_string()]));
    let names = vec![SPOTIFY.to_string(), VLC.to_string()];
    let ids = engine.bootstrap_identities(&names);
    let shorts: Vec<&str> = ids.iter().map(|i| i.short()).collect();
    assert_eq!(shorts, vec!["vlc"]);
}
