use mprizzle::MprisError;
use mprizzle::PlayerIdentity;

#[test]
fn parse_valid_name_extracts_short() {
    let id = PlayerIdentity::new("org.mpris.MediaPlayer2.spotify".to_string()).unwrap();
    assert_eq!(id.short(), "spotify");
    assert_eq!(id.bus(), "org.mpris.MediaPlayer2.spotify");
}

#[test]
fn parse_keeps_instance_suffix_in_short() {
    let id = PlayerIdentity::new("org.mpris.MediaPlayer2.vlc.instance7".to_string()).unwrap();
    assert_eq!(id.short(), "vlc");
    assert_eq!(id.bus(), "org.mpris.MediaPlayer2.vlc.instance7");
}

#[test]
fn parse_round_trips_the_bus_name() {
    let original = "org.mpris.MediaPlayer2.firefox.instance_1_23";
    let id = PlayerIdentity::new(original.to_string()).unwrap();
    assert_eq!(id.bus(), original);
}

#[test]
fn parse_rejects_three_segments() {
    let r = PlayerIdentity::new("org.mpris.MediaPlayer2".to_string());
    assert!(matches!(r, Err(MprisError::InvalidBusName)));
}

#[test]
fn parse_rejects_foreign_namespace() {
    let r = PlayerIdentity::new("com.example.player.foo".to_string());
    assert!(matches!(r, Err(MprisError::InvalidBusName)));
}

#[test]
fn parse_rejects_empty_string() {
    let r = PlayerIdentity::new(String::new());
    assert!(matches!(r, Err(MprisError::InvalidBusName)));
}

#[test]
fn parse_accepts_empty_fourth_segment() {
    let id = PlayerIdentity::new("org.mpris.MediaPlayer2.".to_string()).unwrap();
    assert_eq!(id.short(), "");
}

#[test]
fn matches_short_is_exact() {
    let id = PlayerIdentity::new("org.mpris.MediaPlayer2.spotify".to_string()).unwrap();
    assert!(id.matches_short("spotify"));
    assert!(!id.matches_short("spot"));
    assert!(!id.matches_short("org.mpris.MediaPlayer2.spotify"));
}

#[test]
fn matches_bus_prefix_accepts_namespaced_prefix() {
    let id = PlayerIdentity::new("org.mpris.MediaPlayer2.spotify".to_string()).unwrap();
    assert!(id.matches_bus_prefix("org.mpris.MediaPlayer2.spot"));
    assert!(id.matches_bus_prefix("org.mpris.MediaPlayer2.spotify"));
}

#[test]
fn matches_bus_prefix_rejects_short_candidate_even_when_textual_prefix() {
    let id = PlayerIdentity::new("org.mpris.MediaPlayer2.spotify".to_string()).unwrap();
    // The bus name starts with "org.mpris" textually, but the candidate is
    // not itself namespace-prefixed, so it must not match.
    assert!(!id.matches_bus_prefix("org.mpris"));
    assert!(!id.matches_bus_prefix(""));
    assert!(!id.matches_bus_prefix("org"));
}

#[test]
fn matches_bus_prefix_rejects_non_prefix() {
    let id = PlayerIdentity::new("org.mpris.MediaPlayer2.spotify".to_string()).unwrap();
    assert!(!id.matches_bus_prefix("org.mpris.MediaPlayer2.vlc"));
}

#[test]
fn matches_either_takes_short_or_prefix() {
    let id = PlayerIdentity::new("org.mpris.MediaPlayer2.spotify".to_string()).unwrap();
    assert!(id.matches_either("spotify"));
    assert!(id.matches_either("org.mpris.MediaPlayer2.spotify"));
    assert!(!id.matches_either("vlc"));
    assert!(!id.matches_either("org.mpris"));
}

#[test]
fn matches_both_needs_short_and_prefix() {
    let id = PlayerIdentity::new("org.mpris.MediaPlayer2.spotify".to_string()).unwrap();
    assert!(!id.matches_both("spotify"));
    assert!(!id.matches_both("org.mpris.MediaPlayer2.spot"));
    let odd = PlayerIdentity::new(
        "org.mpris.MediaPlayer2.org.mpris.MediaPlayer2.x".to_string(),
    )
    .unwrap();
    assert_eq!(odd.short(), "org");
    assert!(!odd.matches_both("org"));
}

#[test]
fn identity_equality_is_structural() {
    let a = PlayerIdentity::new("org.mpris.MediaPlayer2.spotify".to_string()).unwrap();
    let b = PlayerIdentity::new("org.mpris.MediaPlayer2.spotify".to_string()).unwrap();
    let c = PlayerIdentity::new("org.mpris.MediaPlayer2.vlc".to_string()).unwrap();
    assert_eq!(a, b);
    assert!(a != c);
    let cloned = a.clone();
    assert_eq!(a, cloned);
}
