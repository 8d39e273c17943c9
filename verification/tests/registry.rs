use mprizzle::PlayerIdentity;
use mprizzle::Registry;

fn id(bus: &str) -> PlayerIdentity {
    PlayerIdentity::new(bus.to_string()).unwrap()
}

#[test]
fn empty_registry_has_no_entries() {
    let r: Registry<u32> = Registry::new();
    assert_eq!(r.len(), 0);
    assert!(r.get(&id("org.mpris.MediaPlayer2.spotify")).is_none());
}

#[test]
fn insert_then_get_returns_the_handle() {
    let mut r: Registry<u32> = Registry::new();
    r.insert(id("org.mpris.MediaPlayer2.spotify"), 7);
    assert_eq!(r.len(), 1);
    assert_eq!(r.get(&id("org.mpris.MediaPlayer2.spotify")), Some(&7));
    assert!(r.get(&id("org.mpris.MediaPlayer2.vlc")).is_none());
}

#[test]
fn insert_replaces_the_entry_for_the_same_bus() {
    let mut r: Registry<u32> = Registry::new();
    r.insert(id("org.mpris.MediaPlayer2.spotify"), 7);
    r.insert(id("org.mpris.MediaPlayer2.spotify"), 9);
    assert_eq!(r.len(), 1);
    assert_eq!(r.get(&id("org.mpris.MediaPlayer2.spotify")), Some(&9));
}

#[test]
fn remove_returns_the_handle_and_clears_the_entry() {
    let mut r: Registry<u32> = Registry::new();
    r.insert(id("org.mpris.MediaPlayer2.spotify"), 7);
    r.insert(id("org.mpris.MediaPlayer2.vlc"), 8);
    assert_eq!(r.remove(&id("org.mpris.MediaPlayer2.spotify")), Some(7));
    assert!(r.get(&id("org.mpris.MediaPlayer2.spotify")).is_none());
    assert_eq!(r.get(&id("org.mpris.MediaPlayer2.vlc")), Some(&8));
    assert_eq!(r.remove(&id("org.mpris.MediaPlayer2.spotify")), None);
}

#[test]
fn remove_entry_hands_back_the_canonical_identity() {
    let mut r: Registry<u32> = Registry::new();
    r.insert(id("org.mpris.MediaPlayer2.vlc"), 8);
    let (identity, handle) = r.remove_entry("org.mpris.MediaPlayer2.vlc").unwrap();
    assert_eq!(identity.short(), "vlc");
    assert_eq!(handle, 8);
    assert_eq!(r.len(), 0);
}

#[test]
fn entries_walk_in_insertion_order() {
    let mut r: Registry<u32> = Registry::new();
    r.insert(id("org.mpris.MediaPlayer2.spotify"), 1);
    r.insert(id("org.mpris.MediaPlayer2.vlc"), 2);
    let shorts: Vec<&str> = r.entries().iter().map(|(i, _)| i.short()).collect();
    assert_eq!(shorts, vec!["spotify", "vlc"]);
}
