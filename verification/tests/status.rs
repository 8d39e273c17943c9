use mprizzle::LoopStatus;
use mprizzle::MprisError;
use mprizzle::PlaybackStatus;

#[test]
fn playback_status_decodes_canonical_words() {
    assert_eq!(PlaybackStatus::from_str("Playing").unwrap(), PlaybackStatus::Playing);
    assert_eq!(PlaybackStatus::from_str("Paused").unwrap(), PlaybackStatus::Paused);
    assert_eq!(PlaybackStatus::from_str("Stopped").unwrap(), PlaybackStatus::Stopped);
}

#[test]
fn playback_status_ignores_case() {
    // Decoding folds the reported string, so a shouted or lowercase form
    // decodes the same; this fails if the case folding hands its input back.
    assert_eq!(PlaybackStatus::from_str("PLAYING").unwrap(), PlaybackStatus::Playing);
    assert_eq!(PlaybackStatus::from_str("playing").unwrap(), PlaybackStatus::Playing);
    assert_eq!(PlaybackStatus::from_str("pAuSeD").unwrap(), PlaybackStatus::Paused);
}

#[test]
fn playback_status_rejects_other_words() {
    let r = PlaybackStatus::from_str("Buffering");
    match r {
        Err(MprisError::Other(m)) => {
            assert_eq!(m, "PlaybackStatus is not Playing, Paused or Stopped");
        }
        other => panic!("expected the decode error, got {:?}", other),
    }
    assert!(PlaybackStatus::from_str("").is_err());
}

#[test]
fn playback_status_words_round_trip() {
    for status in [PlaybackStatus::Playing, PlaybackStatus::Paused, PlaybackStatus::Stopped] {
        let word = status.as_ref();
        assert_eq!(PlaybackStatus::from_str(word).unwrap(), status);
    }
}

#[test]
fn loop_status_decodes_canonical_words() {
    assert_eq!(LoopStatus::from_str("None").unwrap(), LoopStatus::Inactive);
    assert_eq!(LoopStatus::from_str("Track").unwrap(), LoopStatus::Track);
    assert_eq!(LoopStatus::from_str("Playlist").unwrap(), LoopStatus::Playlist);
    assert_eq!(LoopStatus::from_str("TRACK").unwrap(), LoopStatus::Track);
}

#[test]
fn loop_status_rejects_other_words() {
    let r = LoopStatus::from_str("Repeat");
    match r {
        Err(MprisError::Other(m)) => {
            assert_eq!(m, "LoopStatus is not None, Track or Playlist.");
        }
        other => panic!("expected the decode error, got {:?}", other),
    }
}

#[test]
fn loop_status_words_round_trip() {
    for status in [LoopStatus::Inactive, LoopStatus::Track, LoopStatus::Playlist] {
        let word = status.as_ref();
        assert_eq!(LoopStatus::from_str(word).unwrap(), status);
    }
}
