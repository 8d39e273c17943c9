//! Playback and loop status values and their textual forms.
//!
//! The bus reports both statuses as strings; decoding folds the case of the
//! reported string and compares it against the three legal words of each
//! status. The case folding itself is delegated to the standard library and
//! only named here, so the decision on the folded string is what carries the
//! exact contract.

use vstd::prelude::*;

use crate::errors::MprisError;
use crate::errors::MprisResult;
use crate::text::str_eq;

verus! {

broadcast use vstd::string::group_string_axioms;

/// The lowercase form of a character sequence, as `str::to_lowercase`
/// computes it.
pub uninterp spec fn lower_of(s: Seq<char>) -> Seq<char>;

/// Relies on str::to_lowercase: the lowercase form depends only on the
/// characters of the input.
#[verifier::external_body]
fn lowercase(s: &str) -> (r: String)
    ensures
        r@ == lower_of(s@),
{
    s.to_lowercase()
}

/// Playback status of a player.
#[derive(Debug, Clone, PartialEq, Eq, Structural)]
pub enum PlaybackStatus {
    Playing,
    Paused,
    Stopped,
}

/// Loop status of a player.
#[derive(Debug, Clone, PartialEq, Eq, Structural)]
pub enum LoopStatus {
    Inactive,
    Track,
    Playlist,
}

/// The playback status a reported string decodes to, or nothing when its
/// folded form is none of the three legal words.
pub open spec fn spec_playback_status_of(raw: Seq<char>) -> Option<PlaybackStatus> {
    if lower_of(raw) == "playing"@ {
        Some(PlaybackStatus::Playing)
    } else if lower_of(raw) == "paused"@ {
        Some(PlaybackStatus::Paused)
    } else if lower_of(raw) == "stopped"@ {
        Some(PlaybackStatus::Stopped)
    } else {
        None
    }
}

/// The loop status a reported string decodes to, or nothing when its folded
/// form is none of the three legal words.
pub open spec fn spec_loop_status_of(raw: Seq<char>) -> Option<LoopStatus> {
    if lower_of(raw) == "none"@ {
        Some(LoopStatus::Inactive)
    } else if lower_of(raw) == "track"@ {
        Some(LoopStatus::Track)
    } else if lower_of(raw) == "playlist"@ {
        Some(LoopStatus::Playlist)
    } else {
        None
    }
}

impl PlaybackStatus {
    /// Decides the playback status of an already case-folded string.
    pub fn of_folded(folded: &str) -> (r: Option<PlaybackStatus>)
        ensures
            folded@ == "playing"@ ==> r == Some(PlaybackStatus::Playing),
            folded@ == "paused"@ ==> r == Some(PlaybackStatus::Paused),
            folded@ == "stopped"@ ==> r == Some(PlaybackStatus::Stopped),
            folded@ != "playing"@ && folded@ != "paused"@ && folded@ != "stopped"@ ==> r is None,
    {
        proof {
            reveal_strlit("playing");
            reveal_strlit("paused");
            reveal_strlit("stopped");
            assert("playing"@.len() == 7);
            assert("paused"@.len() == 6);
            assert("stopped"@.len() == 7);
            assert("playing"@[0] == 'p' && "stopped"@[0] == 's');
        }
        if str_eq(folded, "playing") {
            Some(PlaybackStatus::Playing)
        } else if str_eq(folded, "paused") {
            Some(PlaybackStatus::Paused)
        } else if str_eq(folded, "stopped") {
            Some(PlaybackStatus::Stopped)
        } else {
            None
        }
    }

    /// Decodes a reported playback-status string, ignoring case.
    pub fn from_str(s: &str) -> (r: MprisResult<PlaybackStatus>)
        ensures
            match spec_playback_status_of(s@) {
                Some(status) => r == Ok::<PlaybackStatus, MprisError>(status),
                None => (r matches Err(MprisError::Other(m))
                    && m@ == "PlaybackStatus is not Playing, Paused or Stopped"@),
            },
    {
        let folded = lowercase(s);
        match Self::of_folded(folded.as_str()) {
            Some(status) => Ok(status),
            None => Err(
                MprisError::Other("PlaybackStatus is not Playing, Paused or Stopped".to_owned()),
            ),
        }
    }

    /// The canonical word for this status.
    pub open spec fn spec_str(&self) -> Seq<char> {
        match self {
            PlaybackStatus::Playing => "Playing"@,
            PlaybackStatus::Paused => "Paused"@,
            PlaybackStatus::Stopped => "Stopped"@,
        }
    }

    /// Gets the canonical word for this status.
    pub fn as_ref(&self) -> (r: &'static str)
        ensures
            r@ == self.spec_str(),
    {
        match self {
            PlaybackStatus::Playing => "Playing",
            PlaybackStatus::Paused => "Paused",
            PlaybackStatus::Stopped => "Stopped",
        }
    }
}

impl LoopStatus {
    /// Decides the loop status of an already case-folded string.
    pub fn of_folded(folded: &str) -> (r: Option<LoopStatus>)
        ensures
            folded@ == "none"@ ==> r == Some(LoopStatus::Inactive),
            folded@ == "track"@ ==> r == Some(LoopStatus::Track),
            folded@ == "playlist"@ ==> r == Some(LoopStatus::Playlist),
            folded@ != "none"@ && folded@ != "track"@ && folded@ != "playlist"@ ==> r is None,
    {
        proof {
            reveal_strlit("none");
            reveal_strlit("track");
            reveal_strlit("playlist");
            assert("none"@.len() == 4);
            assert("track"@.len() == 5);
            assert("playlist"@.len() == 8);
        }
        if str_eq(folded, "none") {
            Some(LoopStatus::Inactive)
        } else if str_eq(folded, "track") {
            Some(LoopStatus::Track)
        } else if str_eq(folded, "playlist") {
            Some(LoopStatus::Playlist)
        } else {
            None
        }
    }

    /// Decodes a reported loop-status string, ignoring case.
    pub fn from_str(s: &str) -> (r: MprisResult<LoopStatus>)
        ensures
            match spec_loop_status_of(s@) {
                Some(status) => r == Ok::<LoopStatus, MprisError>(status),
                None => (r matches Err(MprisError::Other(m))
                    && m@ == "LoopStatus is not None, Track or Playlist."@),
            },
    {
        let folded = lowercase(s);
        match Self::of_folded(folded.as_str()) {
            Some(status) => Ok(status),
            None => Err(MprisError::Other("LoopStatus is not None, Track or Playlist.".to_owned())),
        }
    }

    /// The canonical word for this status.
    pub open spec fn spec_str(&self) -> Seq<char> {
        match self {
            LoopStatus::Inactive => "None"@,
            LoopStatus::Track => "Track"@,
            LoopStatus::Playlist => "Playlist"@,
        }
    }

    /// Gets the canonical word for this status.
    pub fn as_ref(&self) -> (r: &'static str)
        ensures
            r@ == self.spec_str(),
    {
        match self {
            LoopStatus::Inactive => "None",
            LoopStatus::Track => "Track",
            LoopStatus::Playlist => "Playlist",
        }
    }
}

} // verus!
