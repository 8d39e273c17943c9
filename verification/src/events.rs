//! The events the engine produces for its consumer.

use vstd::prelude::*;

use crate::identity::PlayerIdentity;

verus! {

/// One event concerning a media-player endpoint. Every variant carries the
/// identity of the endpoint it concerns, so the consumer can correlate
/// events without re-querying the registry.
#[derive(Debug, PartialEq)]
pub enum MprisEvent {
    /// A new player appeared; the discovery loop registered it and hands its
    /// handle to the consumer alongside this event.
    PlayerAttached(PlayerIdentity),
    /// A registered player disappeared and was removed from the registry.
    PlayerDetached(PlayerIdentity),
    /// One of the player's properties changed.
    PlayerPropertiesChanged(PlayerIdentity),
    /// The player's position changed because it was asked to seek.
    PlayerSeeked(PlayerIdentity),
    /// The playing player's current position, in microseconds, as read on a
    /// poll tick.
    PlayerPosition(PlayerIdentity, u64),
}

} // verus!
