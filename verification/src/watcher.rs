//! One endpoint watcher's decision logic.
//!
//! A watcher runs from the moment its player is attached until the player
//! departs or the consumer goes away. The embedding program owns the
//! subscriptions and the poll timer and feeds what they yield into these
//! step functions, in the fixed priority order: consumer closure first, then
//! the lifecycle token, then the two change signals, then the poll tick.
//! Each step says exactly which event to emit, and a stopped watcher emits
//! nothing, ever.

use vstd::prelude::*;

use crate::errors::MprisError;
use crate::events::MprisEvent;
use crate::identity::name_matches_prefix;
use crate::identity::PlayerIdentity;
use crate::status::spec_playback_status_of;
use crate::status::PlaybackStatus;

verus! {

/// What a poll tick asks the caller to do after the playback status was
/// read.
#[derive(Debug, PartialEq)]
pub enum TickAction {
    /// Nothing this tick: the watcher is stopped or the player is not
    /// playing.
    Idle,
    /// The player is playing: read its position and call
    /// `on_tick_position`.
    QueryPosition,
    /// The reported status did not decode: the caller forwards this error
    /// and the watcher has stopped.
    Fail(MprisError),
}

/// The watcher of one endpoint: its identity and whether it still listens.
#[derive(Debug)]
pub struct EndpointWatcher {
    identity: PlayerIdentity,
    active: bool,
}

/// The event a property-change signal emits: the endpoint's identity while
/// the watcher is active, and nothing afterwards.
pub open spec fn props_event(w: EndpointWatcher) -> Option<MprisEvent> {
    if w.spec_active() {
        Some(MprisEvent::PlayerPropertiesChanged(w.spec_identity()))
    } else {
        None
    }
}

/// The event a seek signal emits, under the same rule.
pub open spec fn seeked_event(w: EndpointWatcher) -> Option<MprisEvent> {
    if w.spec_active() {
        Some(MprisEvent::PlayerSeeked(w.spec_identity()))
    } else {
        None
    }
}

/// The event a position reading emits: the position in microseconds for an
/// active watcher, nothing for a stopped one.
pub open spec fn position_event(w: EndpointWatcher, micros: i64) -> Option<MprisEvent> {
    if w.spec_active() {
        Some(MprisEvent::PlayerPosition(w.spec_identity(), micros as u64))
    } else {
        None
    }
}

/// How a lifecycle token moves the watcher: it stops exactly when the token
/// prefix-matches its own bus name, and its identity never changes.
pub open spec fn token_post(pre: EndpointWatcher, token: Seq<char>, post: EndpointWatcher) -> bool {
    &&& post.spec_identity() == pre.spec_identity()
    &&& post.spec_active() == (pre.spec_active() && !name_matches_prefix(
        pre.spec_identity().spec_bus(),
        token,
    ))
}

/// How a poll tick moves the watcher once the playback status was read: a
/// stopped watcher stays idle; an undecodable status stops the watcher with
/// the decode error; a playing player asks for its position; any other
/// status leaves this tick silent.
pub open spec fn tick_status_post(
    pre: EndpointWatcher,
    raw: Seq<char>,
    post: EndpointWatcher,
    action: TickAction,
) -> bool {
    &&& post.spec_identity() == pre.spec_identity()
    &&& if !pre.spec_active() {
        action is Idle && !post.spec_active()
    } else {
        match spec_playback_status_of(raw) {
            Option::Some(PlaybackStatus::Playing) => action is QueryPosition
                && post.spec_active(),
            Option::Some(_) => action is Idle && post.spec_active(),
            Option::None => (action matches TickAction::Fail(e) && e matches MprisError::Other(m)
                && m@ == "PlaybackStatus is not Playing, Paused or Stopped"@)
                && !post.spec_active(),
        }
    }
}

/// The watcher has stopped; its identity is kept.
pub open spec fn watcher_stopped_post(pre: EndpointWatcher, post: EndpointWatcher) -> bool {
    &&& post.spec_identity() == pre.spec_identity()
    &&& !post.spec_active()
}

impl EndpointWatcher {
    /// The identity of the endpoint watched.
    pub closed spec fn spec_identity(&self) -> PlayerIdentity {
        self.identity
    }

    /// Whether the watcher still listens.
    pub closed spec fn spec_active(&self) -> bool {
        self.active
    }

    /// Creates the watcher for one attached endpoint; it starts active.
    pub fn new(identity: PlayerIdentity) -> (r: EndpointWatcher)
        ensures
            r.spec_identity() == identity,
            r.spec_active(),
    {
        EndpointWatcher { identity, active: true }
    }

    /// The identity of the endpoint watched.
    pub fn identity(&self) -> (r: &PlayerIdentity)
        ensures
            *r == self.spec_identity(),
    {
        &self.identity
    }

    /// Whether the watcher still listens.
    pub fn is_active(&self) -> (r: bool)
        ensures
            r == self.spec_active(),
    {
        self.active
    }

    /// Stops the watcher because the consumer's channel closed; no event is
    /// emitted now or later.
    pub fn on_channel_closed(&mut self)
        ensures
            watcher_stopped_post(*old(self), *final(self)),
    {
        self.active = false;
    }

    /// Takes one lifecycle token: the watcher stops when the token
    /// prefix-matches its own bus name and ignores it otherwise, emitting
    /// nothing either way.
    pub fn on_close_token(&mut self, token: &str)
        ensures
            token_post(*old(self), token@, *final(self)),
    {
        if self.active && self.identity.matches_bus_prefix(token) {
            self.active = false;
        }
    }

    /// Takes one property-change signal and returns the event to emit.
    pub fn on_properties_changed(&self) -> (r: Option<MprisEvent>)
        ensures
            r == props_event(*self),
    {
        if self.active {
            Some(MprisEvent::PlayerPropertiesChanged(self.identity.clone()))
        } else {
            None
        }
    }

    /// Takes one seek signal and returns the event to emit.
    pub fn on_seeked(&self) -> (r: Option<MprisEvent>)
        ensures
            r == seeked_event(*self),
    {
        if self.active {
            Some(MprisEvent::PlayerSeeked(self.identity.clone()))
        } else {
            None
        }
    }

    /// Takes the playback status read on a poll tick and decides the rest
    /// of the tick: ask for the position only while the player is playing,
    /// stop on a status that does not decode.
    pub fn on_tick_status(&mut self, raw: &str) -> (action: TickAction)
        ensures
            tick_status_post(*old(self), raw@, *final(self), action),
    {
        if !self.active {
            return TickAction::Idle;
        }
        match PlaybackStatus::from_str(raw) {
            Ok(PlaybackStatus::Playing) => TickAction::QueryPosition,
            Ok(_) => TickAction::Idle,
            Err(e) => {
                self.active = false;
                TickAction::Fail(e)
            },
        }
    }

    /// Takes the position read after a playing tick and returns the
    /// `PlayerPosition` event to emit, in microseconds.
    pub fn on_tick_position(&self, position_micros: i64) -> (r: Option<MprisEvent>)
        ensures
            r == position_event(*self, position_micros),
    {
        if self.active {
            Some(MprisEvent::PlayerPosition(self.identity.clone(), position_micros as u64))
        } else {
            None
        }
    }
}

/// While the decoded playback status is not "playing", a tick emits no
/// `PlayerPosition` and asks for no position reading.
pub proof fn lemma_no_position_while_not_playing(
    pre: EndpointWatcher,
    raw: Seq<char>,
    post: EndpointWatcher,
    action: TickAction,
)
    requires
        tick_status_post(pre, raw, post, action),
        spec_playback_status_of(raw) != Some(PlaybackStatus::Playing),
    ensures
        !(action is QueryPosition),
{
}

/// The moment the decoded playback status is "playing", the next tick of an
/// active watcher asks for the position, and the position reading emits
/// exactly one `PlayerPosition` event carrying it.
pub proof fn lemma_playing_tick_emits_one_position(
    pre: EndpointWatcher,
    raw: Seq<char>,
    post: EndpointWatcher,
    action: TickAction,
    micros: i64,
)
    requires
        pre.spec_active(),
        tick_status_post(pre, raw, post, action),
        spec_playback_status_of(raw) == Some(PlaybackStatus::Playing),
    ensures
        action is QueryPosition,
        position_event(post, micros) == Some(
            MprisEvent::PlayerPosition(pre.spec_identity(), micros as u64),
        ),
{
}

/// Once the consumer channel has closed, a watcher answers every further
/// signal, token and tick with no event and stays stopped.
pub proof fn lemma_closed_watcher_is_silent(
    w0: EndpointWatcher,
    w1: EndpointWatcher,
    w2: EndpointWatcher,
    token: Seq<char>,
    raw: Seq<char>,
    action: TickAction,
)
    requires
        watcher_stopped_post(w0, w1),
        token_post(w1, token, w2) || tick_status_post(w1, raw, w2, action),
    ensures
        props_event(w1) is None,
        seeked_event(w1) is None,
        forall|micros: i64| position_event(w1, micros) is None,
        !w2.spec_active(),
        tick_status_post(w1, raw, w2, action) ==> action is Idle,
{
}

/// A watcher stops for exactly the tokens that prefix-match its own bus
/// name: the detach broadcast reaches every watcher, and the ones it does
/// not concern keep listening.
pub proof fn lemma_token_routing(
    pre: EndpointWatcher,
    token: Seq<char>,
    post: EndpointWatcher,
)
    requires
        pre.spec_active(),
        token_post(pre, token, post),
    ensures
        post.spec_active() <==> !name_matches_prefix(pre.spec_identity().spec_bus(), token),
{
}

} // verus!
