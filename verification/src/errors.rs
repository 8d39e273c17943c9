//! The error taxonomy of the library.
//!
//! Every failure the discovery loop or an endpoint watcher can report is a
//! value of [`MprisError`]; the nested enums group the player-, metadata- and
//! proxy-level failures the way callers meet them.

use vstd::prelude::*;

verus! {

/// Errors raised while talking to one player endpoint.
#[derive(Debug, PartialEq)]
pub enum PlayerError {
    /// Reading the named property failed; carries the property and the
    /// transport's description of the failure.
    FailedToGetProp(String, String),
    /// Writing the named property failed.
    FailedToSetProp(String, String),
    /// Calling the named method failed.
    FailedToCallFn(String, String),
    /// Any other player-level failure.
    Other(String),
}

/// Errors raised while decoding a player's metadata map.
#[derive(Debug, PartialEq)]
pub enum MetadataError {
    /// A metadata field was present but held a value of the wrong type.
    MetadataInvalidFieldType { field: String, expected: String, got: String },
}

/// Errors raised while constructing a proxy for a bus interface.
#[derive(Debug, PartialEq)]
pub enum ProxyError {
    /// The named proxy could not be created.
    FailedToCreate(String),
    /// Any other failure from the underlying transport, as text.
    Other(String),
}

/// The top-level error type of the library.
#[derive(Debug, PartialEq)]
pub enum MprisError {
    /// Opening the session bus connection failed.
    FailedToConnectDbus(String),
    /// The shared connection's lock was held, so a setup step could not
    /// proceed without waiting.
    FailedToLockSharedConnection(String),
    /// The event channel yielded no further events.
    FailedToRecvEvent,
    /// Calling the named bus function failed.
    FailedToCallFn(String, String),
    /// A bus name that does not denote a media-player endpoint.
    InvalidBusName,
    /// A player-level failure.
    PlayerErr(PlayerError),
    /// A metadata-level failure.
    MetadataErr(MetadataError),
    /// A proxy-construction failure.
    ProxyErr(ProxyError),
    /// Any other failure, as text.
    Other(String),
}

/// A shorthand for `Result<T, MprisError>`.
pub type MprisResult<T> = Result<T, MprisError>;

impl PlayerError {
    /// Wraps a failed property read.
    pub fn failed_to_get_prop(prop: &str, err: &str) -> (r: MprisError)
        ensures
            (r matches MprisError::PlayerErr(PlayerError::FailedToGetProp(p, e))
                && p@ == prop@ && e@ == err@),
    {
        MprisError::PlayerErr(PlayerError::FailedToGetProp(prop.to_owned(), err.to_owned()))
    }

    /// Wraps a failed property write.
    pub fn failed_to_set_prop(prop: &str, err: &str) -> (r: MprisError)
        ensures
            (r matches MprisError::PlayerErr(PlayerError::FailedToSetProp(p, e))
                && p@ == prop@ && e@ == err@),
    {
        MprisError::PlayerErr(PlayerError::FailedToSetProp(prop.to_owned(), err.to_owned()))
    }

    /// Wraps a failed method call.
    pub fn failed_to_call_fn(name: &str, err: &str) -> (r: MprisError)
        ensures
            (r matches MprisError::PlayerErr(PlayerError::FailedToCallFn(f, e))
                && f@ == name@ && e@ == err@),
    {
        MprisError::PlayerErr(PlayerError::FailedToCallFn(name.to_owned(), err.to_owned()))
    }

    /// Wraps any other player-level failure.
    pub fn other(err: &str) -> (r: MprisError)
        ensures
            (r matches MprisError::PlayerErr(PlayerError::Other(e)) && e@ == err@),
    {
        MprisError::PlayerErr(PlayerError::Other(err.to_owned()))
    }
}

impl ProxyError {
    /// Wraps a failed proxy construction.
    pub fn failed_to_create(proxy: &str) -> (r: MprisError)
        ensures
            (r matches MprisError::ProxyErr(ProxyError::FailedToCreate(p)) && p@ == proxy@),
    {
        MprisError::ProxyErr(ProxyError::FailedToCreate(proxy.to_owned()))
    }

    /// Wraps any other transport failure, given as text.
    pub fn other(err: &str) -> (r: MprisError)
        ensures
            (r matches MprisError::ProxyErr(ProxyError::Other(e)) && e@ == err@),
    {
        MprisError::ProxyErr(ProxyError::Other(err.to_owned()))
    }
}

} // verus!
