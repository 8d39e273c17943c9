//! Discovery and event multiplexing for MPRIS media-player endpoints.
//!
//! The library turns raw bus name-ownership notifications and per-endpoint
//! signal and poll activity into a single ordered stream of high-level
//! events, while maintaining a registry of the endpoints that are alive.
//! Everything that decides — name parsing, filter evaluation, the discovery
//! state machine, each watcher's state machine, the registry — lives here
//! and carries a contract; the asynchronous bus transport that feeds those
//! decisions is left to the embedding program.

pub mod discovery;
pub mod errors;
pub mod events;
pub mod identity;
pub mod metadata;
pub mod registry;
pub mod status;
pub mod text;
pub mod watcher;

pub use discovery::DiscoveryAction;
pub use discovery::DiscoveryEngine;
pub use errors::MetadataError;
pub use errors::MprisError;
pub use errors::MprisResult;
pub use errors::PlayerError;
pub use errors::ProxyError;
pub use events::MprisEvent;
pub use identity::PlayerIdentity;
pub use metadata::MetaValue;
pub use metadata::PlayerMetadata;
pub use metadata::TrackId;
pub use registry::Registry;
pub use status::LoopStatus;
pub use status::PlaybackStatus;
pub use watcher::EndpointWatcher;
pub use watcher::TickAction;
