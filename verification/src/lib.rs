//! Core of a local-network media-state broadcaster: the supervisor that
//! toggles the beacon/listener sink on and off, the registry of connected
//! clients with their cancellation handles, the per-session deduplication
//! of artwork, and the JSON framing of playback snapshots.

pub mod beacon;
pub mod dedup;
pub mod events;
pub mod json;
pub mod registry;
pub mod snapshot;
pub mod state;
