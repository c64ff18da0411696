//! Application state core of a hierarchical media browser and player.
//!
//! The library models the canonical application state (a store of named
//! fields), the action handlers that mutate it, the playback device state
//! machine, and the change-notification protocol that fans notifications out
//! to subscribers.  All processing is specified and verified as a sequential
//! model: one action is applied at a time, in dispatch order, and each
//! completed action is broadcast to every registered subscriber.  The
//! asynchronous plumbing around this core (task runtime, channels, simulated
//! device latency, rendering) lives outside the library and drives it through
//! these verified entry points.

pub mod actions;
pub mod controller;
pub mod catalog;
pub mod entry;
pub mod laws;
pub mod player;
pub mod state;
pub mod text;

pub use actions::Action;
pub use actions::Field;
pub use actions::FieldName;
pub use actions::StateChange;

pub use catalog::Catalog;
pub use entry::LibraryEntry;
pub use entry::Progress;
pub use entry::TrackSource;
pub use entry::Variant;
pub use player::Player;
pub use player::PlayerError;
pub use player::PlayerEvent;
pub use player::PlayerState;
pub use state::InnerState;
pub use state::State;

pub use controller::ContentController;
