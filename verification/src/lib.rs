//! Lifecycle of a peer-to-peer netplay session for a deterministic,
//! step-driven simulation.
//!
//! The heart of the crate is the tagged union [`netplay_state::NetplayState`]
//! over the five lifecycle states (disconnected, connecting, connected,
//! resuming, failed), the per-step `advance` operation, and the dual-attempt
//! resume strategy that recovers a desynchronized session by racing two
//! reconnection attempts seeded from the two most recently confirmed
//! simulation snapshots.
//!
//! The signaling transport and the rollback synchronization engine are
//! external collaborators: they run on the session's task pool, and what they
//! report on each step reaches this core as plain event values. Every
//! transition is specified against a mathematical model of the lifecycle
//! value and verified.

pub mod config;
pub mod connecting;
pub mod game_state;
pub mod input;
pub mod laws;
pub mod netplay_session;
pub mod netplay_state;
pub mod pool;
pub mod rom_hash;

pub use config::NetplayBuildConfiguration;
pub use connecting::{ConnectedAttempt, ConnectingEvent, ConnectingState, StartMethod, StartState};
pub use game_state::GameState;
pub use input::{InputMapping, JoypadInput, MAX_PLAYERS};
pub use netplay_session::{NetplaySession, SnapshotWindow, SyncOutcome};
pub use netplay_state::{
    Connected, Disconnected, Failed, Netplay, NetplayState, Resuming, StepReport,
};
pub use rom_hash::RomHash;
