//! A matchmaking and session-orchestration core for short multiplayer game
//! sessions: the match registry and its lifecycle state machine, the port
//! pool, the per-match state broadcaster, and the hand-off of a ready match
//! to an external game-server process.

pub mod channel;
pub mod error;
pub mod info;
pub mod laws;
pub mod record;
pub mod registry;
pub mod request;
pub mod runner;
pub mod simulation;
pub mod user;
pub mod utils;
pub mod validation;
