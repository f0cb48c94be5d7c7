//! A level-progression game: players submit externally deployed "flipper"
//! programs, and the engine verifies each one through a fixed
//! read / toggle / read call protocol before advancing the player.

pub mod account;
pub mod error;
pub mod game;
pub mod laws;
pub mod probe;

pub use account::{AccountId, PlayerAccount, PlayerAccountView};
pub use error::Error;
pub use game::{Game, GameView, MAX_LEVEL};
pub use probe::{ProbeAction, ProbeEvent, ProbeState, Verdict};
