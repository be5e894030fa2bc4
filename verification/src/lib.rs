//! An escrow for two-party wagers that an arbiter decides.
//!
//! Two participants each deposit the same stake. The arbiter either names
//! the winner, who is paid both stakes, or calls the wager off, and every
//! deposit goes back to whoever made it. [`game`] holds the record of one
//! wager and its transitions, [`ledger`] and [`store`] the books and the
//! records of an escrow, [`instructions`] the four operations on an
//! [`Escrow`], and [`guarantees`] what is proved of them.

pub mod error;
pub mod escrow;
pub mod game;
pub mod guarantees;
pub mod identity;
pub mod instructions;
pub mod ledger;
pub mod store;
pub mod sums;

pub use error::BoardoverseError;
pub use escrow::Escrow;
pub use game::{Game, GameStatus, Refund};
pub use identity::Identity;
pub use instructions::{create_game, declare_winner, join_game, stop_game};
