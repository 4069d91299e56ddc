//! Geometric and notational core of a two-player hex-tile strategy game
//! engine: an odd-row-offset coordinate model for a hexagonal board, a
//! six-valued direction vocabulary with its cyclic adjacency ring, and a
//! resolver that turns a compact move-notation token into an absolute board
//! coordinate by consulting the current placement of referenced pieces.
//!
//! The crate also carries the small user model of the surrounding service:
//! identifier and name validation for accounts.

pub mod direction;
pub mod game_error;
pub mod notation;
pub mod piece;
pub mod position;
pub mod registry;
pub mod user;
