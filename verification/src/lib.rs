//! A turn-based two-player chess session engine.
//!
//! The crate computes the pseudo-legal destinations of a piece, validates and
//! applies requested moves against each game's turn and ownership rules, and
//! keeps a registry of the games in progress. It does not detect check,
//! checkmate, castling, en passant, promotion or draws.

pub mod data;
pub mod grid;
pub mod rules;
pub mod board;
pub mod game;
pub mod registry;
pub mod replies;
pub mod display;
pub mod token;
