//! A discrete-time business simulation of a software product.
//!
//! The world advances in ticks; each tick maps to a slice of an in-game
//! calendar counted in weeks (52 weeks to a year, no leap handling).
//! A software product carries technical and commercial attributes and
//! derives quality, usability and market-popularity scores from them.
//! A company collaborator is read during a tick but never mutated by
//! the core.

pub mod company;
pub mod software;
pub mod timeframe;
pub mod world;
