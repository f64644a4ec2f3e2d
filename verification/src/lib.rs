//! Scene logic for a small interactive demo: a fixed triangle rendered
//! behind a circle that four directional keys move around the screen.
//!
//! The crate describes everything the renderer needs as plain data.
//! Positions travelled per frame are kept in exact micro-units, the
//! fixed scene constants in exact tenths, so every quantity the demo
//! computes is pinned by a contract. A thin unverified shell converts
//! these descriptions into calls on a graphics backend.

pub mod error;
pub mod frame;
pub mod motion;
pub mod scene;
