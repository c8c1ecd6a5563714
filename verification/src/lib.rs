//! A deterministic four-in-a-row board-game engine.
//!
//! The playing field is a fixed 6-wide, 5-tall grid whose outer columns and
//! bottom row are immutable walls; the interior 4x4 region is playable.
//! Pieces are dropped into a column and fall to the lowest empty cell,
//! a fixed scan over ten four-cell lines decides the winner, a seeded
//! generator fills the board reproducibly, and the whole state renders to a
//! fixed textual form.

pub mod board;
pub mod decor;
pub mod detect;
pub mod fill;
pub mod render;
mod rng;
mod text;
