//! Conway's Game of Life on a fixed-size toroidal grid.
//!
//! The crate holds the simulation core: the per-cell state model
//! ([`cell::Cell`]), the row-major generation grid
//! ([`generation::Generation`]), the neighbor-counting transition rules with
//! wrap-around edges ([`ruleset::Ruleset`]), and the double-buffered driver
//! that commits one generation per tick ([`simulation::Simulation`]).
//! Rendering, pacing and key handling are left to the caller.

pub mod cell;
pub mod generation;
pub mod ruleset;
pub mod simulation;
