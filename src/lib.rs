//! Simulation core of a side-scrolling "flappy" arcade game.
//!
//! All lengths are signed integers in a fixed unit chosen by the caller
//! (the bundled configuration uses thousandths of a pixel) and frame
//! durations are given in microseconds, so every rule of the game is exact
//! integer arithmetic that the proofs can speak about.
pub mod config;
pub mod geometry;
pub mod bird;
pub mod obstacle;
pub mod queue;
pub mod game;
pub mod fps;
