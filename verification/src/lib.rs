//! The rules of a small terminal animation: a pet that drifts, or a ball that
//! bounces, inside a bordered canvas, redrawn on a fixed tick while the
//! keyboard is polled.
//!
//! Everything here works on plain values. Reading the clock, polling the
//! keyboard and painting the terminal are left to the program that drives
//! this library.

pub mod clock;
pub mod driver;
pub mod entity;
pub mod input;
pub mod motion;
pub mod playground;
pub mod scene;
pub mod state;
pub mod text;
pub mod trajectory;
