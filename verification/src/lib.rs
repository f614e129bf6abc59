//! A small verified 2D sprite animator for grid/pixel render surfaces.
//!
//! The crate models positions and elapsed time as fixed-point integers so
//! that frame timing, mirroring and buffer compositing can be specified and
//! proved exactly: a grid cell is split into `SUBCELL` subunits, and time is
//! counted in microseconds.
pub mod game;
pub mod input;
pub mod layout;
pub mod palette;
pub mod renderer;
pub mod screen;
pub mod sprite;
