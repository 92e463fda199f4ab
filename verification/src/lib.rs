//! Core of a GPU-driven cellular automaton: the double-buffered generation
//! grid and the rule that advances it, the per-frame input state, the
//! shader program build pipeline, the image/texture binding model, and the
//! main loop's phase machine. Window, GPU and file plumbing live outside
//! this crate and exchange plain values with it.

pub mod binding;
pub mod frame;
pub mod generation;
pub mod program;
pub mod raster;
pub mod session;
