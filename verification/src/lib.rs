//! Core of a fixed-chain analog-style video synthesizer.
//!
//! The library owns the parts of the instrument that carry logic: the
//! parameter model for the seven processing stages, the byte-exact uniform
//! packing consumed by the paired shader, the time-based automation engine
//! with its per-parameter toggle state machine and key routing, the preset
//! catalogue, and the double-buffered feedback protocol of the renderer.
//!
//! Numeric parameter values are carried as raw 32-bit words (the bit pattern
//! of the host's single-precision value). The engine's logic never interprets
//! a word numerically, so the model, the routing, the packing and the buffer
//! protocol are exact over plain words; the host performs all numeric
//! evaluation (oscillators, clocks) and GPU work and feeds the results in as
//! words.

pub mod app;
pub mod automation;
pub mod presets;
pub mod renderer;
pub mod synth;
