//! A minimal multi-window GUI shell, verified with Verus.
//!
//! The library is the decision core of the shell: capability negotiation,
//! the window registry with its id-to-index map, per-window canvas and
//! frame-pacing bookkeeping, and the single-threaded event dispatcher that
//! turns each OS event into a state change plus a list of actions for the
//! windowing layer to perform.

pub mod application;
pub mod canvas;
pub mod capability;
pub mod context;
pub mod laws;
pub mod outcome;
pub mod registry;
pub mod text;
pub mod window;
