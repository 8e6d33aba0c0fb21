//! Core of a terminal dashboard that watches one source file, drives it
//! through a four-stage external toolchain (translate, optimize, timing
//! analysis, interpret/test), and renders the resulting artifacts.
//!
//! This crate holds the verified logic: the application state and its
//! transitions, the entry-point extractor, the pipeline stage planner, and
//! the pure projection from state to renderable panes. Process invocation,
//! file watching and terminal drawing are left to an unverified shell that
//! calls into this crate.

use vstd::prelude::*;

pub mod clock;
pub mod events;
pub mod extract;
pub mod pipeline;
pub mod render;
pub mod state;

verus! {

} // verus!
