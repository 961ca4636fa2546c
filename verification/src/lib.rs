//! Core of a terminal emulator: the screen model, the interpreter for parsed
//! escape sequences, and the planning stages of the frame pipeline.
//!
//! The functions of this crate are verified against contracts over
//! mathematical models of the data they work on. The few that call into the
//! VT parser, the cache crate and the clock are marked *Trusted* in their
//! documentation: their contracts state what the called function is
//! documented to do, and are believed without proof.
//!
//! - [`cell`], [`row`]: the value types of the screen.
//! - [`grid_model`], [`grid`]: the screen grid, its model and its editing
//!   operations; [`grid_laws`] holds what is proved of them.
//! - [`color`]: the colour palettes.
//! - [`event`]: the events of the VT parser, and the parser behind them.
//! - [`terminal_model`], [`terminal`]: the terminal state and the
//!   interpreter of the events; [`terminal_laws`] holds what is proved of
//!   it.
//! - [`shaper`]: the cutting of rows into runs of equal style, under a
//!   budget of rows per frame.
//! - [`decor`], [`row_cache`], [`frame`]: the quads of a frame, the caches
//!   that keep them per row, and the selection overlay.
//! - [`input`]: the bytes that key presses send.
//! - [`pipeline`]: the byte buffer, the budgeted feeding of the terminal, the
//!   selection and the link under the pointer.

pub mod cell;
pub mod row;
pub mod grid_model;
pub mod grid;
pub mod grid_laws;
pub mod color;
pub mod event;
pub mod terminal_model;
pub mod terminal;
pub mod terminal_laws;
pub mod shaper;
pub mod decor;
pub mod row_cache;
pub mod frame;
pub mod input;
pub mod pipeline;
