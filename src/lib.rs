//! A character-grid terminal canvas with ncurses-like primitives, and the
//! configuration (border glyphs, colours, key bindings) that it draws with.
//!
//! Drawing calls build the terminal's escape sequences into a pending output
//! buffer; the host program hands that buffer to the terminal and reads keys.

pub mod config;
pub mod escape;
pub mod tui;
