//! A keyboard-driven checklist for a text terminal: the selection cursor, the
//! checklist it moves over, the display toggles, the panel geometry derived
//! from them, the composition of a frame and the dispatch of input events.
//!
//! Everything here is a function of plain values. Reading the keyboard and
//! painting the terminal are left to the program around this library.

pub mod config;
pub mod input;
pub mod layout;
pub mod screen;
pub mod selection;
pub mod todo;
