//! The input-and-rendering core of a modal terminal text editor.
//!
//! The crate holds the decisions of the editor and none of its terminal
//! traffic: a caller reads the terminal's size and its input events, hands them
//! in as plain values, and gets back the operations to perform on the screen.

pub mod buffer;
pub mod editor;
pub mod enums;
pub mod laws;
pub mod mode;
pub mod model;
pub mod screen;
