//! The logic of an interactive terminal pane.
//!
//! A pane shows the grid of a terminal emulator inside a border, lets the
//! user scroll back, select text with the mouse and copy it, and sends keys
//! on to the shell. This library holds the rules of such a pane, each with
//! its contract: the mapping between host cells and grid coordinates, the
//! selection and the text it covers, the scroll offset, the cursor, the
//! confirmation of the quit chord, the bytes that inputs send, and what a
//! frame shows. It draws nothing: the program around it hands it plain
//! values and does what it answers.

pub mod cursor;
pub mod frame;
pub mod geometry;
pub mod grid;
pub mod hangul;
pub mod input;
pub mod modes;
pub mod number;
pub mod pane;
pub mod quit;
pub mod scroll;
pub mod selection;
pub mod shell;
pub mod text;
