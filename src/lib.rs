//! Mirrors the screen of a child terminal into a bounded region of the host
//! terminal: the styled cells of a virtual screen are turned into SGR escape
//! sequences, the extent of the screen that holds content is measured, and
//! each frame is laid out as a short list of cursor and print operations.
pub mod cell;
pub mod screen;
pub mod ansi;
pub mod frame;
pub mod terminal;
