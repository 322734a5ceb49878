//! The core of a text viewer for the terminal, without the terminal: what
//! it computes and decides is here, and what it reads, writes and draws is
//! handed in and out as plain values.
//!
//! - [`coords`]: positions and sizes, and the scrolling policy.
//! - [`mapper`]: the positions of a text, and where a requested position
//!   lands in it.
//! - [`file`]: a file session, with its cursor and its window.
//! - [`listing`]: the directory listing and the view that a query selects.
//! - [`editor`]: the sessions, the file picker, and the state machine that
//!   keys and signals drive.
//! - [`screen`]: the frames that the editor draws.
//! - [`utils`]: parts of strings and lines of texts.
//! - [`text`]: what is taken on trust of the strings of std.

pub mod coords;
pub mod editor;
pub mod file;
pub mod listing;
pub mod mapper;
pub mod screen;
pub mod text;
pub mod utils;
