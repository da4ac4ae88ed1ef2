//! Verified core of a terminal file browser that can securely erase files.
//!
//! The library decides and its caller acts: it never touches the file system
//! or the terminal. The caller reads directories and files, hands in what it
//! read, and carries out what the library asks for.
//!
//! - `path`: the order of path text, its final component and its parent.
//! - `entry`: one child of a directory and the listing order.
//! - `listing`: the ordered snapshot of a directory.
//! - `navigation`: the shown directory, its snapshot and the cursor.
//! - `preview`: what is shown for the entry under the cursor.
//! - `gate`: the confirmation that stands before every erase.
//! - `erase`: the steps of overwriting and removing a file.
//! - `keys`: from keys to commands.
//! - `session`: all of these behind one transition function.

pub mod entry;
pub mod erase;
pub mod gate;
pub mod keys;
pub mod listing;
pub mod navigation;
pub mod path;
pub mod preview;
pub mod session;
