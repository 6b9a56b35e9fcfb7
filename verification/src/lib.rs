//! Hidden files and directories, decided and changed without touching the
//! file system.
//!
//! On Unix a file is hidden when its name starts with a dot, and hiding or
//! showing it is a rename. On Windows a file is hidden when its attribute word
//! has the hidden bit, and hiding or showing it stores a new word. Every
//! function here computes what holds or what has to be done; the caller
//! performs the rename or the attribute write.
//!
//! ```text
//! let change = hf::unix::hide_path("foo/bar.txt")?;
//! // Change::Rename { from: "foo/bar.txt", to: "foo/.bar.txt" }
//! ```
//!
//! The contracts of the functions speak of paths as sequences of characters.
//! The module [`path`] says what the file name of a path is, [`unix`] and
//! [`windows`] hold the rule of each platform with the laws that relate
//! hiding, showing and asking, and [`ops`] offers both under one name.

pub mod change;
pub mod cli;
pub mod error;
pub mod ops;
pub mod path;
pub mod shell;
pub mod unix;
pub mod windows;

pub use crate::change::Change;
pub use crate::error::{Error, ErrorKind};
pub use crate::ops::{hide_path, is_hidden, show, Target};
