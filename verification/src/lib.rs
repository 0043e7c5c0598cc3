//! The decision logic of a firmware boot stub: a masked secret reader and
//! the steps that stage and start a kernel image.
//!
//! Nothing in this crate touches the firmware. Every component takes what
//! the boot environment reported as a plain value and answers with the next
//! thing the environment has to do, so that the caller's loop is the only
//! place where a firmware call is made.

pub mod key;
pub mod terminal;
pub mod line;
pub mod password_reader;
pub mod reader_laws;
pub mod confirm;
pub mod pages;
pub mod error;
pub mod device_path;
pub mod loader;
pub mod loader_laws;
pub mod chainload;
