//! shPlank: a small forum that lives in the terminal and is reached over SSH.
//!
//! This crate holds the forum's logic: the per-connection session state
//! machine, keystroke editing, the content of every screen, the layout
//! arithmetic, and the starter data. The SSH server, the database and the
//! terminal renderer drive it from the outside.

pub mod laws;
pub mod layout;
pub mod records;
pub mod screens;
pub mod seed;
pub mod server;
pub mod session;
pub mod text;
