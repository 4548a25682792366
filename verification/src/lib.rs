//! Supervision of a single long-running server process on behalf of a
//! desktop application.
//!
//! The [`supervisor`] holds the handle of the server, if one is running,
//! and offers three operations on it: start, stop and check. [`launch`]
//! says how the server is invoked, [`reply`] what the operations answer,
//! [`shell`] what is to be done on the signals of the graphical shell, and
//! [`machine`] states what holds of the operations together.

pub mod commands;
pub mod launch;
pub mod machine;
pub mod reply;
pub mod shell;
pub mod supervisor;
