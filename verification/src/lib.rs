//! Planning core of a backup tool that drives an rsync-like transfer program.
//!
//! Nothing here opens a file or starts a process. The caller reads the
//! command line and the files, hands their content over as plain values, and
//! carries out what comes back:
//!
//! - [`resolve`] merges command line, directory settings, user settings and
//!   defaults into the settings of one operation, and picks the directories;
//! - [`transfer`] checks the settings and builds the invocation and its steps;
//! - [`timestamp`] reads and writes the record of the last backup;
//! - [`init`] leads the dialogue that sets up a directory;
//! - [`batch`] keeps count over a run on several directories.

pub mod batch;
pub mod cli;
pub mod command;
pub mod config;
pub mod error;
pub mod init;
pub mod outside;
pub mod resolve;
pub mod text;
pub mod timestamp;
pub mod transfer;
