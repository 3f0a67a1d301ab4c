//! Configuration of the Tailwind CSS language server for an editor host:
//! the command that starts the server, the options sent to it at startup,
//! and the workspace settings handed to it afterwards.

pub mod command;
pub mod document;
pub mod laws;
pub mod options;
pub mod server;
pub mod workspace;
