//! Management of a single detached server process per working directory:
//! session state, liveness checking, named-channel rendezvous, and the
//! graceful-stop-then-escalate protocol.

pub mod attach;
pub mod backups;
pub mod config;
pub mod detached;
pub mod error;
pub mod launch;
pub mod mcjars;
pub mod modrinth;
pub mod mojang;
pub mod shutdown;
pub mod text;

pub use config::Config;
pub use config::default_stop_command;
pub use error::SessionError;
