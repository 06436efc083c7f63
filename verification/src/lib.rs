//! Event sourcing and dispatch engine of a file-dispatching pipeline.
//!
//! The crate holds the decisions of the pipeline: how a file event is routed
//! to the channel of its source, how a directory target materialises an event,
//! how a remote scan deduplicates against the ledger, how a queue payload is
//! decoded, and how shutdown runs the registered stop actions. Threads,
//! sockets and the file system stay with the caller.

pub mod channels;
pub mod clock;
pub mod command;
pub mod dedup;
pub mod directory_source;
pub mod directory_target;
pub mod event;
pub mod paths;
pub mod pattern;
pub mod settings;
pub mod shutdown;
pub mod sftp_scanner;
