//! An in-memory key-value store behind a line-based command protocol.
//!
//! The crate holds the protocol's logic: splitting a line into words,
//! reading a command out of it, applying the command to the store and
//! wording the reply, together with the state machine that one connection
//! follows. Sockets, tasks and the lock around the store belong to the
//! program that embeds the library.

pub mod command;
pub mod connection;
pub mod laws;
pub mod response;
pub mod session;
pub mod store;
pub mod text;

pub use command::{parse, Command};
pub use connection::{begin, step, Action, Event, Phase};
pub use response::{encode, Response};
pub use session::{execute, respond};
pub use store::Database;
