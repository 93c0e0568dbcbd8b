//! The control socket: messages, framing and command handling.

pub mod client;
pub mod protocol;
pub mod server;

pub use client::IpcClient;
pub use protocol::{Command, DaemonStatus, Event, Message, Payload, Response};
pub use server::IpcServer;
