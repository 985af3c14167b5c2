//! The worker process: its messages, its failures, its supervisor and the client on top.

pub mod client;
pub mod error;
pub mod ipc;
pub mod manager;
pub mod pending;

pub use client::SidecarClient;
pub use error::SidecarError;
pub use ipc::{IpcCommand, IpcResponse};
pub use manager::SidecarManager;
