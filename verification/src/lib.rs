//! Supervision of a worker process and the request/response protocol spoken with it,
//! and the rules of the bookkeeping application around it.

pub mod commands;
pub mod db;
pub mod entity;
pub mod enums;
pub mod json;
pub mod services;
pub mod sidecar;
pub mod text;
