//! The commands that the application offers to its front end: what each
//! answers, once the outside world has had its say.

pub mod accounting;
pub mod attachment;
pub mod config;
pub mod demo;
pub mod llm;
pub mod sidecar;
