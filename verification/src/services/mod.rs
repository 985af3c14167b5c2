//! The services behind the application's commands.

pub mod accounting;
pub mod attachment;
pub mod attachment_storage;
pub mod llm_service;
