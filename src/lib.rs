//! Provisioning of an encrypted, deduplicating backup repository: derived
//! names and paths, the commands handed to the outside tools, and the
//! resumable state machine whose record is kept on disk.

pub mod args;
pub mod command;
pub mod config;
pub mod guarantees;
pub mod manifest;
pub mod record;
pub mod repository;
pub mod text;

