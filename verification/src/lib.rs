//! Retrieval of a zipped package repository from a build service:
//! choosing the artifact, checking the transfer, and planning the
//! unpacking of an untrusted archive so that nothing leaves the target root.

pub mod archive;
pub mod error;
pub mod extract;
pub mod fetch;
pub mod json;
pub mod listing;
pub mod selector;
pub mod settings;
pub mod text;
pub mod update;
pub mod xbps;
