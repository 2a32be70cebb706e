//! The settings and routing core of a desktop companion application: text
//! normalisation, command-line argument resolution, settings reconciliation,
//! operation routing and daemon binary discovery, each with a proved contract.

pub mod args;
pub mod daemon_binary;
pub mod files;
mod paths;
pub mod settings_core;
pub mod text;
pub mod types;
