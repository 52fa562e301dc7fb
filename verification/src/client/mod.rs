//! The tunnel client: its command line and its configuration.
pub mod cli;
pub mod config;
