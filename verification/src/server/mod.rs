//! The tunnel server: its options, sessions, tunnels, and the routing of connections.
pub mod cli;
pub mod control;
pub mod pem;
pub mod registery;
pub mod service;
pub mod tunnel;
