#![allow(non_snake_case)]
#![allow(non_camel_case_types)]
#![allow(non_upper_case_globals)]

pub mod text;
pub mod cli;
pub mod client;
pub mod json;
pub mod message;
pub mod connection;
pub mod address;
pub mod server;

use vstd::prelude::*;

verus! {

/// The protocol version that the server announces.
pub const VERSON_MARJOR: &'static str = "0";

/// The software version that the server announces.
pub const VERSON_MINI: &'static str = "1";

} // verus!
