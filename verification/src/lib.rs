//! Verified core of a command-line client for a remote skill registry.
//!
//! The library covers everything the client decides or computes on plain
//! values: parsing the command line into a command, building request URLs,
//! interpreting an HTTP status and response body, decoding the JSON wire
//! format of the search endpoint, and rendering results for the terminal.
//! The surrounding binary performs the network call and the actual printing
//! and hands every value in and out as plain strings and integers.

pub mod args;
pub mod client;
pub mod json;
pub mod model;
pub mod num;
pub mod render;

use vstd::prelude::*;

verus! {

} // verus!
