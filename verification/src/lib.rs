//! Verified core of a network traffic-generation harness.
//!
//! The library plans a set of isolated virtual network environments (one per
//! IPv4 address in a half-open range), derives the exact external command
//! lines that provision, exercise and reclaim them, and accounts for the
//! completion signals of the concurrent client sessions.  All logic here is
//! verified; the surrounding binary performs the actual subprocess calls.

use vstd::prelude::*;

pub mod addr;
pub mod command;
pub mod dispatch;
pub mod numfmt;
pub mod plan;
pub mod provision;
pub mod reclaim;

verus! {

} // verus!
