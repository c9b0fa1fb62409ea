//! Master side of the XCP measurement and calibration protocol over CAN.
//!
//! The library holds the protocol engine: the binary codec of commands and
//! responses, the dispatch of a received frame on its response code, and the
//! session state machines for the segmented Get-Seed read and the chunked
//! Unlock write. Bus I/O is left to the caller, who hands received frames in
//! as plain identifiers and payload bytes.

use vstd::prelude::*;

pub mod frame;
pub mod xcp_command;
pub mod master;

verus! {

} // verus!
