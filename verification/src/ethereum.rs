//! Calls of the EVM-family event source. Its events are Solidity-ABI
//! structs decoded by the execution client's tooling, so only the fetch
//! instruction, which is plain data, lives here.

use vstd::prelude::*;

verus! {

/// Fetch all logs the IBC handler emitted in `block_number`.
#[derive(Clone, Copy, PartialEq, Eq, Structural, Debug)]
pub struct FetchGetLogs {
    pub block_number: u64,
    /// If set, only fetch blocks up to this bound; otherwise unfold
    /// indefinitely.
    pub up_to: Option<u64>,
}

} // verus!
