//! The calls this plugin addresses to itself: the three states of the
//! per-chain fetch machine.

use vstd::prelude::*;

use crate::events::IbcEvent;
use crate::height::Height;
use crate::ids::H256;

verus! {

/// Discover work at a height: page through its transactions and, once the
/// next height is final, advance to it.
#[derive(Clone, Copy, PartialEq, Eq, Structural, Debug)]
pub struct FetchBlocks {
    pub height: Height,
}

/// Fetch one page of the transaction search for a height.
#[derive(Clone, Copy, PartialEq, Eq, Structural, Debug)]
pub struct FetchTransactions {
    pub height: Height,
    pub page: u32,
}

/// Resolve one native event, observed in the given transaction at the
/// given height, into its canonical record.
#[derive(Clone, Debug, PartialEq, Eq)]
pub struct MakeChainEvent {
    pub height: Height,
    pub tx_hash: H256,
    pub event: IbcEvent,
}

/// A call addressed to this plugin.
#[derive(Clone, Debug, PartialEq, Eq)]
pub enum ModuleCall {
    FetchBlocks(FetchBlocks),
    FetchTransactions(FetchTransactions),
    MakeChainEvent(MakeChainEvent),
}

} // verus!
