//! The canonical, chain-agnostic event record handed to the downstream
//! relayer: constructed once per native event, emitted as a terminal value,
//! never mutated afterwards.

use vstd::prelude::*;

use crate::height::Height;
use crate::ids::{ChainId, ClientType, H256};

verus! {

/// Which event vocabulary a canonical record belongs to.
#[derive(Clone, Copy, PartialEq, Eq, Structural, Debug)]
pub enum IbcSpecId {
    Classic,
    Union,
}

/// Per-client descriptor: which light-client implementation serves the
/// client and over which interface it is driven. Resolved per query, never
/// cached.
#[derive(Clone, Debug, PartialEq, Eq)]
pub struct ClientInfo {
    pub client_type: ClientType,
    pub ibc_interface: String,
}

/// Per-client state summary at a height: which chain the client tracks and
/// the counterparty height it has verified up to.
#[derive(Clone, Debug, PartialEq, Eq)]
pub struct ClientMeta {
    pub chain_id: ChainId,
    pub counterparty_height: Height,
}

/// A canonical event body, tagged by vocabulary.
#[derive(Clone, Debug, PartialEq, Eq)]
pub enum FullEvent {
    Classic(crate::ibc_classic::FullEvent),
    Union(crate::ibc_union::FullEvent),
}

impl FullEvent {
    /// The vocabulary this body belongs to.
    pub open spec fn spec_id(self) -> IbcSpecId {
        match self {
            FullEvent::Classic(_) => IbcSpecId::Classic,
            FullEvent::Union(_) => IbcSpecId::Union,
        }
    }
}

/// The canonical record of one native IBC event.
#[derive(Clone, Debug, PartialEq, Eq)]
pub struct ChainEvent {
    pub chain_id: ChainId,
    pub client_info: ClientInfo,
    pub counterparty_chain_id: ChainId,
    pub tx_hash: H256,
    pub provable_height: Height,
    pub ibc_spec_id: IbcSpecId,
    pub event: FullEvent,
}

impl ChainEvent {
    /// The vocabulary tag always matches the body.
    pub open spec fn wf(self) -> bool {
        self.ibc_spec_id == self.event.spec_id()
    }
}

} // verus!
