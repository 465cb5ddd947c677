//! Identifiers used throughout the canonical event stream.
//!
//! Chain, client, connection, channel and port identifiers are opaque
//! strings: the library moves them around and compares them, it never
//! interprets them (except for the chain id's revision suffix, parsed in
//! [`crate::module`]). A hash is a fixed 32-byte value.

use vstd::prelude::*;

verus! {

/// Number of bytes in a 32-byte hash.
pub const HASH_LEN: usize = 32;

/// A value whose length did not match what the caller demanded.
#[derive(Clone, Copy, PartialEq, Eq, Structural, Debug)]
pub struct InvalidLength {
    pub expected: usize,
    pub found: usize,
}

/// A 32-byte hash: a transaction hash, a commitment root, a validator-set
/// hash, or the content checksum of a light-client code blob.
#[derive(Debug, PartialEq, Eq, Hash)]
pub struct H256 {
    pub bytes: Vec<u8>,
}

impl View for H256 {
    type V = Seq<u8>;

    open spec fn view(&self) -> Seq<u8> {
        self.bytes@
    }
}

impl Clone for H256 {
    fn clone(&self) -> (res: Self)
        ensures
            res@ == self@,
    {
        let mut bytes: Vec<u8> = Vec::new();
        let mut i: usize = 0;
        while i < self.bytes.len()
            invariant
                i <= self.bytes.len(),
                bytes@ == self.bytes@.subrange(0, i as int),
            decreases self.bytes.len() - i,
        {
            bytes.push(self.bytes[i]);
            i = i + 1;
        }
        proof {
            assert(bytes@ =~= self.bytes@);
        }
        H256 { bytes }
    }
}

impl H256 {
    /// Every hash holds exactly [`HASH_LEN`] bytes.
    pub open spec fn wf(&self) -> bool {
        self@.len() == HASH_LEN
    }

    /// Wrap a byte vector known to have the right length.
    pub fn new(bytes: Vec<u8>) -> (h: H256)
        requires
            bytes@.len() == HASH_LEN,
        ensures
            h@ == bytes@,
            h.wf(),
    {
        H256 { bytes }
    }

    /// Wrap a byte vector, rejecting any length other than [`HASH_LEN`].
    /// Returns the hash exactly when the input holds 32 bytes.
    pub fn try_from_bytes(bytes: Vec<u8>) -> (r: Result<H256, InvalidLength>)
        ensures
            bytes@.len() == HASH_LEN ==> (r matches Ok(h) && h@ == bytes@ && h.wf()),
            bytes@.len() != HASH_LEN ==> r == Err::<H256, InvalidLength>(InvalidLength {
                expected: HASH_LEN,
                found: bytes@.len() as usize,
            }),
    {
        if bytes.len() == HASH_LEN {
            Ok(H256 { bytes })
        } else {
            Err(InvalidLength { expected: HASH_LEN, found: bytes.len() })
        }
    }

    /// Read one byte of the hash.
    pub fn byte_at(&self, i: usize) -> (b: u8)
        requires
            i < self@.len(),
        ensures
            b == self@[i as int],
    {
        self.bytes[i]
    }

    /// The number of bytes held.
    pub fn len(&self) -> (n: usize)
        ensures
            n == self@.len(),
    {
        self.bytes.len()
    }
}

/// The identity of a chain: an opaque string such as `union-testnet-8`.
#[derive(Debug, PartialEq, Eq, Hash)]
pub struct ChainId {
    pub id: String,
}

impl View for ChainId {
    type V = Seq<char>;

    open spec fn view(&self) -> Seq<char> {
        self.id@
    }
}

impl Clone for ChainId {
    fn clone(&self) -> (res: Self)
        ensures
            res == *self,
    {
        ChainId { id: self.id.clone() }
    }
}

impl ChainId {
    /// Wrap a raw chain id string.
    pub fn new(id: String) -> (c: ChainId)
        ensures
            c == (ChainId { id }),
            c@ == id@,
    {
        ChainId { id }
    }

    /// The raw chain id string.
    pub fn as_str(&self) -> (s: &str)
        ensures
            s@ == self@,
    {
        self.id.as_str()
    }

    /// Whether two chain ids name the same chain.
    pub fn same_as(&self, other: &ChainId) -> (r: bool)
        ensures
            r == (self@ == other@),
    {
        self.id == other.id
    }
}

/// A client identifier, such as `07-tendermint-5`.
#[derive(Debug, PartialEq, Eq, Hash)]
pub struct ClientId {
    pub id: String,
}

impl View for ClientId {
    type V = Seq<char>;

    open spec fn view(&self) -> Seq<char> {
        self.id@
    }
}

impl Clone for ClientId {
    fn clone(&self) -> (res: Self)
        ensures
            res == *self,
    {
        ClientId { id: self.id.clone() }
    }
}

impl ClientId {
    /// Wrap a raw client id string.
    pub fn new(id: String) -> (c: ClientId)
        ensures
            c == (ClientId { id }),
            c@ == id@,
    {
        ClientId { id }
    }

    /// The raw client id string.
    pub fn as_str(&self) -> (s: &str)
        ensures
            s@ == self@,
    {
        self.id.as_str()
    }
}

/// A connection identifier, such as `connection-3`.
#[derive(Debug, PartialEq, Eq, Hash)]
pub struct ConnectionId {
    pub id: String,
}

impl View for ConnectionId {
    type V = Seq<char>;

    open spec fn view(&self) -> Seq<char> {
        self.id@
    }
}

impl Clone for ConnectionId {
    fn clone(&self) -> (res: Self)
        ensures
            res == *self,
    {
        ConnectionId { id: self.id.clone() }
    }
}

impl ConnectionId {
    /// Wrap a raw connection id string.
    pub fn new(id: String) -> (c: ConnectionId)
        ensures
            c == (ConnectionId { id }),
            c@ == id@,
    {
        ConnectionId { id }
    }
}

/// A channel identifier, such as `channel-12`.
#[derive(Debug, PartialEq, Eq, Hash)]
pub struct ChannelId {
    pub id: String,
}

impl View for ChannelId {
    type V = Seq<char>;

    open spec fn view(&self) -> Seq<char> {
        self.id@
    }
}

impl Clone for ChannelId {
    fn clone(&self) -> (res: Self)
        ensures
            res == *self,
    {
        ChannelId { id: self.id.clone() }
    }
}

impl ChannelId {
    /// Wrap a raw channel id string.
    pub fn new(id: String) -> (c: ChannelId)
        ensures
            c == (ChannelId { id }),
            c@ == id@,
    {
        ChannelId { id }
    }
}

/// A port identifier, such as `transfer`.
#[derive(Debug, PartialEq, Eq, Hash)]
pub struct PortId {
    pub id: String,
}

impl View for PortId {
    type V = Seq<char>;

    open spec fn view(&self) -> Seq<char> {
        self.id@
    }
}

impl Clone for PortId {
    fn clone(&self) -> (res: Self)
        ensures
            res == *self,
    {
        PortId { id: self.id.clone() }
    }
}

impl PortId {
    /// Wrap a raw port id string.
    pub fn new(id: String) -> (c: PortId)
        ensures
            c == (PortId { id }),
            c@ == id@,
    {
        PortId { id }
    }
}

/// The tag naming a light-client implementation, as the downstream relayer
/// knows it (`cometbls`, `tendermint`, ...): an opaque string.
#[derive(Debug, PartialEq, Eq, Hash)]
pub struct ClientType {
    pub ty: String,
}

impl View for ClientType {
    type V = Seq<char>;

    open spec fn view(&self) -> Seq<char> {
        self.ty@
    }
}

impl Clone for ClientType {
    fn clone(&self) -> (res: Self)
        ensures
            res == *self,
    {
        ClientType { ty: self.ty.clone() }
    }
}

impl ClientType {
    /// Wrap a raw client type tag.
    pub fn new(ty: String) -> (c: ClientType)
        ensures
            c == (ClientType { ty }),
            c@ == ty@,
    {
        ClientType { ty }
    }
}

/// The light-client implementation embedded in a wasm code blob, parsed out
/// of the blob's contents. The set is closed: a blob either declares one of
/// these implementations or is not a recognized wasm light client at all.
#[derive(Clone, Copy, PartialEq, Eq, Structural, Debug)]
pub enum WasmClientType {
    Cometbls,
    Tendermint,
    Arbitrum,
    Berachain,
    EthereumMinimal,
    EthereumMainnet,
}

impl WasmClientType {
    /// A distinct numeric code for each implementation tag, fit for use as
    /// a plain map value.
    pub open spec fn spec_code(self) -> u64 {
        match self {
            WasmClientType::Cometbls => 0,
            WasmClientType::Tendermint => 1,
            WasmClientType::Arbitrum => 2,
            WasmClientType::Berachain => 3,
            WasmClientType::EthereumMinimal => 4,
            WasmClientType::EthereumMainnet => 5,
        }
    }

    /// Encode the tag as its numeric code.
    pub fn code(self) -> (c: u64)
        ensures
            c == self.spec_code(),
    {
        match self {
            WasmClientType::Cometbls => 0,
            WasmClientType::Tendermint => 1,
            WasmClientType::Arbitrum => 2,
            WasmClientType::Berachain => 3,
            WasmClientType::EthereumMinimal => 4,
            WasmClientType::EthereumMainnet => 5,
        }
    }

    /// The tag a numeric code stands for: the inverse of [`Self::spec_code`],
    /// defined exactly on the codes some tag encodes to.
    pub open spec fn spec_from_code(c: u64) -> Option<WasmClientType> {
        if c == 0 {
            Some(WasmClientType::Cometbls)
        } else if c == 1 {
            Some(WasmClientType::Tendermint)
        } else if c == 2 {
            Some(WasmClientType::Arbitrum)
        } else if c == 3 {
            Some(WasmClientType::Berachain)
        } else if c == 4 {
            Some(WasmClientType::EthereumMinimal)
        } else if c == 5 {
            Some(WasmClientType::EthereumMainnet)
        } else {
            None
        }
    }

    /// Decode a numeric code back into the tag it stands for. Returns the
    /// tag exactly for codes that some tag encodes to, and nothing for all
    /// other codes.
    pub fn from_code(c: u64) -> (r: Option<WasmClientType>)
        ensures
            r == Self::spec_from_code(c),
            r matches Some(t) ==> t.spec_code() == c,
    {
        match c {
            0 => Some(WasmClientType::Cometbls),
            1 => Some(WasmClientType::Tendermint),
            2 => Some(WasmClientType::Arbitrum),
            3 => Some(WasmClientType::Berachain),
            4 => Some(WasmClientType::EthereumMinimal),
            5 => Some(WasmClientType::EthereumMainnet),
            _ => None,
        }
    }
}

} // verus!
