//! The tendermint light client's consensus state: the record a counterparty
//! keeps of one verified header, validated from its wire form and mapped to
//! and from its Solidity-ABI shape.

use vstd::prelude::*;

use crate::ids::{InvalidLength, H256, HASH_LEN};
use crate::merkle_root::{MerkleRoot, RawMerkleRoot, TryFromMerkleRootError};
use crate::timestamp::{RawTimestamp, Timestamp, TryFromTimestampError, NANOS_PER_SECOND};

verus! {

/// One verified header's digest: when it was produced, the state root it
/// commits to, and the hash of the validator set that signs the next block.
#[derive(Clone, Debug, PartialEq, Eq)]
pub struct ConsensusState {
    pub timestamp: Timestamp,
    pub root: MerkleRoot,
    pub next_validators_hash: H256,
}

/// The wire form of a consensus state: nested messages may be absent and
/// byte strings have unchecked lengths.
#[derive(Clone, Debug, PartialEq, Eq)]
pub struct RawConsensusState {
    pub timestamp: Option<RawTimestamp>,
    pub root: Option<RawMerkleRoot>,
    pub next_validators_hash: Vec<u8>,
}

/// The Solidity-ABI shape of a consensus state: a nanosecond timestamp and
/// two 32-byte words.
#[derive(Clone, Debug, PartialEq, Eq)]
pub struct SolConsensusState {
    pub timestamp: u64,
    pub root: H256,
    pub next_validators_hash: H256,
}

/// A required nested message that the wire form left empty.
#[derive(Clone, Copy, PartialEq, Eq, Structural, Debug)]
pub enum MissingField {
    Timestamp,
    Root,
}

/// Why a wire consensus state was rejected.
#[derive(Clone, Copy, PartialEq, Eq, Structural, Debug)]
pub enum Error {
    MissingField(MissingField),
    Root(TryFromMerkleRootError),
    NextValidatorsHash(InvalidLength),
    Timestamp(TryFromTimestampError),
}

impl ConsensusState {
    /// Both hashes hold exactly 32 bytes and the timestamp is in range.
    pub open spec fn wf(&self) -> bool {
        &&& self.timestamp.wf()
        &&& self.root.hash.wf()
        &&& self.next_validators_hash.wf()
    }

    /// The wire timestamp is present and in range.
    pub open spec fn spec_timestamp_ok(raw: RawConsensusState) -> bool {
        raw.timestamp is Some && Timestamp::spec_in_range(raw.timestamp->0)
    }

    /// The wire root is present and holds 32 bytes.
    pub open spec fn spec_root_ok(raw: RawConsensusState) -> bool {
        raw.root is Some && raw.root->0.hash@.len() == HASH_LEN
    }

    /// Validate a wire consensus state.
    ///
    /// Succeeds exactly when the timestamp is present and in range, the
    /// root is present and holds 32 bytes, and the validator-set hash holds
    /// 32 bytes; fields are carried over unchanged. The first failure, in
    /// that order, names the error.
    pub fn try_from_raw(raw: RawConsensusState) -> (r: Result<ConsensusState, Error>)
        ensures
            raw.timestamp is None ==> r == Err::<ConsensusState, Error>(Error::MissingField(
                MissingField::Timestamp,
            )),
            raw.timestamp is Some && !Timestamp::spec_in_range(raw.timestamp->0) ==> r == Err::<
                ConsensusState,
                Error,
            >(Error::Timestamp(TryFromTimestampError {
                seconds: raw.timestamp->0.seconds,
                nanos: raw.timestamp->0.nanos,
            })),
            Self::spec_timestamp_ok(raw) && raw.root is None ==> r == Err::<ConsensusState, Error>(
                Error::MissingField(MissingField::Root),
            ),
            Self::spec_timestamp_ok(raw) && raw.root is Some && raw.root->0.hash@.len() != HASH_LEN
                ==> r == Err::<ConsensusState, Error>(Error::Root(TryFromMerkleRootError::Hash(
                InvalidLength { expected: HASH_LEN, found: raw.root->0.hash@.len() as usize },
            ))),
            Self::spec_timestamp_ok(raw) && Self::spec_root_ok(raw) && raw.next_validators_hash@.len()
                != HASH_LEN ==> r == Err::<ConsensusState, Error>(Error::NextValidatorsHash(
                InvalidLength { expected: HASH_LEN, found: raw.next_validators_hash@.len() as usize },
            )),
            Self::spec_timestamp_ok(raw) && Self::spec_root_ok(raw) && raw.next_validators_hash@.len()
                == HASH_LEN ==> (r matches Ok(cs) && cs.timestamp == (Timestamp {
                seconds: raw.timestamp->0.seconds,
                nanos: raw.timestamp->0.nanos,
            }) && cs.root.hash@ == raw.root->0.hash@ && cs.next_validators_hash@
                == raw.next_validators_hash@ && cs.wf()),
    {
        let timestamp = match raw.timestamp {
            None => {
                return Err(Error::MissingField(MissingField::Timestamp));
            },
            Some(ts) => match Timestamp::try_from_raw(ts) {
                Ok(t) => t,
                Err(e) => {
                    return Err(Error::Timestamp(e));
                },
            },
        };
        let root = match raw.root {
            None => {
                return Err(Error::MissingField(MissingField::Root));
            },
            Some(rr) => match MerkleRoot::try_from_raw(rr) {
                Ok(root) => root,
                Err(e) => {
                    return Err(Error::Root(e));
                },
            },
        };
        let next_validators_hash = match H256::try_from_bytes(raw.next_validators_hash) {
            Ok(h) => h,
            Err(e) => {
                return Err(Error::NextValidatorsHash(e));
            },
        };
        Ok(ConsensusState { timestamp, root, next_validators_hash })
    }

    /// The wire form of this consensus state. Every field is present in the
    /// result and carried over unchanged.
    pub fn into_raw(self) -> (r: RawConsensusState)
        ensures
            r.timestamp == Some(RawTimestamp {
                seconds: self.timestamp.seconds,
                nanos: self.timestamp.nanos,
            }),
            r.root matches Some(root) && root.hash@ == self.root.hash@,
            r.next_validators_hash@ == self.next_validators_hash@,
    {
        RawConsensusState {
            timestamp: Some(RawTimestamp {
                seconds: self.timestamp.seconds,
                nanos: self.timestamp.nanos,
            }),
            root: Some(self.root.into_raw()),
            next_validators_hash: self.next_validators_hash.bytes,
        }
    }

    /// Map this consensus state onto its Solidity-ABI shape: the timestamp
    /// collapses to a nanosecond count, the two hashes are carried over
    /// unchanged.
    pub fn into_sol(self) -> (r: SolConsensusState)
        requires
            self.timestamp.wf(),
            self.timestamp.seconds >= 0,
            self.timestamp.seconds * NANOS_PER_SECOND + self.timestamp.nanos <= u64::MAX,
        ensures
            r.timestamp == self.timestamp.seconds * NANOS_PER_SECOND + self.timestamp.nanos,
            r.root@ == self.root.hash@,
            r.next_validators_hash@ == self.next_validators_hash@,
    {
        SolConsensusState {
            timestamp: self.timestamp.as_unix_nanos(),
            root: self.root.hash,
            next_validators_hash: self.next_validators_hash,
        }
    }

    /// Recover a consensus state from its Solidity-ABI shape. Total: every
    /// nanosecond count a 64-bit word can hold names a valid timestamp, so
    /// nothing can fail.
    pub fn from_sol(value: SolConsensusState) -> (r: ConsensusState)
        ensures
            r.timestamp.seconds == value.timestamp / NANOS_PER_SECOND,
            r.timestamp.nanos == value.timestamp % NANOS_PER_SECOND,
            r.timestamp.wf(),
            r.root.hash@ == value.root@,
            r.next_validators_hash@ == value.next_validators_hash@,
    {
        ConsensusState {
            timestamp: Timestamp::from_unix_nanos(value.timestamp),
            root: MerkleRoot::from_hash(value.root),
            next_validators_hash: value.next_validators_hash,
        }
    }
}

} // verus!
