//! The commitment root of a block: a 32-byte hash, validated from its wire
//! form.

use vstd::prelude::*;

use crate::ids::{InvalidLength, H256, HASH_LEN};

verus! {

/// A commitment root: the root hash of the chain's state commitment tree.
#[derive(Clone, Debug, PartialEq, Eq)]
pub struct MerkleRoot {
    pub hash: H256,
}

/// The wire form of a commitment root: a bare byte string of unchecked
/// length.
#[derive(Clone, Debug, PartialEq, Eq)]
pub struct RawMerkleRoot {
    pub hash: Vec<u8>,
}

/// Why a wire commitment root was rejected.
#[derive(Clone, Copy, PartialEq, Eq, Structural, Debug)]
pub enum TryFromMerkleRootError {
    Hash(InvalidLength),
}

impl MerkleRoot {
    /// Wrap a hash as a commitment root.
    pub fn from_hash(hash: H256) -> (r: MerkleRoot)
        ensures
            r.hash@ == hash@,
    {
        MerkleRoot { hash }
    }

    /// Validate a wire commitment root. Succeeds exactly when the byte
    /// string holds 32 bytes, and then carries them over unchanged.
    pub fn try_from_raw(raw: RawMerkleRoot) -> (r: Result<MerkleRoot, TryFromMerkleRootError>)
        ensures
            raw.hash@.len() == HASH_LEN ==> (r matches Ok(root) && root.hash@ == raw.hash@
                && root.hash.wf()),
            raw.hash@.len() != HASH_LEN ==> r == Err::<MerkleRoot, TryFromMerkleRootError>(
                TryFromMerkleRootError::Hash(InvalidLength {
                    expected: HASH_LEN,
                    found: raw.hash@.len() as usize,
                }),
            ),
    {
        match H256::try_from_bytes(raw.hash) {
            Ok(hash) => Ok(MerkleRoot { hash }),
            Err(e) => Err(TryFromMerkleRootError::Hash(e)),
        }
    }

    /// The wire form of this commitment root.
    pub fn into_raw(self) -> (r: RawMerkleRoot)
        ensures
            r.hash@ == self.hash@,
    {
        RawMerkleRoot { hash: self.hash.bytes }
    }
}

} // verus!
