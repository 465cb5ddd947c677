use cosmos_event_source::consensus_state::{
    ConsensusState, Error, MissingField, RawConsensusState, SolConsensusState,
};
use cosmos_event_source::ids::{InvalidLength, H256};
use cosmos_event_source::merkle_root::{MerkleRoot, RawMerkleRoot, TryFromMerkleRootError};
use cosmos_event_source::timestamp::{RawTimestamp, Timestamp, TryFromTimestampError};

fn raw_ok() -> RawConsensusState {
    RawConsensusState {
        timestamp: Some(RawTimestamp {
            seconds: 1700000000,
            nanos: 123456789,
        }),
        root: Some(RawMerkleRoot {
            hash: vec![7u8; 32],
        }),
        next_validators_hash: vec![9u8; 32],
    }
}

#[test]
fn consensus_state_round_trip_through_raw() {
    let cs = ConsensusState::try_from_raw(raw_ok()).unwrap();
    assert_eq!(cs.timestamp.seconds, 1700000000);
    assert_eq!(cs.timestamp.nanos, 123456789);
    assert_eq!(cs.root.hash.bytes, vec![7u8; 32]);
    assert_eq!(cs.next_validators_hash.bytes, vec![9u8; 32]);

    let raw = cs.into_raw();
    assert_eq!(raw, raw_ok());
}

#[test]
fn consensus_state_missing_timestamp() {
    let mut raw = raw_ok();
    raw.timestamp = None;
    assert_eq!(
        ConsensusState::try_from_raw(raw),
        Err(Error::MissingField(MissingField::Timestamp))
    );
}

#[test]
fn consensus_state_missing_root() {
    let mut raw = raw_ok();
    raw.root = None;
    assert_eq!(
        ConsensusState::try_from_raw(raw),
        Err(Error::MissingField(MissingField::Root))
    );
}

#[test]
fn consensus_state_timestamp_out_of_range() {
    let mut raw = raw_ok();
    raw.timestamp = Some(RawTimestamp {
        seconds: 253402300800,
        nanos: 0,
    });
    assert_eq!(
        ConsensusState::try_from_raw(raw),
        Err(Error::Timestamp(TryFromTimestampError {
            seconds: 253402300800,
            nanos: 0,
        }))
    );
}

#[test]
fn consensus_state_bad_root_length() {
    let mut raw = raw_ok();
    raw.root = Some(RawMerkleRoot {
        hash: vec![7u8; 31],
    });
    assert_eq!(
        ConsensusState::try_from_raw(raw),
        Err(Error::Root(TryFromMerkleRootError::Hash(InvalidLength {
            expected: 32,
            found: 31,
        })))
    );
}

#[test]
fn consensus_state_bad_validators_hash_length() {
    let mut raw = raw_ok();
    raw.next_validators_hash = vec![9u8; 33];
    assert_eq!(
        ConsensusState::try_from_raw(raw),
        Err(Error::NextValidatorsHash(InvalidLength {
            expected: 32,
            found: 33,
        }))
    );
}

#[test]
fn consensus_state_sol_round_trip() {
    let cs = ConsensusState::try_from_raw(raw_ok()).unwrap();
    let expected = cs.clone();
    let sol = cs.into_sol();
    assert_eq!(sol.timestamp, 1700000000u64 * 1_000_000_000 + 123456789);
    let back = ConsensusState::from_sol(sol);
    assert_eq!(back, expected);
}

#[test]
fn sol_consensus_state_every_nanosecond_count_is_valid() {
    let sol = SolConsensusState {
        timestamp: u64::MAX,
        root: H256::try_from_bytes(vec![1u8; 32]).unwrap(),
        next_validators_hash: H256::try_from_bytes(vec![2u8; 32]).unwrap(),
    };
    let cs = ConsensusState::from_sol(sol);
    assert_eq!(cs.timestamp.seconds, (u64::MAX / 1_000_000_000) as i64);
    assert_eq!(cs.timestamp.nanos, (u64::MAX % 1_000_000_000) as i32);
}

#[test]
fn timestamp_from_unix_nanos_splits_exactly() {
    let t = Timestamp::from_unix_nanos(1_500_000_000);
    assert_eq!(t.seconds, 1);
    assert_eq!(t.nanos, 500_000_000);
}

#[test]
fn timestamp_rejects_negative_nanos() {
    assert_eq!(
        Timestamp::try_from_raw(RawTimestamp {
            seconds: 5,
            nanos: -1,
        }),
        Err(TryFromTimestampError {
            seconds: 5,
            nanos: -1,
        })
    );
}

#[test]
fn merkle_root_rejects_short_hash() {
    assert_eq!(
        MerkleRoot::try_from_raw(RawMerkleRoot { hash: vec![1u8; 5] }),
        Err(TryFromMerkleRootError::Hash(InvalidLength {
            expected: 32,
            found: 5,
        }))
    );
}

#[test]
fn merkle_root_keeps_bytes() {
    let root = MerkleRoot::try_from_raw(RawMerkleRoot {
        hash: vec![3u8; 32],
    })
    .unwrap();
    assert_eq!(root.hash.bytes, vec![3u8; 32]);
    assert_eq!(root.into_raw().hash, vec![3u8; 32]);
}

#[test]
fn h256_rejects_wrong_length() {
    assert_eq!(
        H256::try_from_bytes(vec![0u8; 20]),
        Err(InvalidLength {
            expected: 32,
            found: 20,
        })
    );
}
