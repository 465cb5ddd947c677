//! Event-sourcing core of a cross-chain relayer.
//!
//! The library turns chain-native transaction events into canonical,
//! chain-agnostic event records, drives the per-chain fetch/page/advance
//! state machine, and provides the operation algebra that pending relayer
//! work is scheduled on. Chain I/O (RPC and gRPC queries) is performed by
//! the surrounding process; every decision taken on the answers is made
//! and proved here.

pub mod cache;
pub mod call;
pub mod chain_event;
pub mod consensus_state;
pub mod ethereum;
pub mod events;
pub mod fetch;
pub mod height;
pub mod ibc_classic;
pub mod ibc_union;
pub mod ids;
pub mod merkle_root;
pub mod module;
pub mod op;
pub mod resolve;
pub mod timestamp;

pub use height::Height;
