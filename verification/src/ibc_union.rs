//! The canonical shape of union-vocabulary events, and the on-chain state
//! objects their resolution reads. Union events name their subjects by
//! numeric identifiers, so resolution is flatter than for the classic
//! vocabulary.

use vstd::prelude::*;

verus! {

/// A union connection end as stored on this chain.
#[derive(Clone, Copy, PartialEq, Eq, Structural, Debug)]
pub struct Connection {
    pub client_id: u32,
    pub counterparty_client_id: u32,
    pub counterparty_connection_id: u32,
}

/// A union channel end as stored on this chain: the fields resolution
/// reads.
#[derive(Clone, Debug, PartialEq, Eq)]
pub struct Channel {
    pub connection_id: u32,
    pub version: String,
}

/// The connection a union channel runs over, as the canonical record
/// reports it.
#[derive(Clone, Copy, PartialEq, Eq, Structural, Debug)]
pub struct ConnectionMetadata {
    pub client_id: u32,
    pub connection_id: u32,
}

/// One side of a union channel, as the canonical record reports it.
#[derive(Clone, Debug, PartialEq, Eq)]
pub struct ChannelMetadata {
    pub channel_id: u32,
    pub version: String,
    pub connection: ConnectionMetadata,
}

/// A union packet in flight: both channel sides and its timeout bounds.
#[derive(Clone, Debug, PartialEq, Eq)]
pub struct PacketMetadata {
    pub source_channel: ChannelMetadata,
    pub destination_channel: ChannelMetadata,
    pub timeout_height: u64,
    pub timeout_timestamp: u64,
}

/// Canonical union client creation.
#[derive(Clone, Debug, PartialEq, Eq)]
pub struct CreateClient {
    pub client_id: u32,
    pub client_type: crate::ids::ClientType,
}

/// Canonical union client update.
#[derive(Clone, Debug, PartialEq, Eq)]
pub struct UpdateClient {
    pub client_id: u32,
    pub client_type: crate::ids::ClientType,
    pub height: u64,
}

/// Canonical union connection handshake, first step.
#[derive(Clone, Copy, PartialEq, Eq, Structural, Debug)]
pub struct ConnectionOpenInit {
    pub client_id: u32,
    pub connection_id: u32,
    pub counterparty_client_id: u32,
}

/// Canonical union connection handshake, second step.
#[derive(Clone, Copy, PartialEq, Eq, Structural, Debug)]
pub struct ConnectionOpenTry {
    pub connection_id: u32,
    pub counterparty_connection_id: u32,
    pub client_id: u32,
    pub counterparty_client_id: u32,
}

/// Canonical union connection handshake, third step.
#[derive(Clone, Copy, PartialEq, Eq, Structural, Debug)]
pub struct ConnectionOpenAck {
    pub connection_id: u32,
    pub counterparty_connection_id: u32,
    pub client_id: u32,
    pub counterparty_client_id: u32,
}

/// Canonical union connection handshake, final step.
#[derive(Clone, Copy, PartialEq, Eq, Structural, Debug)]
pub struct ConnectionOpenConfirm {
    pub connection_id: u32,
    pub counterparty_connection_id: u32,
    pub client_id: u32,
    pub counterparty_client_id: u32,
}

/// Canonical union channel handshake, second step.
#[derive(Clone, Debug, PartialEq, Eq)]
pub struct ChannelOpenTry {
    pub port_id: Vec<u8>,
    pub channel_id: u32,
    pub counterparty_port_id: Vec<u8>,
    pub counterparty_channel_id: u32,
    pub connection: Connection,
    pub version: String,
}

/// Canonical union channel handshake, final step.
#[derive(Clone, Debug, PartialEq, Eq)]
pub struct ChannelOpenConfirm {
    pub port_id: Vec<u8>,
    pub channel_id: u32,
    pub counterparty_port_id: Vec<u8>,
    pub counterparty_channel_id: u32,
    pub connection: Connection,
    pub version: String,
}

/// Canonical union packet sent.
#[derive(Clone, Debug, PartialEq, Eq)]
pub struct PacketSend {
    pub packet_data: Vec<u8>,
    pub packet: PacketMetadata,
}

/// A canonical event of the union vocabulary.
#[derive(Clone, Debug, PartialEq, Eq)]
pub enum FullEvent {
    CreateClient(CreateClient),
    UpdateClient(UpdateClient),
    ConnectionOpenInit(ConnectionOpenInit),
    ConnectionOpenTry(ConnectionOpenTry),
    ConnectionOpenAck(ConnectionOpenAck),
    ConnectionOpenConfirm(ConnectionOpenConfirm),
    ChannelOpenTry(ChannelOpenTry),
    ChannelOpenConfirm(ChannelOpenConfirm),
    PacketSend(PacketSend),
}

} // verus!
