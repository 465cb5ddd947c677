//! The canonical shape of classic-vocabulary events, and the on-chain
//! state objects their resolution reads.

use vstd::prelude::*;

use crate::events::Order;
use crate::height::Height;
use crate::ids::{ChannelId, ClientId, ConnectionId, PortId};

verus! {

/// The counterparty half of a connection end. The counterparty connection
/// id is unset while the handshake is still in its first step.
#[derive(Clone, Debug, PartialEq, Eq)]
pub struct ConnectionCounterparty {
    pub client_id: ClientId,
    pub connection_id: Option<ConnectionId>,
}

/// A connection end as stored on this chain.
#[derive(Clone, Debug, PartialEq, Eq)]
pub struct ConnectionEnd {
    pub client_id: ClientId,
    pub counterparty: ConnectionCounterparty,
}

/// A channel end as stored on a chain: the fields resolution reads.
#[derive(Clone, Debug, PartialEq, Eq)]
pub struct Channel {
    pub ordering: Order,
    pub version: String,
}

/// The connection a channel runs over, as the canonical record reports it.
#[derive(Clone, Debug, PartialEq, Eq)]
pub struct ConnectionMetadata {
    pub client_id: ClientId,
    pub connection_id: ConnectionId,
}

/// One side of a channel, as the canonical record reports it.
#[derive(Clone, Debug, PartialEq, Eq)]
pub struct ChannelMetadata {
    pub port_id: PortId,
    pub channel_id: ChannelId,
    pub version: String,
    pub connection: ConnectionMetadata,
}

/// A packet in flight: its global identity and both channel sides, source
/// first, whatever native event reported it.
#[derive(Clone, Debug, PartialEq, Eq)]
pub struct PacketMetadata {
    pub sequence: u64,
    pub source_channel: ChannelMetadata,
    pub destination_channel: ChannelMetadata,
    pub channel_ordering: Order,
    pub timeout_height: Height,
    pub timeout_timestamp: u64,
}

/// Canonical classic client creation.
#[derive(Clone, Debug, PartialEq, Eq)]
pub struct CreateClient {
    pub client_id: ClientId,
    pub client_type: crate::ids::ClientType,
    pub consensus_height: Height,
}

/// Canonical classic client update.
#[derive(Clone, Debug, PartialEq, Eq)]
pub struct UpdateClient {
    pub client_id: ClientId,
    pub client_type: crate::ids::ClientType,
    pub consensus_heights: Vec<Height>,
}

/// Canonical classic connection handshake, first step.
#[derive(Clone, Debug, PartialEq, Eq)]
pub struct ConnectionOpenInit {
    pub client_id: ClientId,
    pub connection_id: ConnectionId,
    pub counterparty_client_id: ClientId,
}

/// Canonical classic connection handshake, second step.
#[derive(Clone, Debug, PartialEq, Eq)]
pub struct ConnectionOpenTry {
    pub client_id: ClientId,
    pub connection_id: ConnectionId,
    pub counterparty_client_id: ClientId,
    pub counterparty_connection_id: ConnectionId,
}

/// Canonical classic connection handshake, third step.
#[derive(Clone, Debug, PartialEq, Eq)]
pub struct ConnectionOpenAck {
    pub client_id: ClientId,
    pub connection_id: ConnectionId,
    pub counterparty_client_id: ClientId,
    pub counterparty_connection_id: ConnectionId,
}

/// Canonical classic connection handshake, final step.
#[derive(Clone, Debug, PartialEq, Eq)]
pub struct ConnectionOpenConfirm {
    pub client_id: ClientId,
    pub connection_id: ConnectionId,
    pub counterparty_client_id: ClientId,
    pub counterparty_connection_id: ConnectionId,
}

/// Canonical classic channel handshake, first step.
#[derive(Clone, Debug, PartialEq, Eq)]
pub struct ChannelOpenInit {
    pub port_id: PortId,
    pub channel_id: ChannelId,
    pub counterparty_port_id: PortId,
    pub connection: ConnectionEnd,
    pub version: String,
}

/// Canonical classic channel handshake, second step.
#[derive(Clone, Debug, PartialEq, Eq)]
pub struct ChannelOpenTry {
    pub port_id: PortId,
    pub channel_id: ChannelId,
    pub counterparty_port_id: PortId,
    pub counterparty_channel_id: ChannelId,
    pub connection: ConnectionEnd,
    pub version: String,
}

/// Canonical classic channel handshake, third step.
#[derive(Clone, Debug, PartialEq, Eq)]
pub struct ChannelOpenAck {
    pub port_id: PortId,
    pub channel_id: ChannelId,
    pub counterparty_port_id: PortId,
    pub counterparty_channel_id: ChannelId,
    pub connection: ConnectionEnd,
    pub version: String,
}

/// Canonical classic channel handshake, final step.
#[derive(Clone, Debug, PartialEq, Eq)]
pub struct ChannelOpenConfirm {
    pub port_id: PortId,
    pub channel_id: ChannelId,
    pub counterparty_port_id: PortId,
    pub counterparty_channel_id: ChannelId,
    pub connection: ConnectionEnd,
    pub version: String,
}

/// Canonical classic packet sent.
#[derive(Clone, Debug, PartialEq, Eq)]
pub struct SendPacket {
    pub packet_data: Vec<u8>,
    pub packet: PacketMetadata,
}

/// Canonical classic packet received.
#[derive(Clone, Debug, PartialEq, Eq)]
pub struct RecvPacket {
    pub packet_data: Vec<u8>,
    pub packet: PacketMetadata,
}

/// Canonical classic acknowledgement written.
#[derive(Clone, Debug, PartialEq, Eq)]
pub struct WriteAcknowledgement {
    pub packet_data: Vec<u8>,
    pub packet_ack: Vec<u8>,
    pub packet: PacketMetadata,
}

/// Canonical classic acknowledgement received.
#[derive(Clone, Debug, PartialEq, Eq)]
pub struct AcknowledgePacket {
    pub packet: PacketMetadata,
}

/// Canonical classic packet timeout.
#[derive(Clone, Debug, PartialEq, Eq)]
pub struct TimeoutPacket {
    pub packet: PacketMetadata,
}

/// A canonical event of the classic vocabulary.
#[derive(Clone, Debug, PartialEq, Eq)]
pub enum FullEvent {
    CreateClient(CreateClient),
    UpdateClient(UpdateClient),
    ConnectionOpenInit(ConnectionOpenInit),
    ConnectionOpenTry(ConnectionOpenTry),
    ConnectionOpenAck(ConnectionOpenAck),
    ConnectionOpenConfirm(ConnectionOpenConfirm),
    ChannelOpenInit(ChannelOpenInit),
    ChannelOpenTry(ChannelOpenTry),
    ChannelOpenAck(ChannelOpenAck),
    ChannelOpenConfirm(ChannelOpenConfirm),
    SendPacket(SendPacket),
    RecvPacket(RecvPacket),
    WriteAcknowledgement(WriteAcknowledgement),
    AcknowledgePacket(AcknowledgePacket),
    TimeoutPacket(TimeoutPacket),
}

} // verus!
