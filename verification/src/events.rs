//! Chain-native IBC events, exactly as decoded from a transaction's logs.
//!
//! Two disjoint vocabularies share this enum: the legacy "classic" event
//! set, whose events name their subjects by string identifiers, and the
//! newer "union" event set, whose events carry numeric identifiers
//! directly. Every variant is terminal input for the canonicalizer.

use vstd::prelude::*;

use crate::height::Height;
use crate::ids::{ChannelId, ClientId, ConnectionId, PortId, H256};

verus! {

/// The ordering discipline of a classic channel.
#[derive(Clone, Copy, PartialEq, Eq, Structural, Debug)]
pub enum Order {
    NoneUnspecified,
    Unordered,
    Ordered,
}

/// Classic client creation.
#[derive(Clone, Debug, PartialEq, Eq)]
pub struct CreateClient {
    pub client_id: ClientId,
    pub client_type: String,
    pub consensus_height: Height,
}

/// Classic client update.
#[derive(Clone, Debug, PartialEq, Eq)]
pub struct UpdateClient {
    pub client_id: ClientId,
    pub client_type: String,
    pub consensus_heights: Vec<Height>,
}

/// Classic client misbehaviour report.
#[derive(Clone, Debug, PartialEq, Eq)]
pub struct ClientMisbehaviour {
    pub client_id: ClientId,
    pub client_type: String,
    pub consensus_height: Height,
}

/// Evidence submission. Carries only a hash: not enough context to build a
/// canonical record, so the canonicalizer reports it as unsupported.
#[derive(Clone, Debug, PartialEq, Eq)]
pub struct SubmitEvidence {
    pub evidence_hash: H256,
}

/// Classic connection handshake, first step.
#[derive(Clone, Debug, PartialEq, Eq)]
pub struct ConnectionOpenInit {
    pub connection_id: ConnectionId,
    pub client_id: ClientId,
    pub counterparty_client_id: ClientId,
}

/// Classic connection handshake, second step.
#[derive(Clone, Debug, PartialEq, Eq)]
pub struct ConnectionOpenTry {
    pub connection_id: ConnectionId,
    pub client_id: ClientId,
    pub counterparty_client_id: ClientId,
    pub counterparty_connection_id: ConnectionId,
}

/// Classic connection handshake, third step.
#[derive(Clone, Debug, PartialEq, Eq)]
pub struct ConnectionOpenAck {
    pub connection_id: ConnectionId,
    pub client_id: ClientId,
    pub counterparty_client_id: ClientId,
    pub counterparty_connection_id: ConnectionId,
}

/// Classic connection handshake, final step.
#[derive(Clone, Debug, PartialEq, Eq)]
pub struct ConnectionOpenConfirm {
    pub connection_id: ConnectionId,
    pub client_id: ClientId,
    pub counterparty_client_id: ClientId,
    pub counterparty_connection_id: ConnectionId,
}

/// Classic channel handshake, first step.
#[derive(Clone, Debug, PartialEq, Eq)]
pub struct ChannelOpenInit {
    pub port_id: PortId,
    pub channel_id: ChannelId,
    pub counterparty_port_id: PortId,
    pub connection_id: ConnectionId,
    pub version: String,
}

/// Classic channel handshake, second step.
#[derive(Clone, Debug, PartialEq, Eq)]
pub struct ChannelOpenTry {
    pub port_id: PortId,
    pub channel_id: ChannelId,
    pub counterparty_port_id: PortId,
    pub counterparty_channel_id: ChannelId,
    pub connection_id: ConnectionId,
    pub version: String,
}

/// Classic channel handshake, third step.
#[derive(Clone, Debug, PartialEq, Eq)]
pub struct ChannelOpenAck {
    pub port_id: PortId,
    pub channel_id: ChannelId,
    pub counterparty_port_id: PortId,
    pub counterparty_channel_id: ChannelId,
    pub connection_id: ConnectionId,
}

/// Classic channel handshake, final step.
#[derive(Clone, Debug, PartialEq, Eq)]
pub struct ChannelOpenConfirm {
    pub port_id: PortId,
    pub channel_id: ChannelId,
    pub counterparty_port_id: PortId,
    pub counterparty_channel_id: ChannelId,
    pub connection_id: ConnectionId,
}

/// The packet fields every classic packet event carries: global identities
/// of the packet, named from the packet's own point of view.
#[derive(Clone, Debug, PartialEq, Eq)]
pub struct PacketFields {
    pub packet_sequence: u64,
    pub packet_src_port: PortId,
    pub packet_src_channel: ChannelId,
    pub packet_dst_port: PortId,
    pub packet_dst_channel: ChannelId,
    pub packet_timeout_height: Height,
    pub packet_timeout_timestamp: u64,
    pub connection_id: ConnectionId,
}

/// Classic packet sent from this chain.
#[derive(Clone, Debug, PartialEq, Eq)]
pub struct SendPacket {
    pub packet_data_hex: Vec<u8>,
    pub packet: PacketFields,
}

/// Classic packet received on this chain.
#[derive(Clone, Debug, PartialEq, Eq)]
pub struct RecvPacket {
    pub packet_data_hex: Vec<u8>,
    pub packet: PacketFields,
}

/// Classic acknowledgement written on this chain for a received packet.
#[derive(Clone, Debug, PartialEq, Eq)]
pub struct WriteAcknowledgement {
    pub packet_data_hex: Vec<u8>,
    pub packet_ack_hex: Vec<u8>,
    pub packet: PacketFields,
}

/// Classic acknowledgement received back on this chain.
#[derive(Clone, Debug, PartialEq, Eq)]
pub struct AcknowledgePacket {
    pub packet: PacketFields,
}

/// Classic packet timed out on this chain.
#[derive(Clone, Debug, PartialEq, Eq)]
pub struct TimeoutPacket {
    pub packet: PacketFields,
}

/// Union client creation.
#[derive(Clone, Debug, PartialEq, Eq)]
pub struct UnionCreateClient {
    pub client_id: u32,
    pub client_type: String,
}

/// Union client update.
#[derive(Clone, Debug, PartialEq, Eq)]
pub struct UnionUpdateClient {
    pub client_id: u32,
    pub height: u64,
}

/// Union connection handshake, first step.
#[derive(Clone, Copy, PartialEq, Eq, Structural, Debug)]
pub struct UnionConnectionOpenInit {
    pub connection_id: u32,
    pub client_id: u32,
    pub counterparty_client_id: u32,
}

/// Union connection handshake, second step.
#[derive(Clone, Copy, PartialEq, Eq, Structural, Debug)]
pub struct UnionConnectionOpenTry {
    pub connection_id: u32,
    pub counterparty_connection_id: u32,
    pub client_id: u32,
    pub counterparty_client_id: u32,
}

/// Union connection handshake, third step.
#[derive(Clone, Copy, PartialEq, Eq, Structural, Debug)]
pub struct UnionConnectionOpenAck {
    pub connection_id: u32,
    pub counterparty_connection_id: u32,
    pub client_id: u32,
    pub counterparty_client_id: u32,
}

/// Union connection handshake, final step.
#[derive(Clone, Copy, PartialEq, Eq, Structural, Debug)]
pub struct UnionConnectionOpenConfirm {
    pub connection_id: u32,
    pub counterparty_connection_id: u32,
    pub client_id: u32,
    pub counterparty_client_id: u32,
}

/// Union channel handshake, second step.
#[derive(Clone, Debug, PartialEq, Eq)]
pub struct UnionChannelOpenTry {
    pub port_id: Vec<u8>,
    pub channel_id: u32,
    pub counterparty_port_id: Vec<u8>,
    pub counterparty_channel_id: u32,
    pub connection_id: u32,
    pub counterparty_version: String,
}

/// Union channel handshake, final step.
#[derive(Clone, Debug, PartialEq, Eq)]
pub struct UnionChannelOpenConfirm {
    pub port_id: Vec<u8>,
    pub channel_id: u32,
    pub counterparty_port_id: Vec<u8>,
    pub counterparty_channel_id: u32,
    pub connection_id: u32,
}

/// The packet a union send event carries.
#[derive(Clone, Debug, PartialEq, Eq)]
pub struct UnionPacket {
    pub source_channel: u32,
    pub destination_channel: u32,
    pub data: Vec<u8>,
    pub timeout_height: u64,
    pub timeout_timestamp: u64,
}

/// Union packet sent from this chain.
#[derive(Clone, Debug, PartialEq, Eq)]
pub struct UnionSendPacket {
    pub packet: UnionPacket,
}

/// A chain-native IBC event, from either vocabulary.
#[derive(Clone, Debug, PartialEq, Eq)]
pub enum IbcEvent {
    CreateClient(CreateClient),
    UpdateClient(UpdateClient),
    ClientMisbehaviour(ClientMisbehaviour),
    SubmitEvidence(SubmitEvidence),
    ConnectionOpenInit(ConnectionOpenInit),
    ConnectionOpenTry(ConnectionOpenTry),
    ConnectionOpenAck(ConnectionOpenAck),
    ConnectionOpenConfirm(ConnectionOpenConfirm),
    ChannelOpenInit(ChannelOpenInit),
    ChannelOpenTry(ChannelOpenTry),
    ChannelOpenAck(ChannelOpenAck),
    ChannelOpenConfirm(ChannelOpenConfirm),
    SendPacket(SendPacket),
    RecvPacket(RecvPacket),
    WriteAcknowledgement(WriteAcknowledgement),
    AcknowledgePacket(AcknowledgePacket),
    TimeoutPacket(TimeoutPacket),
    UnionCreateClient(UnionCreateClient),
    UnionUpdateClient(UnionUpdateClient),
    UnionConnectionOpenInit(UnionConnectionOpenInit),
    UnionConnectionOpenTry(UnionConnectionOpenTry),
    UnionConnectionOpenAck(UnionConnectionOpenAck),
    UnionConnectionOpenConfirm(UnionConnectionOpenConfirm),
    UnionChannelOpenTry(UnionChannelOpenTry),
    UnionChannelOpenConfirm(UnionChannelOpenConfirm),
    UnionSendPacket(UnionSendPacket),
}

} // verus!
