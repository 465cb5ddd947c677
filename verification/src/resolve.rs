//! The event canonicalizer and its auxiliary-state resolution.
//!
//! Resolving a native event needs on-chain context: which connection and
//! channel a packet belongs to, which client serves them, which chain that
//! client tracks. The queries themselves are chain I/O and happen outside;
//! [`Module::aux_plan`] says, for each event, what must be fetched, and
//! [`Module::make_chain_event`] takes the answers and assembles the
//! canonical record — all or nothing, per native event.

use vstd::prelude::*;

use crate::chain_event::{ChainEvent, ClientInfo, ClientMeta, FullEvent, IbcSpecId};
use crate::events;
use crate::events::{IbcEvent, Order, PacketFields};
use crate::height::Height;
use crate::ibc_classic;
use crate::ibc_classic::{Channel, ChannelMetadata, ConnectionEnd, ConnectionMetadata};
use crate::ibc_union;
use crate::ids::{ChainId, ChannelId, ClientId, ClientType, ConnectionId, PortId, H256};
use crate::module::Module;

verus! {

/// The per-client context every resolution ends at: which implementation
/// serves the client, and which chain the client tracks.
#[derive(Debug, PartialEq, Eq)]
pub struct ClientResolution {
    pub client_info: ClientInfo,
    pub client_meta: ClientMeta,
}

/// A classic connection end together with its client's context. Absent as
/// a whole when the connection state was not found at the asked height.
#[derive(Debug, PartialEq, Eq)]
pub struct ConnectionResolution {
    pub connection: ConnectionEnd,
    pub client: ClientResolution,
}

/// A union connection end together with its client's context.
#[derive(Debug, PartialEq, Eq)]
pub struct UnionConnectionResolution {
    pub connection: ibc_union::Connection,
    pub client: ClientResolution,
}

/// The on-chain context fetched for one native event, shaped by the
/// event's kind. Each `Option` is a state query's outcome: present when
/// the chain holds the state, absent when the path was not found.
#[derive(Debug, PartialEq, Eq)]
pub enum EventAux {
    /// For events resolved by a client lookup alone: classic and union
    /// client and connection-handshake events.
    Client(ClientResolution),
    /// For classic channel-handshake events that need only the owning
    /// connection.
    Connection(Option<ConnectionResolution>),
    /// For classic channel-handshake events that also read the channel
    /// end, for its version.
    ChannelHandshake(Option<ConnectionResolution>, Option<Channel>),
    /// For classic packet events: the connection, this chain's channel
    /// end, and the counterparty's channel end (queried at its latest
    /// height).
    Packet(Option<ConnectionResolution>, Option<Channel>, Option<Channel>),
    /// For the union channel-open try, which reads its connection.
    UnionConnection(Option<UnionConnectionResolution>),
    /// For the union channel-open confirm: the channel end, then its
    /// connection.
    UnionChannel(Option<ibc_union::Channel>, Option<UnionConnectionResolution>),
    /// For the union packet send: the source channel end, then its
    /// connection.
    UnionPacket(Option<ibc_union::Channel>, Option<UnionConnectionResolution>),
}

/// Which state object a resolution found missing.
#[derive(Clone, Copy, PartialEq, Eq, Structural, Debug)]
pub enum MissingStateKind {
    Connection,
    Channel,
    CounterpartyChannel,
}

/// Why a native event yielded no canonical record. Every variant aborts
/// only the branch resolving that one event.
#[derive(Clone, Copy, PartialEq, Eq, Structural, Debug)]
pub enum EventError {
    /// The event kind carries too little context to build a canonical
    /// record (evidence submission, client misbehaviour).
    Unsupported,
    /// A state object the event refers to was not found on chain.
    MissingState(MissingStateKind),
    /// A packet's connection does not name its counterparty connection
    /// yet, although a packet can only flow over an open connection.
    MissingCounterpartyConnectionId,
    /// The fetched context does not fit the event's kind: a usage defect
    /// in the caller.
    AuxMismatch,
}

/// The queries that must be answered before a native event can be made
/// canonical. State queries are at the event's height unless said
/// otherwise; each client id also stands for that client's info and meta.
#[derive(Debug, PartialEq, Eq)]
pub enum AuxPlan {
    /// No queries will help: the event kind is unsupported.
    Unsupported,
    /// Look up this classic client.
    Client { client_id: ClientId },
    /// Look up this union client.
    UnionClient { client_id: u32 },
    /// Fetch this classic connection end, then its client.
    Connection { connection_id: ConnectionId },
    /// Fetch this classic connection end and its client, and this channel
    /// end.
    ChannelHandshake { connection_id: ConnectionId, port_id: PortId, channel_id: ChannelId },
    /// Fetch this classic connection end and its client, this chain's
    /// channel end, and the other side's channel end at the counterparty
    /// chain's latest height. Which physical side is "self" already
    /// encodes the packet's direction.
    Packet {
        connection_id: ConnectionId,
        self_port_id: PortId,
        self_channel_id: ChannelId,
        other_port_id: PortId,
        other_channel_id: ChannelId,
    },
    /// Fetch this union connection end, then its client.
    UnionConnection { connection_id: u32 },
    /// Fetch this union channel end, then its connection and client.
    UnionChannel { channel_id: u32, connection_id: u32 },
    /// Fetch this union source channel end, then its connection and
    /// client.
    UnionPacketChannel { source_channel_id: u32 },
}

/// The queries [`Module::aux_plan`] answers for an event.
pub open spec fn spec_aux_plan(event: IbcEvent) -> AuxPlan {
    match event {
        IbcEvent::CreateClient(e) => AuxPlan::Client { client_id: e.client_id },
        IbcEvent::UpdateClient(e) => AuxPlan::Client { client_id: e.client_id },
        IbcEvent::ClientMisbehaviour(_) => AuxPlan::Unsupported,
        IbcEvent::SubmitEvidence(_) => AuxPlan::Unsupported,
        IbcEvent::ConnectionOpenInit(e) => AuxPlan::Client { client_id: e.client_id },
        IbcEvent::ConnectionOpenTry(e) => AuxPlan::Client { client_id: e.client_id },
        IbcEvent::ConnectionOpenAck(e) => AuxPlan::Client { client_id: e.client_id },
        IbcEvent::ConnectionOpenConfirm(e) => AuxPlan::Client { client_id: e.client_id },
        IbcEvent::ChannelOpenInit(e) => AuxPlan::Connection { connection_id: e.connection_id },
        IbcEvent::ChannelOpenTry(e) => AuxPlan::Connection { connection_id: e.connection_id },
        IbcEvent::ChannelOpenAck(e) => AuxPlan::ChannelHandshake {
            connection_id: e.connection_id,
            port_id: e.port_id,
            channel_id: e.channel_id,
        },
        IbcEvent::ChannelOpenConfirm(e) => AuxPlan::ChannelHandshake {
            connection_id: e.connection_id,
            port_id: e.port_id,
            channel_id: e.channel_id,
        },
        IbcEvent::SendPacket(e) => spec_outbound_packet_plan(e.packet),
        IbcEvent::TimeoutPacket(e) => spec_outbound_packet_plan(e.packet),
        IbcEvent::AcknowledgePacket(e) => spec_outbound_packet_plan(e.packet),
        IbcEvent::RecvPacket(e) => spec_inbound_packet_plan(e.packet),
        IbcEvent::WriteAcknowledgement(e) => spec_inbound_packet_plan(e.packet),
        IbcEvent::UnionCreateClient(e) => AuxPlan::UnionClient { client_id: e.client_id },
        IbcEvent::UnionUpdateClient(e) => AuxPlan::UnionClient { client_id: e.client_id },
        IbcEvent::UnionConnectionOpenInit(e) => AuxPlan::UnionClient { client_id: e.client_id },
        IbcEvent::UnionConnectionOpenTry(e) => AuxPlan::UnionClient { client_id: e.client_id },
        IbcEvent::UnionConnectionOpenAck(e) => AuxPlan::UnionClient { client_id: e.client_id },
        IbcEvent::UnionConnectionOpenConfirm(e) => AuxPlan::UnionClient { client_id: e.client_id },
        IbcEvent::UnionChannelOpenTry(e) => AuxPlan::UnionConnection {
            connection_id: e.connection_id,
        },
        IbcEvent::UnionChannelOpenConfirm(e) => AuxPlan::UnionChannel {
            channel_id: e.channel_id,
            connection_id: e.connection_id,
        },
        IbcEvent::UnionSendPacket(e) => AuxPlan::UnionPacketChannel {
            source_channel_id: e.packet.source_channel,
        },
    }
}

/// The plan for a packet event that originates on this chain: this chain
/// is the packet's source side.
pub open spec fn spec_outbound_packet_plan(packet: PacketFields) -> AuxPlan {
    AuxPlan::Packet {
        connection_id: packet.connection_id,
        self_port_id: packet.packet_src_port,
        self_channel_id: packet.packet_src_channel,
        other_port_id: packet.packet_dst_port,
        other_channel_id: packet.packet_dst_channel,
    }
}

/// The plan for a packet event that originates on the counterparty: this
/// chain is the packet's destination side, so self and other swap.
pub open spec fn spec_inbound_packet_plan(packet: PacketFields) -> AuxPlan {
    AuxPlan::Packet {
        connection_id: packet.connection_id,
        self_port_id: packet.packet_dst_port,
        self_channel_id: packet.packet_dst_channel,
        other_port_id: packet.packet_src_port,
        other_channel_id: packet.packet_src_channel,
    }
}

/// What [`Module::make_packet_metadata`] answers: the counterparty chain,
/// the client, the two channel sides in the order they were asked for,
/// and the channel's ordering.
pub open spec fn spec_make_packet_metadata(
    self_connection_id: ConnectionId,
    self_port_id: PortId,
    self_channel_id: ChannelId,
    other_port_id: PortId,
    other_channel_id: ChannelId,
    connection: Option<ConnectionResolution>,
    self_channel: Option<Channel>,
    other_channel: Option<Channel>,
) -> Result<(ChainId, ClientInfo, ChannelMetadata, ChannelMetadata, Order), EventError> {
    match connection {
        None => Err(EventError::MissingState(MissingStateKind::Connection)),
        Some(cr) => match self_channel {
            None => Err(EventError::MissingState(MissingStateKind::Channel)),
            Some(this_channel) => match other_channel {
                None => Err(EventError::MissingState(MissingStateKind::CounterpartyChannel)),
                Some(counterparty_channel) => match cr.connection.counterparty.connection_id {
                    None => Err(EventError::MissingCounterpartyConnectionId),
                    Some(counterparty_connection_id) => Ok(
                        (
                            cr.client.client_meta.chain_id,
                            cr.client.client_info,
                            ChannelMetadata {
                                port_id: self_port_id,
                                channel_id: self_channel_id,
                                version: this_channel.version,
                                connection: ConnectionMetadata {
                                    client_id: cr.connection.client_id,
                                    connection_id: self_connection_id,
                                },
                            },
                            ChannelMetadata {
                                port_id: other_port_id,
                                channel_id: other_channel_id,
                                version: counterparty_channel.version,
                                connection: ConnectionMetadata {
                                    client_id: cr.connection.counterparty.client_id,
                                    connection_id: counterparty_connection_id,
                                },
                            },
                            this_channel.ordering,
                        ),
                    ),
                },
            },
        },
    }
}


/// The canonical record for a native event, given the fetched context:
/// the full mapping table of both vocabularies.
///
/// Every record carries this chain's id, the resolved client context, the
/// transaction hash, and the height one past the event's height, at which
/// the event's state changes become provable.
pub open spec fn spec_make_chain_event(
    module: Module,
    height: Height,
    tx_hash: H256,
    event: IbcEvent,
    aux: EventAux,
) -> Result<ChainEvent, EventError> {
    match event {
        IbcEvent::SubmitEvidence(_) => Err(EventError::Unsupported),
        IbcEvent::ClientMisbehaviour(_) => Err(EventError::Unsupported),
        IbcEvent::CreateClient(e) => match aux {
            EventAux::Client(cr) => Ok(
                spec_chain_event(
                    module,
                    height,
                    tx_hash,
                    cr.client_info,
                    cr.client_meta.chain_id,
                    IbcSpecId::Classic,
                    FullEvent::Classic(
                        ibc_classic::FullEvent::CreateClient(
                            ibc_classic::CreateClient {
                                client_id: e.client_id,
                                client_type: ClientType { ty: e.client_type },
                                consensus_height: e.consensus_height,
                            },
                        ),
                    ),
                ),
            ),
            _ => Err(EventError::AuxMismatch),
        },
        IbcEvent::UpdateClient(e) => match aux {
            EventAux::Client(cr) => Ok(
                spec_chain_event(
                    module,
                    height,
                    tx_hash,
                    cr.client_info,
                    cr.client_meta.chain_id,
                    IbcSpecId::Classic,
                    FullEvent::Classic(
                        ibc_classic::FullEvent::UpdateClient(
                            ibc_classic::UpdateClient {
                                client_id: e.client_id,
                                client_type: ClientType { ty: e.client_type },
                                consensus_heights: e.consensus_heights,
                            },
                        ),
                    ),
                ),
            ),
            _ => Err(EventError::AuxMismatch),
        },
        IbcEvent::ConnectionOpenInit(e) => match aux {
            EventAux::Client(cr) => Ok(
                spec_chain_event(
                    module,
                    height,
                    tx_hash,
                    cr.client_info,
                    cr.client_meta.chain_id,
                    IbcSpecId::Classic,
                    FullEvent::Classic(
                        ibc_classic::FullEvent::ConnectionOpenInit(
                            ibc_classic::ConnectionOpenInit {
                                client_id: e.client_id,
                                connection_id: e.connection_id,
                                counterparty_client_id: e.counterparty_client_id,
                            },
                        ),
                    ),
                ),
            ),
            _ => Err(EventError::AuxMismatch),
        },
        IbcEvent::ConnectionOpenTry(e) => match aux {
            EventAux::Client(cr) => Ok(
                spec_chain_event(
                    module,
                    height,
                    tx_hash,
                    cr.client_info,
                    cr.client_meta.chain_id,
                    IbcSpecId::Classic,
                    FullEvent::Classic(
                        ibc_classic::FullEvent::ConnectionOpenTry(
                            ibc_classic::ConnectionOpenTry {
                                client_id: e.client_id,
                                connection_id: e.connection_id,
                                counterparty_client_id: e.counterparty_client_id,
                                counterparty_connection_id: e.counterparty_connection_id,
                            },
                        ),
                    ),
                ),
            ),
            _ => Err(EventError::AuxMismatch),
        },
        IbcEvent::ConnectionOpenAck(e) => match aux {
            EventAux::Client(cr) => Ok(
                spec_chain_event(
                    module,
                    height,
                    tx_hash,
                    cr.client_info,
                    cr.client_meta.chain_id,
                    IbcSpecId::Classic,
                    FullEvent::Classic(
                        ibc_classic::FullEvent::ConnectionOpenAck(
                            ibc_classic::ConnectionOpenAck {
                                client_id: e.client_id,
                                connection_id: e.connection_id,
                                counterparty_client_id: e.counterparty_client_id,
                                counterparty_connection_id: e.counterparty_connection_id,
                            },
                        ),
                    ),
                ),
            ),
            _ => Err(EventError::AuxMismatch),
        },
        IbcEvent::ConnectionOpenConfirm(e) => match aux {
            EventAux::Client(cr) => Ok(
                spec_chain_event(
                    module,
                    height,
                    tx_hash,
                    cr.client_info,
                    cr.client_meta.chain_id,
                    IbcSpecId::Classic,
                    FullEvent::Classic(
                        ibc_classic::FullEvent::ConnectionOpenConfirm(
                            ibc_classic::ConnectionOpenConfirm {
                                client_id: e.client_id,
                                connection_id: e.connection_id,
                                counterparty_client_id: e.counterparty_client_id,
                                counterparty_connection_id: e.counterparty_connection_id,
                            },
                        ),
                    ),
                ),
            ),
            _ => Err(EventError::AuxMismatch),
        },
        IbcEvent::ChannelOpenInit(e) => match aux {
            EventAux::Connection(conn) => match conn {
                None => Err(EventError::MissingState(MissingStateKind::Connection)),
                Some(cr) => Ok(
                    spec_chain_event(
                        module,
                        height,
                        tx_hash,
                        cr.client.client_info,
                        cr.client.client_meta.chain_id,
                        IbcSpecId::Classic,
                        FullEvent::Classic(
                            ibc_classic::FullEvent::ChannelOpenInit(
                                ibc_classic::ChannelOpenInit {
                                    port_id: e.port_id,
                                    channel_id: e.channel_id,
                                    counterparty_port_id: e.counterparty_port_id,
                                    connection: cr.connection,
                                    version: e.version,
                                },
                            ),
                        ),
                    ),
                ),
            },
            _ => Err(EventError::AuxMismatch),
        },
        IbcEvent::ChannelOpenTry(e) => match aux {
            EventAux::Connection(conn) => match conn {
                None => Err(EventError::MissingState(MissingStateKind::Connection)),
                Some(cr) => Ok(
                    spec_chain_event(
                        module,
                        height,
                        tx_hash,
                        cr.client.client_info,
                        cr.client.client_meta.chain_id,
                        IbcSpecId::Classic,
                        FullEvent::Classic(
                            ibc_classic::FullEvent::ChannelOpenTry(
                                ibc_classic::ChannelOpenTry {
                                    port_id: e.port_id,
                                    channel_id: e.channel_id,
                                    counterparty_port_id: e.counterparty_port_id,
                                    counterparty_channel_id: e.counterparty_channel_id,
                                    connection: cr.connection,
                                    version: e.version,
                                },
                            ),
                        ),
                    ),
                ),
            },
            _ => Err(EventError::AuxMismatch),
        },
        IbcEvent::ChannelOpenAck(e) => match aux {
            EventAux::ChannelHandshake(conn, chan) => match conn {
                None => Err(EventError::MissingState(MissingStateKind::Connection)),
                Some(cr) => match chan {
                    None => Err(EventError::MissingState(MissingStateKind::Channel)),
                    Some(channel) => Ok(
                        spec_chain_event(
                            module,
                            height,
                            tx_hash,
                            cr.client.client_info,
                            cr.client.client_meta.chain_id,
                            IbcSpecId::Classic,
                            FullEvent::Classic(
                                ibc_classic::FullEvent::ChannelOpenAck(
                                    ibc_classic::ChannelOpenAck {
                                        port_id: e.port_id,
                                        channel_id: e.channel_id,
                                        counterparty_port_id: e.counterparty_port_id,
                                        counterparty_channel_id: e.counterparty_channel_id,
                                        connection: cr.connection,
                                        version: channel.version,
                                    },
                                ),
                            ),
                        ),
                    ),
                },
            },
            _ => Err(EventError::AuxMismatch),
        },
        IbcEvent::ChannelOpenConfirm(e) => match aux {
            EventAux::ChannelHandshake(conn, chan) => match conn {
                None => Err(EventError::MissingState(MissingStateKind::Connection)),
                Some(cr) => match chan {
                    None => Err(EventError::MissingState(MissingStateKind::Channel)),
                    Some(channel) => Ok(
                        spec_chain_event(
                            module,
                            height,
                            tx_hash,
                            cr.client.client_info,
                            cr.client.client_meta.chain_id,
                            IbcSpecId::Classic,
                            FullEvent::Classic(
                                ibc_classic::FullEvent::ChannelOpenConfirm(
                                    ibc_classic::ChannelOpenConfirm {
                                        port_id: e.port_id,
                                        channel_id: e.channel_id,
                                        counterparty_port_id: e.counterparty_port_id,
                                        counterparty_channel_id: e.counterparty_channel_id,
                                        connection: cr.connection,
                                        version: channel.version,
                                    },
                                ),
                            ),
                        ),
                    ),
                },
            },
            _ => Err(EventError::AuxMismatch),
        },
        IbcEvent::SendPacket(e) => match aux {
            EventAux::Packet(conn, selfc, otherc) => match spec_make_packet_metadata(
                e.packet.connection_id,
                e.packet.packet_src_port,
                e.packet.packet_src_channel,
                e.packet.packet_dst_port,
                e.packet.packet_dst_channel,
                conn,
                selfc,
                otherc,
            ) {
                Err(err) => Err(err),
                Ok(pm) => Ok(
                    spec_chain_event(
                        module,
                        height,
                        tx_hash,
                        pm.1,
                        pm.0,
                        IbcSpecId::Classic,
                        FullEvent::Classic(
                            ibc_classic::FullEvent::SendPacket(
                                ibc_classic::SendPacket {
                                    packet_data: e.packet_data_hex,
                                    packet: ibc_classic::PacketMetadata {
                                        sequence: e.packet.packet_sequence,
                                        source_channel: pm.2,
                                        destination_channel: pm.3,
                                        channel_ordering: pm.4,
                                        timeout_height: e.packet.packet_timeout_height,
                                        timeout_timestamp: e.packet.packet_timeout_timestamp,
                                    },
                                },
                            ),
                        ),
                    ),
                ),
            },
            _ => Err(EventError::AuxMismatch),
        },
        IbcEvent::TimeoutPacket(e) => match aux {
            EventAux::Packet(conn, selfc, otherc) => match spec_make_packet_metadata(
                e.packet.connection_id,
                e.packet.packet_src_port,
                e.packet.packet_src_channel,
                e.packet.packet_dst_port,
                e.packet.packet_dst_channel,
                conn,
                selfc,
                otherc,
            ) {
                Err(err) => Err(err),
                Ok(pm) => Ok(
                    spec_chain_event(
                        module,
                        height,
                        tx_hash,
                        pm.1,
                        pm.0,
                        IbcSpecId::Classic,
                        FullEvent::Classic(
                            ibc_classic::FullEvent::TimeoutPacket(
                                ibc_classic::TimeoutPacket {
                                    packet: ibc_classic::PacketMetadata {
                                        sequence: e.packet.packet_sequence,
                                        source_channel: pm.2,
                                        destination_channel: pm.3,
                                        channel_ordering: pm.4,
                                        timeout_height: e.packet.packet_timeout_height,
                                        timeout_timestamp: e.packet.packet_timeout_timestamp,
                                    },
                                },
                            ),
                        ),
                    ),
                ),
            },
            _ => Err(EventError::AuxMismatch),
        },
        IbcEvent::AcknowledgePacket(e) => match aux {
            EventAux::Packet(conn, selfc, otherc) => match spec_make_packet_metadata(
                e.packet.connection_id,
                e.packet.packet_src_port,
                e.packet.packet_src_channel,
                e.packet.packet_dst_port,
                e.packet.packet_dst_channel,
                conn,
                selfc,
                otherc,
            ) {
                Err(err) => Err(err),
                Ok(pm) => Ok(
                    spec_chain_event(
                        module,
                        height,
                        tx_hash,
                        pm.1,
                        pm.0,
                        IbcSpecId::Classic,
                        FullEvent::Classic(
                            ibc_classic::FullEvent::AcknowledgePacket(
                                ibc_classic::AcknowledgePacket {
                                    packet: ibc_classic::PacketMetadata {
                                        sequence: e.packet.packet_sequence,
                                        source_channel: pm.2,
                                        destination_channel: pm.3,
                                        channel_ordering: pm.4,
                                        timeout_height: e.packet.packet_timeout_height,
                                        timeout_timestamp: e.packet.packet_timeout_timestamp,
                                    },
                                },
                            ),
                        ),
                    ),
                ),
            },
            _ => Err(EventError::AuxMismatch),
        },
        IbcEvent::RecvPacket(e) => match aux {
            EventAux::Packet(conn, selfc, otherc) => match spec_make_packet_metadata(
                e.packet.connection_id,
                e.packet.packet_dst_port,
                e.packet.packet_dst_channel,
                e.packet.packet_src_port,
                e.packet.packet_src_channel,
                conn,
                selfc,
                otherc,
            ) {
                Err(err) => Err(err),
                Ok(pm) => Ok(
                    spec_chain_event(
                        module,
                        height,
                        tx_hash,
                        pm.1,
                        pm.0,
                        IbcSpecId::Classic,
                        FullEvent::Classic(
                            ibc_classic::FullEvent::RecvPacket(
                                ibc_classic::RecvPacket {
                                    packet_data: e.packet_data_hex,
                                    packet: ibc_classic::PacketMetadata {
                                        sequence: e.packet.packet_sequence,
                                        source_channel: pm.3,
                                        destination_channel: pm.2,
                                        channel_ordering: pm.4,
                                        timeout_height: e.packet.packet_timeout_height,
                                        timeout_timestamp: e.packet.packet_timeout_timestamp,
                                    },
                                },
                            ),
                        ),
                    ),
                ),
            },
            _ => Err(EventError::AuxMismatch),
        },
        IbcEvent::WriteAcknowledgement(e) => match aux {
            EventAux::Packet(conn, selfc, otherc) => match spec_make_packet_metadata(
                e.packet.connection_id,
                e.packet.packet_dst_port,
                e.packet.packet_dst_channel,
                e.packet.packet_src_port,
                e.packet.packet_src_channel,
                conn,
                selfc,
                otherc,
            ) {
                Err(err) => Err(err),
                Ok(pm) => Ok(
                    spec_chain_event(
                        module,
                        height,
                        tx_hash,
                        pm.1,
                        pm.0,
                        IbcSpecId::Classic,
                        FullEvent::Classic(
                            ibc_classic::FullEvent::WriteAcknowledgement(
                                ibc_classic::WriteAcknowledgement {
                                    packet_data: e.packet_data_hex,
                                    packet_ack: e.packet_ack_hex,
                                    packet: ibc_classic::PacketMetadata {
                                        sequence: e.packet.packet_sequence,
                                        source_channel: pm.3,
                                        destination_channel: pm.2,
                                        channel_ordering: pm.4,
                                        timeout_height: e.packet.packet_timeout_height,
                                        timeout_timestamp: e.packet.packet_timeout_timestamp,
                                    },
                                },
                            ),
                        ),
                    ),
                ),
            },
            _ => Err(EventError::AuxMismatch),
        },
        IbcEvent::UnionCreateClient(e) => match aux {
            EventAux::Client(cr) => Ok(
                spec_chain_event(
                    module,
                    height,
                    tx_hash,
                    cr.client_info,
                    cr.client_meta.chain_id,
                    IbcSpecId::Union,
                    FullEvent::Union(
                        ibc_union::FullEvent::CreateClient(
                            ibc_union::CreateClient {
                                client_id: e.client_id,
                                client_type: ClientType { ty: e.client_type },
                            },
                        ),
                    ),
                ),
            ),
            _ => Err(EventError::AuxMismatch),
        },
        IbcEvent::UnionUpdateClient(e) => match aux {
            EventAux::Client(cr) => Ok(
                spec_chain_event(
                    module,
                    height,
                    tx_hash,
                    cr.client_info,
                    cr.client_meta.chain_id,
                    IbcSpecId::Union,
                    FullEvent::Union(
                        ibc_union::FullEvent::UpdateClient(
                            ibc_union::UpdateClient {
                                client_id: e.client_id,
                                client_type: cr.client_info.client_type,
                                height: e.height,
                            },
                        ),
                    ),
                ),
            ),
            _ => Err(EventError::AuxMismatch),
        },
        IbcEvent::UnionConnectionOpenInit(e) => match aux {
            EventAux::Client(cr) => Ok(
                spec_chain_event(
                    module,
                    height,
                    tx_hash,
                    cr.client_info,
                    cr.client_meta.chain_id,
                    IbcSpecId::Union,
                    FullEvent::Union(
                        ibc_union::FullEvent::ConnectionOpenInit(
                            ibc_union::ConnectionOpenInit {
                                client_id: e.client_id,
                                connection_id: e.connection_id,
                                counterparty_client_id: e.counterparty_client_id,
                            },
                        ),
                    ),
                ),
            ),
            _ => Err(EventError::AuxMismatch),
        },
        IbcEvent::UnionConnectionOpenTry(e) => match aux {
            EventAux::Client(cr) => Ok(
                spec_chain_event(
                    module,
                    height,
                    tx_hash,
                    cr.client_info,
                    cr.client_meta.chain_id,
                    IbcSpecId::Union,
                    FullEvent::Union(
                        ibc_union::FullEvent::ConnectionOpenTry(
                            ibc_union::ConnectionOpenTry {
                                connection_id: e.connection_id,
                                counterparty_connection_id: e.counterparty_connection_id,
                                client_id: e.client_id,
                                counterparty_client_id: e.counterparty_client_id,
                            },
                        ),
                    ),
                ),
            ),
            _ => Err(EventError::AuxMismatch),
        },
        IbcEvent::UnionConnectionOpenAck(e) => match aux {
            EventAux::Client(cr) => Ok(
                spec_chain_event(
                    module,
                    height,
                    tx_hash,
                    cr.client_info,
                    cr.client_meta.chain_id,
                    IbcSpecId::Union,
                    FullEvent::Union(
                        ibc_union::FullEvent::ConnectionOpenAck(
                            ibc_union::ConnectionOpenAck {
                                connection_id: e.connection_id,
                                counterparty_connection_id: e.counterparty_connection_id,
                                client_id: e.client_id,
                                counterparty_client_id: e.counterparty_client_id,
                            },
                        ),
                    ),
                ),
            ),
            _ => Err(EventError::AuxMismatch),
        },
        IbcEvent::UnionConnectionOpenConfirm(e) => match aux {
            EventAux::Client(cr) => Ok(
                spec_chain_event(
                    module,
                    height,
                    tx_hash,
                    cr.client_info,
                    cr.client_meta.chain_id,
                    IbcSpecId::Union,
                    FullEvent::Union(
                        ibc_union::FullEvent::ConnectionOpenConfirm(
                            ibc_union::ConnectionOpenConfirm {
                                connection_id: e.connection_id,
                                counterparty_connection_id: e.counterparty_connection_id,
                                client_id: e.client_id,
                                counterparty_client_id: e.counterparty_client_id,
                            },
                        ),
                    ),
                ),
            ),
            _ => Err(EventError::AuxMismatch),
        },
        IbcEvent::UnionChannelOpenTry(e) => match aux {
            EventAux::UnionConnection(conn) => match conn {
                None => Err(EventError::MissingState(MissingStateKind::Connection)),
                Some(cr) => Ok(
                    spec_chain_event(
                        module,
                        height,
                        tx_hash,
                        cr.client.client_info,
                        cr.client.client_meta.chain_id,
                        IbcSpecId::Union,
                        FullEvent::Union(
                            ibc_union::FullEvent::ChannelOpenTry(
                                ibc_union::ChannelOpenTry {
                                    port_id: e.port_id,
                                    channel_id: e.channel_id,
                                    counterparty_port_id: e.counterparty_port_id,
                                    counterparty_channel_id: e.counterparty_channel_id,
                                    connection: cr.connection,
                                    version: e.counterparty_version,
                                },
                            ),
                        ),
                    ),
                ),
            },
            _ => Err(EventError::AuxMismatch),
        },
        IbcEvent::UnionChannelOpenConfirm(e) => match aux {
            EventAux::UnionChannel(chan, conn) => match chan {
                None => Err(EventError::MissingState(MissingStateKind::Channel)),
                Some(channel) => match conn {
                    None => Err(EventError::MissingState(MissingStateKind::Connection)),
                    Some(cr) => Ok(
                        spec_chain_event(
                            module,
                            height,
                            tx_hash,
                            cr.client.client_info,
                            cr.client.client_meta.chain_id,
                            IbcSpecId::Union,
                            FullEvent::Union(
                                ibc_union::FullEvent::ChannelOpenConfirm(
                                    ibc_union::ChannelOpenConfirm {
                                        port_id: e.port_id,
                                        channel_id: e.channel_id,
                                        counterparty_port_id: e.counterparty_port_id,
                                        counterparty_channel_id: e.counterparty_channel_id,
                                        connection: cr.connection,
                                        version: channel.version,
                                    },
                                ),
                            ),
                        ),
                    ),
                },
            },
            _ => Err(EventError::AuxMismatch),
        },
        IbcEvent::UnionSendPacket(e) => match aux {
            EventAux::UnionPacket(chan, conn) => match chan {
                None => Err(EventError::MissingState(MissingStateKind::Channel)),
                Some(channel) => match conn {
                    None => Err(EventError::MissingState(MissingStateKind::Connection)),
                    Some(cr) => Ok(
                        spec_chain_event(
                            module,
                            height,
                            tx_hash,
                            cr.client.client_info,
                            cr.client.client_meta.chain_id,
                            IbcSpecId::Union,
                            FullEvent::Union(
                                ibc_union::FullEvent::PacketSend(
                                    ibc_union::PacketSend {
                                        packet_data: e.packet.data,
                                        packet: ibc_union::PacketMetadata {
                                            source_channel: ibc_union::ChannelMetadata {
                                                channel_id: e.packet.source_channel,
                                                version: channel.version,
                                                connection: ibc_union::ConnectionMetadata {
                                                    client_id: cr.connection.client_id,
                                                    connection_id: channel.connection_id,
                                                },
                                            },
                                            destination_channel: ibc_union::ChannelMetadata {
                                                channel_id: e.packet.destination_channel,
                                                version: channel.version,
                                                connection: ibc_union::ConnectionMetadata {
                                                    client_id: cr.connection.counterparty_client_id,
                                                    connection_id: cr.connection.counterparty_connection_id,
                                                },
                                            },
                                            timeout_height: e.packet.timeout_height,
                                            timeout_timestamp: e.packet.timeout_timestamp,
                                        },
                                    },
                                ),
                            ),
                        ),
                    ),
                },
            },
            _ => Err(EventError::AuxMismatch),
        },
    }
}

/// A canonical record, assembled from its parts: the uniform outer shape
/// every event kind shares.
pub open spec fn spec_chain_event(
    module: Module,
    height: Height,
    tx_hash: H256,
    client_info: ClientInfo,
    counterparty_chain_id: ChainId,
    ibc_spec_id: IbcSpecId,
    event: FullEvent,
) -> ChainEvent {
    ChainEvent {
        chain_id: module.chain_id,
        client_info,
        counterparty_chain_id,
        tx_hash,
        provable_height: Height {
            revision: height.revision,
            height: (height.height + 1) as u64,
        },
        ibc_spec_id,
        event,
    }
}

impl Module {
    /// The queries to answer before the given event can be made
    /// canonical: the event decides, nothing else.
    pub fn aux_plan(&self, event: &IbcEvent) -> (r: AuxPlan)
        ensures
            r == spec_aux_plan(*event),
    {
        match event {
            IbcEvent::CreateClient(e) => AuxPlan::Client { client_id: e.client_id.clone() },
            IbcEvent::UpdateClient(e) => AuxPlan::Client { client_id: e.client_id.clone() },
            IbcEvent::ClientMisbehaviour(_) => AuxPlan::Unsupported,
            IbcEvent::SubmitEvidence(_) => AuxPlan::Unsupported,
            IbcEvent::ConnectionOpenInit(e) => AuxPlan::Client { client_id: e.client_id.clone() },
            IbcEvent::ConnectionOpenTry(e) => AuxPlan::Client { client_id: e.client_id.clone() },
            IbcEvent::ConnectionOpenAck(e) => AuxPlan::Client { client_id: e.client_id.clone() },
            IbcEvent::ConnectionOpenConfirm(e) => AuxPlan::Client {
                client_id: e.client_id.clone(),
            },
            IbcEvent::ChannelOpenInit(e) => AuxPlan::Connection {
                connection_id: e.connection_id.clone(),
            },
            IbcEvent::ChannelOpenTry(e) => AuxPlan::Connection {
                connection_id: e.connection_id.clone(),
            },
            IbcEvent::ChannelOpenAck(e) => AuxPlan::ChannelHandshake {
                connection_id: e.connection_id.clone(),
                port_id: e.port_id.clone(),
                channel_id: e.channel_id.clone(),
            },
            IbcEvent::ChannelOpenConfirm(e) => AuxPlan::ChannelHandshake {
                connection_id: e.connection_id.clone(),
                port_id: e.port_id.clone(),
                channel_id: e.channel_id.clone(),
            },
            IbcEvent::SendPacket(e) => Self::outbound_packet_plan(&e.packet),
            IbcEvent::TimeoutPacket(e) => Self::outbound_packet_plan(&e.packet),
            IbcEvent::AcknowledgePacket(e) => Self::outbound_packet_plan(&e.packet),
            IbcEvent::RecvPacket(e) => Self::inbound_packet_plan(&e.packet),
            IbcEvent::WriteAcknowledgement(e) => Self::inbound_packet_plan(&e.packet),
            IbcEvent::UnionCreateClient(e) => AuxPlan::UnionClient { client_id: e.client_id },
            IbcEvent::UnionUpdateClient(e) => AuxPlan::UnionClient { client_id: e.client_id },
            IbcEvent::UnionConnectionOpenInit(e) => AuxPlan::UnionClient {
                client_id: e.client_id,
            },
            IbcEvent::UnionConnectionOpenTry(e) => AuxPlan::UnionClient {
                client_id: e.client_id,
            },
            IbcEvent::UnionConnectionOpenAck(e) => AuxPlan::UnionClient {
                client_id: e.client_id,
            },
            IbcEvent::UnionConnectionOpenConfirm(e) => AuxPlan::UnionClient {
                client_id: e.client_id,
            },
            IbcEvent::UnionChannelOpenTry(e) => AuxPlan::UnionConnection {
                connection_id: e.connection_id,
            },
            IbcEvent::UnionChannelOpenConfirm(e) => AuxPlan::UnionChannel {
                channel_id: e.channel_id,
                connection_id: e.connection_id,
            },
            IbcEvent::UnionSendPacket(e) => AuxPlan::UnionPacketChannel {
                source_channel_id: e.packet.source_channel,
            },
        }
    }

    /// The plan for an outbound packet event: self is the source side.
    fn outbound_packet_plan(packet: &PacketFields) -> (r: AuxPlan)
        ensures
            r == spec_outbound_packet_plan(*packet),
    {
        AuxPlan::Packet {
            connection_id: packet.connection_id.clone(),
            self_port_id: packet.packet_src_port.clone(),
            self_channel_id: packet.packet_src_channel.clone(),
            other_port_id: packet.packet_dst_port.clone(),
            other_channel_id: packet.packet_dst_channel.clone(),
        }
    }

    /// The plan for an inbound packet event: self is the destination side.
    fn inbound_packet_plan(packet: &PacketFields) -> (r: AuxPlan)
        ensures
            r == spec_inbound_packet_plan(*packet),
    {
        AuxPlan::Packet {
            connection_id: packet.connection_id.clone(),
            self_port_id: packet.packet_dst_port.clone(),
            self_channel_id: packet.packet_dst_channel.clone(),
            other_port_id: packet.packet_src_port.clone(),
            other_channel_id: packet.packet_src_channel.clone(),
        }
    }

    /// Assemble a packet's channel-pair context from the fetched state.
    ///
    /// The caller decides which physical side is "self": the side the
    /// event fired on. The first channel returned describes the self
    /// side, the second the other side; misdirecting this pair is what
    /// would silently mislabel a packet's direction, so the contract pins
    /// every field.
    pub fn make_packet_metadata(
        &self,
        self_connection_id: ConnectionId,
        self_port_id: PortId,
        self_channel_id: ChannelId,
        other_port_id: PortId,
        other_channel_id: ChannelId,
        connection: Option<ConnectionResolution>,
        self_channel: Option<Channel>,
        other_channel: Option<Channel>,
    ) -> (r: Result<(ChainId, ClientInfo, ChannelMetadata, ChannelMetadata, Order), EventError>)
        ensures
            r == spec_make_packet_metadata(
                self_connection_id,
                self_port_id,
                self_channel_id,
                other_port_id,
                other_channel_id,
                connection,
                self_channel,
                other_channel,
            ),
    {
        let cr = match connection {
            None => {
                return Err(EventError::MissingState(MissingStateKind::Connection));
            },
            Some(cr) => cr,
        };
        let this_channel = match self_channel {
            None => {
                return Err(EventError::MissingState(MissingStateKind::Channel));
            },
            Some(c) => c,
        };
        let counterparty_channel = match other_channel {
            None => {
                return Err(EventError::MissingState(MissingStateKind::CounterpartyChannel));
            },
            Some(c) => c,
        };
        let counterparty_connection_id = match cr.connection.counterparty.connection_id {
            None => {
                return Err(EventError::MissingCounterpartyConnectionId);
            },
            Some(id) => id,
        };
        Ok(
            (
                cr.client.client_meta.chain_id,
                cr.client.client_info,
                ChannelMetadata {
                    port_id: self_port_id,
                    channel_id: self_channel_id,
                    version: this_channel.version,
                    connection: ConnectionMetadata {
                        client_id: cr.connection.client_id,
                        connection_id: self_connection_id,
                    },
                },
                ChannelMetadata {
                    port_id: other_port_id,
                    channel_id: other_channel_id,
                    version: counterparty_channel.version,
                    connection: ConnectionMetadata {
                        client_id: cr.connection.counterparty.client_id,
                        connection_id: counterparty_connection_id,
                    },
                },
                this_channel.ordering,
            ),
        )
    }
}


impl Module {
    /// Resolve one native event into its canonical record, given the
    /// fetched on-chain context.
    ///
    /// Answers exactly what the mapping table
    /// [`spec_make_chain_event`] defines: a record whose provable height
    /// is one past the event's height, or the error naming why this one
    /// branch cannot resolve. No partial record is ever built.
    #[verifier::rlimit(100)]
    pub fn make_chain_event(&self, height: Height, tx_hash: H256, event: IbcEvent, aux: EventAux) -> (r:
        Result<ChainEvent, EventError>)
        requires
            height.height < u64::MAX,
        ensures
            r == spec_make_chain_event(*self, height, tx_hash, event, aux),
            r matches Ok(ce) ==> ce.provable_height == (Height {
                revision: height.revision,
                height: (height.height + 1) as u64,
            }) && ce.chain_id@ == self.chain_id@ && ce.tx_hash == tx_hash && ce.wf(),
    {
        let provable_height = height.increment();
        match (event, aux) {
            (IbcEvent::SubmitEvidence(_), _) => Err(EventError::Unsupported),
            (IbcEvent::ClientMisbehaviour(_), _) => Err(EventError::Unsupported),
            (IbcEvent::CreateClient(e), EventAux::Client(cr)) => Ok(ChainEvent {
                chain_id: self.chain_id.clone(),
                client_info: cr.client_info,
                counterparty_chain_id: cr.client_meta.chain_id,
                tx_hash,
                provable_height,
                ibc_spec_id: IbcSpecId::Classic,
                event: FullEvent::Classic(
                    ibc_classic::FullEvent::CreateClient(
                        ibc_classic::CreateClient {
                            client_id: e.client_id,
                            client_type: ClientType::new(e.client_type),
                            consensus_height: e.consensus_height,
                        },
                    ),
                ),
            }),
            (IbcEvent::UpdateClient(e), EventAux::Client(cr)) => Ok(ChainEvent {
                chain_id: self.chain_id.clone(),
                client_info: cr.client_info,
                counterparty_chain_id: cr.client_meta.chain_id,
                tx_hash,
                provable_height,
                ibc_spec_id: IbcSpecId::Classic,
                event: FullEvent::Classic(
                    ibc_classic::FullEvent::UpdateClient(
                        ibc_classic::UpdateClient {
                            client_id: e.client_id,
                            client_type: ClientType::new(e.client_type),
                            consensus_heights: e.consensus_heights,
                        },
                    ),
                ),
            }),
            (IbcEvent::ConnectionOpenInit(e), EventAux::Client(cr)) => Ok(ChainEvent {
                chain_id: self.chain_id.clone(),
                client_info: cr.client_info,
                counterparty_chain_id: cr.client_meta.chain_id,
                tx_hash,
                provable_height,
                ibc_spec_id: IbcSpecId::Classic,
                event: FullEvent::Classic(
                    ibc_classic::FullEvent::ConnectionOpenInit(
                        ibc_classic::ConnectionOpenInit {
                            client_id: e.client_id,
                            connection_id: e.connection_id,
                            counterparty_client_id: e.counterparty_client_id,
                        },
                    ),
                ),
            }),
            (IbcEvent::ConnectionOpenTry(e), EventAux::Client(cr)) => Ok(ChainEvent {
                chain_id: self.chain_id.clone(),
                client_info: cr.client_info,
                counterparty_chain_id: cr.client_meta.chain_id,
                tx_hash,
                provable_height,
                ibc_spec_id: IbcSpecId::Classic,
                event: FullEvent::Classic(
                    ibc_classic::FullEvent::ConnectionOpenTry(
                        ibc_classic::ConnectionOpenTry {
                            client_id: e.client_id,
                            connection_id: e.connection_id,
                            counterparty_client_id: e.counterparty_client_id,
                            counterparty_connection_id: e.counterparty_connection_id,
                        },
                    ),
                ),
            }),
            (IbcEvent::ConnectionOpenAck(e), EventAux::Client(cr)) => Ok(ChainEvent {
                chain_id: self.chain_id.clone(),
                client_info: cr.client_info,
                counterparty_chain_id: cr.client_meta.chain_id,
                tx_hash,
                provable_height,
                ibc_spec_id: IbcSpecId::Classic,
                event: FullEvent::Classic(
                    ibc_classic::FullEvent::ConnectionOpenAck(
                        ibc_classic::ConnectionOpenAck {
                            client_id: e.client_id,
                            connection_id: e.connection_id,
                            counterparty_client_id: e.counterparty_client_id,
                            counterparty_connection_id: e.counterparty_connection_id,
                        },
                    ),
                ),
            }),
            (IbcEvent::ConnectionOpenConfirm(e), EventAux::Client(cr)) => Ok(ChainEvent {
                chain_id: self.chain_id.clone(),
                client_info: cr.client_info,
                counterparty_chain_id: cr.client_meta.chain_id,
                tx_hash,
                provable_height,
                ibc_spec_id: IbcSpecId::Classic,
                event: FullEvent::Classic(
                    ibc_classic::FullEvent::ConnectionOpenConfirm(
                        ibc_classic::ConnectionOpenConfirm {
                            client_id: e.client_id,
                            connection_id: e.connection_id,
                            counterparty_client_id: e.counterparty_client_id,
                            counterparty_connection_id: e.counterparty_connection_id,
                        },
                    ),
                ),
            }),
            (IbcEvent::ChannelOpenInit(e), EventAux::Connection(conn)) => match conn {
                None => Err(EventError::MissingState(MissingStateKind::Connection)),
                Some(cr) => Ok(ChainEvent {
                    chain_id: self.chain_id.clone(),
                    client_info: cr.client.client_info,
                    counterparty_chain_id: cr.client.client_meta.chain_id,
                    tx_hash,
                    provable_height,
                    ibc_spec_id: IbcSpecId::Classic,
                    event: FullEvent::Classic(
                        ibc_classic::FullEvent::ChannelOpenInit(
                            ibc_classic::ChannelOpenInit {
                                port_id: e.port_id,
                                channel_id: e.channel_id,
                                counterparty_port_id: e.counterparty_port_id,
                                connection: cr.connection,
                                version: e.version,
                            },
                        ),
                    ),
                }),
            },
            (IbcEvent::ChannelOpenTry(e), EventAux::Connection(conn)) => match conn {
                None => Err(EventError::MissingState(MissingStateKind::Connection)),
                Some(cr) => Ok(ChainEvent {
                    chain_id: self.chain_id.clone(),
                    client_info: cr.client.client_info,
                    counterparty_chain_id: cr.client.client_meta.chain_id,
                    tx_hash,
                    provable_height,
                    ibc_spec_id: IbcSpecId::Classic,
                    event: FullEvent::Classic(
                        ibc_classic::FullEvent::ChannelOpenTry(
                            ibc_classic::ChannelOpenTry {
                                port_id: e.port_id,
                                channel_id: e.channel_id,
                                counterparty_port_id: e.counterparty_port_id,
                                counterparty_channel_id: e.counterparty_channel_id,
                                connection: cr.connection,
                                version: e.version,
                            },
                        ),
                    ),
                }),
            },
            (IbcEvent::ChannelOpenAck(e), EventAux::ChannelHandshake(conn, chan)) => match conn {
                None => Err(EventError::MissingState(MissingStateKind::Connection)),
                Some(cr) => match chan {
                    None => Err(EventError::MissingState(MissingStateKind::Channel)),
                    Some(channel) => Ok(ChainEvent {
                        chain_id: self.chain_id.clone(),
                        client_info: cr.client.client_info,
                        counterparty_chain_id: cr.client.client_meta.chain_id,
                        tx_hash,
                        provable_height,
                        ibc_spec_id: IbcSpecId::Classic,
                        event: FullEvent::Classic(
                            ibc_classic::FullEvent::ChannelOpenAck(
                                ibc_classic::ChannelOpenAck {
                                    port_id: e.port_id,
                                    channel_id: e.channel_id,
                                    counterparty_port_id: e.counterparty_port_id,
                                    counterparty_channel_id: e.counterparty_channel_id,
                                    connection: cr.connection,
                                    version: channel.version,
                                },
                            ),
                        ),
                    }),
                },
            },
            (IbcEvent::ChannelOpenConfirm(e), EventAux::ChannelHandshake(conn, chan)) => match conn {
                None => Err(EventError::MissingState(MissingStateKind::Connection)),
                Some(cr) => match chan {
                    None => Err(EventError::MissingState(MissingStateKind::Channel)),
                    Some(channel) => Ok(ChainEvent {
                        chain_id: self.chain_id.clone(),
                        client_info: cr.client.client_info,
                        counterparty_chain_id: cr.client.client_meta.chain_id,
                        tx_hash,
                        provable_height,
                        ibc_spec_id: IbcSpecId::Classic,
                        event: FullEvent::Classic(
                            ibc_classic::FullEvent::ChannelOpenConfirm(
                                ibc_classic::ChannelOpenConfirm {
                                    port_id: e.port_id,
                                    channel_id: e.channel_id,
                                    counterparty_port_id: e.counterparty_port_id,
                                    counterparty_channel_id: e.counterparty_channel_id,
                                    connection: cr.connection,
                                    version: channel.version,
                                },
                            ),
                        ),
                    }),
                },
            },
            (IbcEvent::SendPacket(e), EventAux::Packet(conn, selfc, otherc)) => {
                match self.make_packet_metadata(
                    e.packet.connection_id,
                    e.packet.packet_src_port,
                    e.packet.packet_src_channel,
                    e.packet.packet_dst_port,
                    e.packet.packet_dst_channel,
                    conn,
                    selfc,
                    otherc,
                ) {
                    Err(err) => Err(err),
                    Ok((counterparty_chain_id, client_info, source_channel, destination_channel, channel_ordering)) => Ok(ChainEvent {
                        chain_id: self.chain_id.clone(),
                        client_info,
                        counterparty_chain_id,
                        tx_hash,
                        provable_height,
                        ibc_spec_id: IbcSpecId::Classic,
                        event: FullEvent::Classic(
                            ibc_classic::FullEvent::SendPacket(
                                ibc_classic::SendPacket {
                                    packet_data: e.packet_data_hex,
                                    packet: ibc_classic::PacketMetadata {
                                        sequence: e.packet.packet_sequence,
                                        source_channel,
                                        destination_channel,
                                        channel_ordering,
                                        timeout_height: e.packet.packet_timeout_height,
                                        timeout_timestamp: e.packet.packet_timeout_timestamp,
                                    },
                                },
                            ),
                        ),
                    }),
                }
            },
            (IbcEvent::TimeoutPacket(e), EventAux::Packet(conn, selfc, otherc)) => {
                match self.make_packet_metadata(
                    e.packet.connection_id,
                    e.packet.packet_src_port,
                    e.packet.packet_src_channel,
                    e.packet.packet_dst_port,
                    e.packet.packet_dst_channel,
                    conn,
                    selfc,
                    otherc,
                ) {
                    Err(err) => Err(err),
                    Ok((counterparty_chain_id, client_info, source_channel, destination_channel, channel_ordering)) => Ok(ChainEvent {
                        chain_id: self.chain_id.clone(),
                        client_info,
                        counterparty_chain_id,
                        tx_hash,
                        provable_height,
                        ibc_spec_id: IbcSpecId::Classic,
                        event: FullEvent::Classic(
                            ibc_classic::FullEvent::TimeoutPacket(
                                ibc_classic::TimeoutPacket {
                                    packet: ibc_classic::PacketMetadata {
                                        sequence: e.packet.packet_sequence,
                                        source_channel,
                                        destination_channel,
                                        channel_ordering,
                                        timeout_height: e.packet.packet_timeout_height,
                                        timeout_timestamp: e.packet.packet_timeout_timestamp,
                                    },
                                },
                            ),
                        ),
                    }),
                }
            },
            (IbcEvent::AcknowledgePacket(e), EventAux::Packet(conn, selfc, otherc)) => {
                match self.make_packet_metadata(
                    e.packet.connection_id,
                    e.packet.packet_src_port,
                    e.packet.packet_src_channel,
                    e.packet.packet_dst_port,
                    e.packet.packet_dst_channel,
                    conn,
                    selfc,
                    otherc,
                ) {
                    Err(err) => Err(err),
                    Ok((counterparty_chain_id, client_info, source_channel, destination_channel, channel_ordering)) => Ok(ChainEvent {
                        chain_id: self.chain_id.clone(),
                        client_info,
                        counterparty_chain_id,
                        tx_hash,
                        provable_height,
                        ibc_spec_id: IbcSpecId::Classic,
                        event: FullEvent::Classic(
                            ibc_classic::FullEvent::AcknowledgePacket(
                                ibc_classic::AcknowledgePacket {
                                    packet: ibc_classic::PacketMetadata {
                                        sequence: e.packet.packet_sequence,
                                        source_channel,
                                        destination_channel,
                                        channel_ordering,
                                        timeout_height: e.packet.packet_timeout_height,
                                        timeout_timestamp: e.packet.packet_timeout_timestamp,
                                    },
                                },
                            ),
                        ),
                    }),
                }
            },
            (IbcEvent::RecvPacket(e), EventAux::Packet(conn, selfc, otherc)) => {
                match self.make_packet_metadata(
                    e.packet.connection_id,
                    e.packet.packet_dst_port,
                    e.packet.packet_dst_channel,
                    e.packet.packet_src_port,
                    e.packet.packet_src_channel,
                    conn,
                    selfc,
                    otherc,
                ) {
                    Err(err) => Err(err),
                    Ok((counterparty_chain_id, client_info, destination_channel, source_channel, channel_ordering)) => Ok(ChainEvent {
                        chain_id: self.chain_id.clone(),
                        client_info,
                        counterparty_chain_id,
                        tx_hash,
                        provable_height,
                        ibc_spec_id: IbcSpecId::Classic,
                        event: FullEvent::Classic(
                            ibc_classic::FullEvent::RecvPacket(
                                ibc_classic::RecvPacket {
                                    packet_data: e.packet_data_hex,
                                    packet: ibc_classic::PacketMetadata {
                                        sequence: e.packet.packet_sequence,
                                        source_channel,
                                        destination_channel,
                                        channel_ordering,
                                        timeout_height: e.packet.packet_timeout_height,
                                        timeout_timestamp: e.packet.packet_timeout_timestamp,
                                    },
                                },
                            ),
                        ),
                    }),
                }
            },
            (IbcEvent::WriteAcknowledgement(e), EventAux::Packet(conn, selfc, otherc)) => {
                match self.make_packet_metadata(
                    e.packet.connection_id,
                    e.packet.packet_dst_port,
                    e.packet.packet_dst_channel,
                    e.packet.packet_src_port,
                    e.packet.packet_src_channel,
                    conn,
                    selfc,
                    otherc,
                ) {
                    Err(err) => Err(err),
                    Ok((counterparty_chain_id, client_info, destination_channel, source_channel, channel_ordering)) => Ok(ChainEvent {
                        chain_id: self.chain_id.clone(),
                        client_info,
                        counterparty_chain_id,
                        tx_hash,
                        provable_height,
                        ibc_spec_id: IbcSpecId::Classic,
                        event: FullEvent::Classic(
                            ibc_classic::FullEvent::WriteAcknowledgement(
                                ibc_classic::WriteAcknowledgement {
                                    packet_data: e.packet_data_hex,
                                    packet_ack: e.packet_ack_hex,
                                    packet: ibc_classic::PacketMetadata {
                                        sequence: e.packet.packet_sequence,
                                        source_channel,
                                        destination_channel,
                                        channel_ordering,
                                        timeout_height: e.packet.packet_timeout_height,
                                        timeout_timestamp: e.packet.packet_timeout_timestamp,
                                    },
                                },
                            ),
                        ),
                    }),
                }
            },
            (IbcEvent::UnionCreateClient(e), EventAux::Client(cr)) => Ok(ChainEvent {
                chain_id: self.chain_id.clone(),
                client_info: cr.client_info,
                counterparty_chain_id: cr.client_meta.chain_id,
                tx_hash,
                provable_height,
                ibc_spec_id: IbcSpecId::Union,
                event: FullEvent::Union(
                    ibc_union::FullEvent::CreateClient(
                        ibc_union::CreateClient {
                            client_id: e.client_id,
                            client_type: ClientType::new(e.client_type),
                        },
                    ),
                ),
            }),
            (IbcEvent::UnionUpdateClient(e), EventAux::Client(cr)) => {
                let client_type = cr.client_info.client_type.clone();
                Ok(ChainEvent {
                    chain_id: self.chain_id.clone(),
                    client_info: cr.client_info,
                    counterparty_chain_id: cr.client_meta.chain_id,
                    tx_hash,
                    provable_height,
                    ibc_spec_id: IbcSpecId::Union,
                    event: FullEvent::Union(
                        ibc_union::FullEvent::UpdateClient(
                            ibc_union::UpdateClient {
                                client_id: e.client_id,
                                client_type,
                                height: e.height,
                            },
                        ),
                    ),
                })
            },
            (IbcEvent::UnionConnectionOpenInit(e), EventAux::Client(cr)) => Ok(ChainEvent {
                chain_id: self.chain_id.clone(),
                client_info: cr.client_info,
                counterparty_chain_id: cr.client_meta.chain_id,
                tx_hash,
                provable_height,
                ibc_spec_id: IbcSpecId::Union,
                event: FullEvent::Union(
                    ibc_union::FullEvent::ConnectionOpenInit(
                        ibc_union::ConnectionOpenInit {
                            client_id: e.client_id,
                            connection_id: e.connection_id,
                            counterparty_client_id: e.counterparty_client_id,
                        },
                    ),
                ),
            }),
            (IbcEvent::UnionConnectionOpenTry(e), EventAux::Client(cr)) => Ok(ChainEvent {
                chain_id: self.chain_id.clone(),
                client_info: cr.client_info,
                counterparty_chain_id: cr.client_meta.chain_id,
                tx_hash,
                provable_height,
                ibc_spec_id: IbcSpecId::Union,
                event: FullEvent::Union(
                    ibc_union::FullEvent::ConnectionOpenTry(
                        ibc_union::ConnectionOpenTry {
                            connection_id: e.connection_id,
                            counterparty_connection_id: e.counterparty_connection_id,
                            client_id: e.client_id,
                            counterparty_client_id: e.counterparty_client_id,
                        },
                    ),
                ),
            }),
            (IbcEvent::UnionConnectionOpenAck(e), EventAux::Client(cr)) => Ok(ChainEvent {
                chain_id: self.chain_id.clone(),
                client_info: cr.client_info,
                counterparty_chain_id: cr.client_meta.chain_id,
                tx_hash,
                provable_height,
                ibc_spec_id: IbcSpecId::Union,
                event: FullEvent::Union(
                    ibc_union::FullEvent::ConnectionOpenAck(
                        ibc_union::ConnectionOpenAck {
                            connection_id: e.connection_id,
                            counterparty_connection_id: e.counterparty_connection_id,
                            client_id: e.client_id,
                            counterparty_client_id: e.counterparty_client_id,
                        },
                    ),
                ),
            }),
            (IbcEvent::UnionConnectionOpenConfirm(e), EventAux::Client(cr)) => Ok(ChainEvent {
                chain_id: self.chain_id.clone(),
                client_info: cr.client_info,
                counterparty_chain_id: cr.client_meta.chain_id,
                tx_hash,
                provable_height,
                ibc_spec_id: IbcSpecId::Union,
                event: FullEvent::Union(
                    ibc_union::FullEvent::ConnectionOpenConfirm(
                        ibc_union::ConnectionOpenConfirm {
                            connection_id: e.connection_id,
                            counterparty_connection_id: e.counterparty_connection_id,
                            client_id: e.client_id,
                            counterparty_client_id: e.counterparty_client_id,
                        },
                    ),
                ),
            }),
            (IbcEvent::UnionChannelOpenTry(e), EventAux::UnionConnection(conn)) => match conn {
                None => Err(EventError::MissingState(MissingStateKind::Connection)),
                Some(cr) => Ok(ChainEvent {
                    chain_id: self.chain_id.clone(),
                    client_info: cr.client.client_info,
                    counterparty_chain_id: cr.client.client_meta.chain_id,
                    tx_hash,
                    provable_height,
                    ibc_spec_id: IbcSpecId::Union,
                    event: FullEvent::Union(
                        ibc_union::FullEvent::ChannelOpenTry(
                            ibc_union::ChannelOpenTry {
                                port_id: e.port_id,
                                channel_id: e.channel_id,
                                counterparty_port_id: e.counterparty_port_id,
                                counterparty_channel_id: e.counterparty_channel_id,
                                connection: cr.connection,
                                version: e.counterparty_version,
                            },
                        ),
                    ),
                }),
            },
            (IbcEvent::UnionChannelOpenConfirm(e), EventAux::UnionChannel(chan, conn)) => match chan {
                None => Err(EventError::MissingState(MissingStateKind::Channel)),
                Some(channel) => match conn {
                    None => Err(EventError::MissingState(MissingStateKind::Connection)),
                    Some(cr) => Ok(ChainEvent {
                        chain_id: self.chain_id.clone(),
                        client_info: cr.client.client_info,
                        counterparty_chain_id: cr.client.client_meta.chain_id,
                        tx_hash,
                        provable_height,
                        ibc_spec_id: IbcSpecId::Union,
                        event: FullEvent::Union(
                            ibc_union::FullEvent::ChannelOpenConfirm(
                                ibc_union::ChannelOpenConfirm {
                                    port_id: e.port_id,
                                    channel_id: e.channel_id,
                                    counterparty_port_id: e.counterparty_port_id,
                                    counterparty_channel_id: e.counterparty_channel_id,
                                    connection: cr.connection,
                                    version: channel.version,
                                },
                            ),
                        ),
                    }),
                },
            },
            (IbcEvent::UnionSendPacket(e), EventAux::UnionPacket(chan, conn)) => match chan {
                None => Err(EventError::MissingState(MissingStateKind::Channel)),
                Some(channel) => match conn {
                    None => Err(EventError::MissingState(MissingStateKind::Connection)),
                    Some(cr) => Ok(ChainEvent {
                        chain_id: self.chain_id.clone(),
                        client_info: cr.client.client_info,
                        counterparty_chain_id: cr.client.client_meta.chain_id,
                        tx_hash,
                        provable_height,
                        ibc_spec_id: IbcSpecId::Union,
                        event: FullEvent::Union(
                            ibc_union::FullEvent::PacketSend(
                                ibc_union::PacketSend {
                                    packet_data: e.packet.data,
                                    packet: ibc_union::PacketMetadata {
                                        source_channel: ibc_union::ChannelMetadata {
                                            channel_id: e.packet.source_channel,
                                            version: channel.version.clone(),
                                            connection: ibc_union::ConnectionMetadata {
                                                client_id: cr.connection.client_id,
                                                connection_id: channel.connection_id,
                                            },
                                        },
                                        destination_channel: ibc_union::ChannelMetadata {
                                            channel_id: e.packet.destination_channel,
                                            version: channel.version,
                                            connection: ibc_union::ConnectionMetadata {
                                                client_id: cr.connection.counterparty_client_id,
                                                connection_id: cr.connection.counterparty_connection_id,
                                            },
                                        },
                                        timeout_height: e.packet.timeout_height,
                                        timeout_timestamp: e.packet.timeout_timestamp,
                                    },
                                },
                            ),
                        ),
                    }),
                },
            },
            (_, _) => Err(EventError::AuxMismatch),
        }
    }
}


/// The self/other role swap is performed exactly: for a packet sent on one
/// chain and received on its counterparty, the two canonical records agree
/// on which channel is the packet's source and which its destination —
/// the send-side record and the receive-side record both label the
/// packet's own source channel as `source_channel` and its destination
/// channel as `destination_channel`, although the receiving chain resolves
/// its own (destination) side as "self".
pub proof fn lemma_packet_direction_roles(
    src_module: Module,
    dst_module: Module,
    src_height: Height,
    dst_height: Height,
    src_tx: H256,
    dst_tx: H256,
    send: events::SendPacket,
    recv: events::RecvPacket,
    src_aux: EventAux,
    dst_aux: EventAux,
)
    requires
        recv.packet.packet_src_port == send.packet.packet_src_port,
        recv.packet.packet_src_channel == send.packet.packet_src_channel,
        recv.packet.packet_dst_port == send.packet.packet_dst_port,
        recv.packet.packet_dst_channel == send.packet.packet_dst_channel,
        spec_make_chain_event(
            src_module,
            src_height,
            src_tx,
            IbcEvent::SendPacket(send),
            src_aux,
        ) is Ok,
        spec_make_chain_event(
            dst_module,
            dst_height,
            dst_tx,
            IbcEvent::RecvPacket(recv),
            dst_aux,
        ) is Ok,
    ensures
        ({
            let sp = spec_make_chain_event(
                src_module,
                src_height,
                src_tx,
                IbcEvent::SendPacket(send),
                src_aux,
            )->Ok_0.event->Classic_0->SendPacket_0.packet;
            let rp = spec_make_chain_event(
                dst_module,
                dst_height,
                dst_tx,
                IbcEvent::RecvPacket(recv),
                dst_aux,
            )->Ok_0.event->Classic_0->RecvPacket_0.packet;
            &&& sp.source_channel.channel_id == send.packet.packet_src_channel
            &&& sp.source_channel.port_id == send.packet.packet_src_port
            &&& sp.destination_channel.channel_id == send.packet.packet_dst_channel
            &&& sp.destination_channel.port_id == send.packet.packet_dst_port
            &&& rp.source_channel.channel_id == send.packet.packet_src_channel
            &&& rp.source_channel.port_id == send.packet.packet_src_port
            &&& rp.destination_channel.channel_id == send.packet.packet_dst_channel
            &&& rp.destination_channel.port_id == send.packet.packet_dst_port
            &&& sp.source_channel.channel_id == rp.source_channel.channel_id
            &&& sp.destination_channel.channel_id == rp.destination_channel.channel_id
        }),
{
    match src_aux {
        EventAux::Packet(conn, selfc, otherc) => {
            match spec_make_packet_metadata(
                send.packet.connection_id,
                send.packet.packet_src_port,
                send.packet.packet_src_channel,
                send.packet.packet_dst_port,
                send.packet.packet_dst_channel,
                conn,
                selfc,
                otherc,
            ) {
                Ok(pm) => {
                    assert(pm.2.channel_id == send.packet.packet_src_channel);
                    assert(pm.3.channel_id == send.packet.packet_dst_channel);
                },
                Err(_) => {
                    assert(false);
                },
            }
        },
        _ => {
            assert(false);
        },
    }
    match dst_aux {
        EventAux::Packet(conn, selfc, otherc) => {
            match spec_make_packet_metadata(
                recv.packet.connection_id,
                recv.packet.packet_dst_port,
                recv.packet.packet_dst_channel,
                recv.packet.packet_src_port,
                recv.packet.packet_src_channel,
                conn,
                selfc,
                otherc,
            ) {
                Ok(pm) => {
                    assert(pm.2.channel_id == recv.packet.packet_dst_channel);
                    assert(pm.3.channel_id == recv.packet.packet_src_channel);
                },
                Err(_) => {
                    assert(false);
                },
            }
        },
        _ => {
            assert(false);
        },
    }
}

} // verus!
