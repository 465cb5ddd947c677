use cosmos_event_source::chain_event::{ClientInfo, ClientMeta, FullEvent, IbcSpecId};
use cosmos_event_source::events;
use cosmos_event_source::events::{IbcEvent, Order, PacketFields};
use cosmos_event_source::height::Height;
use cosmos_event_source::ibc_classic;
use cosmos_event_source::ibc_union;
use cosmos_event_source::ids::{ChainId, ChannelId, ClientId, ClientType, ConnectionId, PortId, H256};
use cosmos_event_source::module::Module;
use cosmos_event_source::resolve::{
    AuxPlan, ClientResolution, ConnectionResolution, EventAux, EventError, MissingStateKind,
    UnionConnectionResolution,
};

fn module() -> Module {
    Module::new("union-testnet-8".to_string(), String::new()).unwrap()
}

fn height(h: u64) -> Height {
    Height {
        revision: 8,
        height: h,
    }
}

fn tx_hash(b: u8) -> H256 {
    H256::try_from_bytes(vec![b; 32]).unwrap()
}

fn client_resolution() -> ClientResolution {
    ClientResolution {
        client_info: ClientInfo {
            client_type: ClientType::new("cometbls".to_string()),
            ibc_interface: "ibc-go-v8/08-wasm".to_string(),
        },
        client_meta: ClientMeta {
            chain_id: ChainId::new("osmosis-1".to_string()),
            counterparty_height: height(77),
        },
    }
}

fn connection_end() -> ibc_classic::ConnectionEnd {
    ibc_classic::ConnectionEnd {
        client_id: ClientId::new("07-tendermint-5".to_string()),
        counterparty: ibc_classic::ConnectionCounterparty {
            client_id: ClientId::new("08-wasm-3".to_string()),
            connection_id: Some(ConnectionId::new("connection-9".to_string())),
        },
    }
}

fn packet_fields() -> PacketFields {
    PacketFields {
        packet_sequence: 14,
        packet_src_port: PortId::new("transfer".to_string()),
        packet_src_channel: ChannelId::new("channel-0".to_string()),
        packet_dst_port: PortId::new("wasm.union1abc".to_string()),
        packet_dst_channel: ChannelId::new("channel-1".to_string()),
        packet_timeout_height: height(500),
        packet_timeout_timestamp: 1700000000,
        connection_id: ConnectionId::new("connection-2".to_string()),
    }
}

fn packet_aux() -> EventAux {
    EventAux::Packet(
        Some(ConnectionResolution {
            connection: connection_end(),
            client: client_resolution(),
        }),
        Some(ibc_classic::Channel {
            ordering: Order::Unordered,
            version: "ics20-1".to_string(),
        }),
        Some(ibc_classic::Channel {
            ordering: Order::Unordered,
            version: "ics20-1-counterparty".to_string(),
        }),
    )
}

#[test]
fn provable_height_is_one_past_the_event_height() {
    let m = module();
    let event = IbcEvent::CreateClient(events::CreateClient {
        client_id: ClientId::new("07-tendermint-5".to_string()),
        client_type: "07-tendermint".to_string(),
        consensus_height: height(10),
    });
    let ce = m
        .make_chain_event(
            height(41),
            tx_hash(1),
            event,
            EventAux::Client(client_resolution()),
        )
        .unwrap();
    assert_eq!(ce.provable_height, height(42));
    assert_eq!(ce.chain_id.id, "union-testnet-8");
    assert_eq!(ce.counterparty_chain_id.id, "osmosis-1");
    assert_eq!(ce.ibc_spec_id, IbcSpecId::Classic);
    match ce.event {
        FullEvent::Classic(ibc_classic::FullEvent::CreateClient(c)) => {
            assert_eq!(c.client_id.id, "07-tendermint-5");
            assert_eq!(c.client_type.ty, "07-tendermint");
            assert_eq!(c.consensus_height, height(10));
        }
        other => panic!("unexpected body: {other:?}"),
    }
}

#[test]
fn send_packet_labels_self_as_source() {
    let m = module();
    let event = IbcEvent::SendPacket(events::SendPacket {
        packet_data_hex: vec![1, 2, 3],
        packet: packet_fields(),
    });
    let ce = m
        .make_chain_event(height(41), tx_hash(2), event, packet_aux())
        .unwrap();
    match ce.event {
        FullEvent::Classic(ibc_classic::FullEvent::SendPacket(s)) => {
            assert_eq!(s.packet_data, vec![1, 2, 3]);
            assert_eq!(s.packet.sequence, 14);
            assert_eq!(s.packet.source_channel.channel_id.id, "channel-0");
            assert_eq!(s.packet.source_channel.port_id.id, "transfer");
            assert_eq!(s.packet.source_channel.version, "ics20-1");
            assert_eq!(
                s.packet.source_channel.connection.connection_id.id,
                "connection-2"
            );
            assert_eq!(
                s.packet.source_channel.connection.client_id.id,
                "07-tendermint-5"
            );
            assert_eq!(s.packet.destination_channel.channel_id.id, "channel-1");
            assert_eq!(s.packet.destination_channel.port_id.id, "wasm.union1abc");
            assert_eq!(
                s.packet.destination_channel.version,
                "ics20-1-counterparty"
            );
            assert_eq!(
                s.packet.destination_channel.connection.connection_id.id,
                "connection-9"
            );
            assert_eq!(
                s.packet.destination_channel.connection.client_id.id,
                "08-wasm-3"
            );
            assert_eq!(s.packet.channel_ordering, Order::Unordered);
        }
        other => panic!("unexpected body: {other:?}"),
    }
}

#[test]
fn recv_packet_swaps_the_roles_back() {
    // The receiving chain resolves its own side, the destination; the
    // canonical record still labels the packet's source channel as the
    // source. Note the packet fields name the same channels as for the
    // matching send.
    let m = module();
    let event = IbcEvent::RecvPacket(events::RecvPacket {
        packet_data_hex: vec![1, 2, 3],
        packet: packet_fields(),
    });
    let ce = m
        .make_chain_event(height(41), tx_hash(3), event, packet_aux())
        .unwrap();
    match ce.event {
        FullEvent::Classic(ibc_classic::FullEvent::RecvPacket(r)) => {
            // self side = destination: version resolved from this chain's
            // channel end.
            assert_eq!(r.packet.source_channel.channel_id.id, "channel-0");
            assert_eq!(r.packet.source_channel.port_id.id, "transfer");
            assert_eq!(r.packet.source_channel.version, "ics20-1-counterparty");
            assert_eq!(r.packet.destination_channel.channel_id.id, "channel-1");
            assert_eq!(r.packet.destination_channel.port_id.id, "wasm.union1abc");
            assert_eq!(r.packet.destination_channel.version, "ics20-1");
        }
        other => panic!("unexpected body: {other:?}"),
    }
}

#[test]
fn aux_plan_swaps_self_side_by_direction() {
    let m = module();
    let outbound = m.aux_plan(&IbcEvent::SendPacket(events::SendPacket {
        packet_data_hex: vec![],
        packet: packet_fields(),
    }));
    match outbound {
        AuxPlan::Packet {
            self_channel_id,
            other_channel_id,
            ..
        } => {
            assert_eq!(self_channel_id.id, "channel-0");
            assert_eq!(other_channel_id.id, "channel-1");
        }
        other => panic!("unexpected plan: {other:?}"),
    }
    let inbound = m.aux_plan(&IbcEvent::WriteAcknowledgement(events::WriteAcknowledgement {
        packet_data_hex: vec![],
        packet_ack_hex: vec![],
        packet: packet_fields(),
    }));
    match inbound {
        AuxPlan::Packet {
            self_channel_id,
            other_channel_id,
            ..
        } => {
            assert_eq!(self_channel_id.id, "channel-1");
            assert_eq!(other_channel_id.id, "channel-0");
        }
        other => panic!("unexpected plan: {other:?}"),
    }
}

#[test]
fn submit_evidence_is_unsupported() {
    let m = module();
    let event = IbcEvent::SubmitEvidence(events::SubmitEvidence {
        evidence_hash: tx_hash(9),
    });
    assert_eq!(
        m.make_chain_event(height(1), tx_hash(1), event, EventAux::Client(client_resolution())),
        Err(EventError::Unsupported)
    );
}

#[test]
fn missing_connection_state_aborts_the_branch() {
    let m = module();
    let event = IbcEvent::ChannelOpenInit(events::ChannelOpenInit {
        port_id: PortId::new("transfer".to_string()),
        channel_id: ChannelId::new("channel-4".to_string()),
        counterparty_port_id: PortId::new("transfer".to_string()),
        connection_id: ConnectionId::new("connection-2".to_string()),
        version: "ics20-1".to_string(),
    });
    assert_eq!(
        m.make_chain_event(height(1), tx_hash(1), event, EventAux::Connection(None)),
        Err(EventError::MissingState(MissingStateKind::Connection))
    );
}

#[test]
fn unset_counterparty_connection_id_aborts_the_branch() {
    let m = module();
    let mut aux = packet_aux();
    if let EventAux::Packet(Some(ref mut cr), _, _) = aux {
        cr.connection.counterparty.connection_id = None;
    }
    let event = IbcEvent::SendPacket(events::SendPacket {
        packet_data_hex: vec![],
        packet: packet_fields(),
    });
    assert_eq!(
        m.make_chain_event(height(1), tx_hash(1), event, aux),
        Err(EventError::MissingCounterpartyConnectionId)
    );
}

#[test]
fn mismatched_context_is_a_defect() {
    let m = module();
    let event = IbcEvent::CreateClient(events::CreateClient {
        client_id: ClientId::new("07-tendermint-5".to_string()),
        client_type: "07-tendermint".to_string(),
        consensus_height: height(10),
    });
    assert_eq!(
        m.make_chain_event(height(1), tx_hash(1), event, EventAux::Connection(None)),
        Err(EventError::AuxMismatch)
    );
}

#[test]
fn union_create_client_is_canonicalized() {
    let m = module();
    let event = IbcEvent::UnionCreateClient(events::UnionCreateClient {
        client_id: 3,
        client_type: "cometbls".to_string(),
    });
    let ce = m
        .make_chain_event(
            height(41),
            tx_hash(4),
            event,
            EventAux::Client(client_resolution()),
        )
        .unwrap();
    assert_eq!(ce.ibc_spec_id, IbcSpecId::Union);
    match ce.event {
        FullEvent::Union(ibc_union::FullEvent::CreateClient(c)) => {
            assert_eq!(c.client_id, 3);
            assert_eq!(c.client_type.ty, "cometbls");
        }
        other => panic!("unexpected body: {other:?}"),
    }
}

#[test]
fn union_send_packet_reads_both_sides_from_the_source() {
    let m = module();
    let event = IbcEvent::UnionSendPacket(events::UnionSendPacket {
        packet: events::UnionPacket {
            source_channel: 2,
            destination_channel: 6,
            data: vec![9, 9],
            timeout_height: 800,
            timeout_timestamp: 1700000001,
        },
    });
    let aux = EventAux::UnionPacket(
        Some(ibc_union::Channel {
            connection_id: 4,
            version: "ucs01".to_string(),
        }),
        Some(UnionConnectionResolution {
            connection: ibc_union::Connection {
                client_id: 1,
                counterparty_client_id: 11,
                counterparty_connection_id: 44,
            },
            client: client_resolution(),
        }),
    );
    let ce = m
        .make_chain_event(height(41), tx_hash(5), event, aux)
        .unwrap();
    match ce.event {
        FullEvent::Union(ibc_union::FullEvent::PacketSend(p)) => {
            assert_eq!(p.packet_data, vec![9, 9]);
            assert_eq!(p.packet.source_channel.channel_id, 2);
            assert_eq!(p.packet.source_channel.version, "ucs01");
            assert_eq!(p.packet.source_channel.connection.client_id, 1);
            assert_eq!(p.packet.source_channel.connection.connection_id, 4);
            assert_eq!(p.packet.destination_channel.channel_id, 6);
            assert_eq!(p.packet.destination_channel.version, "ucs01");
            assert_eq!(p.packet.destination_channel.connection.client_id, 11);
            assert_eq!(p.packet.destination_channel.connection.connection_id, 44);
            assert_eq!(p.packet.timeout_height, 800);
            assert_eq!(p.packet.timeout_timestamp, 1700000001);
        }
        other => panic!("unexpected body: {other:?}"),
    }
}

#[test]
fn union_channel_open_confirm_checks_channel_before_connection() {
    let m = module();
    let event = IbcEvent::UnionChannelOpenConfirm(events::UnionChannelOpenConfirm {
        port_id: b"union1abc".to_vec(),
        channel_id: 2,
        counterparty_port_id: b"0xdeadbeef".to_vec(),
        counterparty_channel_id: 7,
        connection_id: 4,
    });
    assert_eq!(
        m.make_chain_event(
            height(1),
            tx_hash(1),
            event,
            EventAux::UnionChannel(None, None)
        ),
        Err(EventError::MissingState(MissingStateKind::Channel))
    );
}

#[test]
fn missing_counterparty_channel_state_aborts_the_branch() {
    let m = module();
    let aux = match packet_aux() {
        EventAux::Packet(conn, selfc, _) => EventAux::Packet(conn, selfc, None),
        other => panic!("unexpected aux: {other:?}"),
    };
    let event = IbcEvent::AcknowledgePacket(events::AcknowledgePacket {
        packet: packet_fields(),
    });
    assert_eq!(
        m.make_chain_event(height(1), tx_hash(1), event, aux),
        Err(EventError::MissingState(MissingStateKind::CounterpartyChannel))
    );
}

#[test]
fn channel_open_ack_takes_its_version_from_the_channel_end() {
    let m = module();
    let event = IbcEvent::ChannelOpenAck(events::ChannelOpenAck {
        port_id: PortId::new("transfer".to_string()),
        channel_id: ChannelId::new("channel-0".to_string()),
        counterparty_port_id: PortId::new("transfer".to_string()),
        counterparty_channel_id: ChannelId::new("channel-1".to_string()),
        connection_id: ConnectionId::new("connection-2".to_string()),
    });
    let aux = EventAux::ChannelHandshake(
        Some(ConnectionResolution {
            connection: connection_end(),
            client: client_resolution(),
        }),
        Some(ibc_classic::Channel {
            ordering: Order::Ordered,
            version: "ics20-1".to_string(),
        }),
    );
    let ce = m
        .make_chain_event(height(41), tx_hash(6), event, aux)
        .unwrap();
    match ce.event {
        FullEvent::Classic(ibc_classic::FullEvent::ChannelOpenAck(a)) => {
            assert_eq!(a.version, "ics20-1");
            assert_eq!(a.connection, connection_end());
            assert_eq!(a.channel_id.id, "channel-0");
            assert_eq!(a.counterparty_channel_id.id, "channel-1");
        }
        other => panic!("unexpected body: {other:?}"),
    }
}

#[test]
fn union_channel_open_try_embeds_its_connection() {
    let m = module();
    let event = IbcEvent::UnionChannelOpenTry(events::UnionChannelOpenTry {
        port_id: b"union1abc".to_vec(),
        channel_id: 2,
        counterparty_port_id: b"0xdeadbeef".to_vec(),
        counterparty_channel_id: 7,
        connection_id: 4,
        counterparty_version: "ucs01".to_string(),
    });
    let aux = EventAux::UnionConnection(Some(UnionConnectionResolution {
        connection: ibc_union::Connection {
            client_id: 1,
            counterparty_client_id: 11,
            counterparty_connection_id: 44,
        },
        client: client_resolution(),
    }));
    let ce = m
        .make_chain_event(height(41), tx_hash(7), event, aux)
        .unwrap();
    match ce.event {
        FullEvent::Union(ibc_union::FullEvent::ChannelOpenTry(t)) => {
            assert_eq!(t.port_id, b"union1abc".to_vec());
            assert_eq!(t.counterparty_port_id, b"0xdeadbeef".to_vec());
            assert_eq!(t.channel_id, 2);
            assert_eq!(t.counterparty_channel_id, 7);
            assert_eq!(t.version, "ucs01");
            assert_eq!(t.connection.client_id, 1);
            assert_eq!(t.connection.counterparty_connection_id, 44);
        }
        other => panic!("unexpected body: {other:?}"),
    }
}
