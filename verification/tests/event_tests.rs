use hyperspace_cosmos::error::Error;
use hyperspace_cosmos::event::{
    expect_single, find_attribute, parse_event, parse_events, Attribute, EventKind, IbcEvent,
    Module, RawEvent,
};
use hyperspace_cosmos::height::Height;

fn ev_raw(kind: &str, attributes: &[(&str, &str)]) -> RawEvent {
    RawEvent {
        kind: kind.to_string(),
        attributes: attributes
            .iter()
            .map(|(k, v)| Attribute { key: k.to_string(), value: v.to_string() })
            .collect(),
    }
}

fn ev_create_client(client_id: &str) -> RawEvent {
    ev_raw(
        "create_client",
        &[
            ("client_id", client_id),
            ("client_type", "07-tendermint"),
            ("consensus_height", "1-100"),
        ],
    )
}

fn ev_channel_open_init() -> RawEvent {
    ev_raw(
        "channel_open_init",
        &[
            ("port_id", "transfer"),
            ("channel_id", "channel-0"),
            ("counterparty_port_id", "transfer"),
            ("counterparty_channel_id", ""),
            ("connection_id", "connection-0"),
        ],
    )
}

fn ev_send_packet(sequence: &str) -> RawEvent {
    ev_raw(
        "send_packet",
        &[
            ("packet_data", "{\"amount\":\"1\"}"),
            ("packet_timeout_height", "1-1000"),
            ("packet_timeout_timestamp", "1700000000000000000"),
            ("packet_sequence", sequence),
            ("packet_src_port", "transfer"),
            ("packet_src_channel", "channel-0"),
            ("packet_dst_port", "transfer"),
            ("packet_dst_channel", "channel-7"),
        ],
    )
}

#[test]
fn event_kind_names_are_recognised() {
    let names = [
        ("create_client", EventKind::CreateClient, Module::Client),
        ("update_client", EventKind::UpdateClient, Module::Client),
        ("connection_open_init", EventKind::OpenInitConnection, Module::Connection),
        ("connection_open_try", EventKind::OpenTryConnection, Module::Connection),
        ("connection_open_ack", EventKind::OpenAckConnection, Module::Connection),
        ("connection_open_confirm", EventKind::OpenConfirmConnection, Module::Connection),
        ("channel_open_init", EventKind::OpenInitChannel, Module::Channel),
        ("channel_open_try", EventKind::OpenTryChannel, Module::Channel),
        ("channel_open_ack", EventKind::OpenAckChannel, Module::Channel),
        ("channel_open_confirm", EventKind::OpenConfirmChannel, Module::Channel),
        ("channel_close_init", EventKind::CloseInitChannel, Module::Channel),
        ("channel_close_confirm", EventKind::CloseConfirmChannel, Module::Channel),
        ("send_packet", EventKind::SendPacket, Module::Channel),
        ("recv_packet", EventKind::ReceivePacket, Module::Channel),
        ("acknowledge_packet", EventKind::AcknowledgePacket, Module::Channel),
        ("timeout_packet", EventKind::TimeoutPacket, Module::Channel),
    ];
    for (name, kind, module) in names {
        assert_eq!(EventKind::from_name(name), Some(kind));
        assert_eq!(kind.module(), module);
    }
    assert_eq!(EventKind::from_name("message"), None);
    assert_eq!(EventKind::from_name("transfer"), None);
    assert_eq!(EventKind::from_name("Create_Client"), None);
    assert_eq!(EventKind::from_name(""), None);
}

#[test]
fn find_attribute_takes_the_last_of_a_key() {
    let raw = ev_raw("x", &[("a", "1"), ("b", "2"), ("a", "3")]);
    assert_eq!(find_attribute(&raw.attributes, "a"), Some("3"));
    assert_eq!(find_attribute(&raw.attributes, "b"), Some("2"));
    assert_eq!(find_attribute(&raw.attributes, "c"), None);
    assert_eq!(find_attribute(&Vec::new(), "a"), None);
}

#[test]
fn parse_event_reads_a_client_creation() {
    let at = Height::new(1, 55);
    match parse_event(at, &ev_create_client("07-tendermint-3")) {
        Some(IbcEvent::CreateClient(a)) => {
            assert_eq!(a.height, at);
            assert_eq!(a.client_id.as_str(), "07-tendermint-3");
            assert_eq!(a.client_type, "07-tendermint");
            assert_eq!(a.consensus_height, Height::new(1, 100));
        }
        other => panic!("unexpected: {:?}", other),
    }
    let mut update = ev_create_client("07-tendermint-3");
    update.kind = "update_client".to_string();
    let event = parse_event(at, &update).unwrap();
    assert!(matches!(event, IbcEvent::UpdateClient(_)));
    assert_eq!(event.kind(), Some(EventKind::UpdateClient));
    assert_eq!(event.module(), Some(Module::Client));
    assert_eq!(event.height(), at);
    assert!(event.is_client_event());
    assert!(!event.is_connection_event());
    assert!(!event.is_channel_event());
}

#[test]
fn parse_event_reads_a_connection_handshake() {
    let at = Height::new(0, 9);
    let raw = ev_raw(
        "connection_open_try",
        &[
            ("connection_id", "connection-1"),
            ("client_id", "07-tendermint-0"),
            ("counterparty_client_id", "07-tendermint-5"),
            ("counterparty_connection_id", "connection-9"),
        ],
    );
    match parse_event(at, &raw) {
        Some(IbcEvent::OpenTryConnection(a)) => {
            assert_eq!(a.connection_id.as_str(), "connection-1");
            assert_eq!(a.client_id.as_str(), "07-tendermint-0");
            assert_eq!(a.counterparty_client_id.as_str(), "07-tendermint-5");
            assert_eq!(a.counterparty_connection_id.unwrap().as_str(), "connection-9");
        }
        other => panic!("unexpected: {:?}", other),
    }
    let init = ev_raw(
        "connection_open_init",
        &[
            ("connection_id", "connection-1"),
            ("client_id", "07-tendermint-0"),
            ("counterparty_client_id", "07-tendermint-5"),
            ("counterparty_connection_id", ""),
        ],
    );
    match parse_event(at, &init) {
        Some(IbcEvent::OpenInitConnection(a)) => {
            assert_eq!(a.counterparty_connection_id, None);
        }
        other => panic!("unexpected: {:?}", other),
    }
}

#[test]
fn parse_event_reads_a_channel_handshake() {
    let at = Height::new(0, 9);
    match parse_event(at, &ev_channel_open_init()) {
        Some(IbcEvent::OpenInitChannel(a)) => {
            assert_eq!(a.port_id.as_str(), "transfer");
            assert_eq!(a.channel_id.as_str(), "channel-0");
            assert_eq!(a.connection_id.as_str(), "connection-0");
            assert_eq!(a.counterparty_port_id.as_str(), "transfer");
            assert_eq!(a.counterparty_channel_id, None);
        }
        other => panic!("unexpected: {:?}", other),
    }
    let mut close = ev_channel_open_init();
    close.kind = "channel_close_confirm".to_string();
    close.attributes.push(Attribute {
        key: "counterparty_channel_id".to_string(),
        value: "channel-44".to_string(),
    });
    match parse_event(at, &close) {
        Some(IbcEvent::CloseConfirmChannel(a)) => {
            assert_eq!(a.counterparty_channel_id.unwrap().as_str(), "channel-44");
        }
        other => panic!("unexpected: {:?}", other),
    }
}

#[test]
fn parse_event_reads_a_packet() {
    let at = Height::new(1, 77);
    match parse_event(at, &ev_send_packet("42")) {
        Some(IbcEvent::SendPacket(a)) => {
            assert_eq!(a.height, at);
            assert_eq!(a.sequence, 42);
            assert_eq!(a.source_port.as_str(), "transfer");
            assert_eq!(a.source_channel.as_str(), "channel-0");
            assert_eq!(a.destination_port.as_str(), "transfer");
            assert_eq!(a.destination_channel.as_str(), "channel-7");
            assert_eq!(a.timeout_height, Height::new(1, 1000));
            assert_eq!(a.timeout_timestamp, 1700000000000000000);
        }
        other => panic!("unexpected: {:?}", other),
    }
    for (name, kind) in [
        ("recv_packet", EventKind::ReceivePacket),
        ("acknowledge_packet", EventKind::AcknowledgePacket),
        ("timeout_packet", EventKind::TimeoutPacket),
    ] {
        let mut raw = ev_send_packet("1");
        raw.kind = name.to_string();
        let event = parse_event(at, &raw).unwrap();
        assert_eq!(event.kind(), Some(kind));
        assert!(event.is_channel_event());
    }
}

#[test]
fn parse_event_drops_what_it_cannot_read() {
    let at = Height::new(1, 1);
    // no protocol event at all
    assert_eq!(parse_event(at, &ev_raw("message", &[("module", "ibc_client")])), None);
    // a malformed identifier
    assert_eq!(parse_event(at, &ev_create_client("bad/id")), None);
    // a missing attribute
    assert_eq!(
        parse_event(
            at,
            &ev_raw("create_client", &[("client_id", "07-tendermint-0"), ("client_type", "x")])
        ),
        None
    );
    // a malformed height
    assert_eq!(
        parse_event(
            at,
            &ev_raw(
                "create_client",
                &[
                    ("client_id", "07-tendermint-0"),
                    ("client_type", "07-tendermint"),
                    ("consensus_height", "100"),
                ]
            )
        ),
        None
    );
    // a malformed sequence number, which must not abort anything
    assert_eq!(parse_event(at, &ev_send_packet("forty-two")), None);
    assert_eq!(parse_event(at, &ev_send_packet("")), None);
    assert_eq!(parse_event(at, &ev_send_packet("18446744073709551616")), None);
}

#[test]
fn parse_events_keeps_the_order_and_skips_the_rest() {
    let at = Height::new(2, 10);
    let raws = vec![
        ev_raw("message", &[("action", "/ibc.core.client.v1.MsgCreateClient")]),
        ev_create_client("07-tendermint-0"),
        ev_send_packet("oops"),
        ev_channel_open_init(),
        ev_send_packet("3"),
    ];
    let events = parse_events(at, &raws);
    let kinds: Vec<Option<EventKind>> = events.iter().map(|e| e.kind()).collect();
    assert_eq!(
        kinds,
        vec![
            Some(EventKind::CreateClient),
            Some(EventKind::OpenInitChannel),
            Some(EventKind::SendPacket)
        ]
    );
    assert!(events.iter().all(|e| e.height() == at));
    assert!(parse_events(at, &Vec::new()).is_empty());
}

#[test]
fn expect_single_wants_exactly_one() {
    let at = Height::new(0, 5);
    let one = parse_events(at, &vec![ev_channel_open_init(), ev_create_client("07-tendermint-0")]);
    match expect_single(EventKind::CreateClient, one) {
        Ok(IbcEvent::CreateClient(a)) => assert_eq!(a.client_id.as_str(), "07-tendermint-0"),
        other => panic!("unexpected: {:?}", other),
    }
    let none = parse_events(at, &vec![ev_channel_open_init()]);
    assert_eq!(
        expect_single(EventKind::CreateClient, none),
        Err(Error::UnexpectedEventCount { found: 0 })
    );
    let two = parse_events(
        at,
        &vec![ev_create_client("07-tendermint-0"), ev_create_client("07-tendermint-1")],
    );
    assert_eq!(
        expect_single(EventKind::CreateClient, two),
        Err(Error::UnexpectedEventCount { found: 2 })
    );
    assert_eq!(
        expect_single(EventKind::SendPacket, Vec::new()),
        Err(Error::UnexpectedEventCount { found: 0 })
    );
}
