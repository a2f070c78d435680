use hyperspace_cosmos::error::Error;
use hyperspace_cosmos::event::{Attribute, EventKind, IbcEvent, Module, RawEvent};
use hyperspace_cosmos::height::Height;
use hyperspace_cosmos::subscription::{
    classify, extract_module_events, subscription_filters, Delivery, EventPayload,
    EventSubscriptionPipeline, SubscriptionTag,
};

fn sub_raw(kind: &str, attributes: &[(&str, &str)]) -> RawEvent {
    RawEvent {
        kind: kind.to_string(),
        attributes: attributes
            .iter()
            .map(|(k, v)| Attribute { key: k.to_string(), value: v.to_string() })
            .collect(),
    }
}

fn sub_client_event() -> RawEvent {
    sub_raw(
        "update_client",
        &[
            ("client_id", "07-tendermint-0"),
            ("client_type", "07-tendermint"),
            ("consensus_height", "0-41"),
        ],
    )
}

fn sub_channel_event() -> RawEvent {
    sub_raw(
        "channel_open_try",
        &[
            ("port_id", "transfer"),
            ("channel_id", "channel-1"),
            ("counterparty_port_id", "transfer"),
            ("counterparty_channel_id", "channel-0"),
            ("connection_id", "connection-0"),
        ],
    )
}

fn sub_connection_event() -> RawEvent {
    sub_raw(
        "connection_open_ack",
        &[
            ("connection_id", "connection-0"),
            ("client_id", "07-tendermint-0"),
            ("counterparty_client_id", "07-tendermint-1"),
            ("counterparty_connection_id", "connection-1"),
        ],
    )
}

fn sub_tx(events: Vec<RawEvent>) -> EventPayload {
    EventPayload::Tx { height: 42, events }
}

#[test]
fn filters_are_the_four_queries_of_the_node() {
    assert_eq!(SubscriptionTag::NewBlock.filter(), "tm.event = 'NewBlock'");
    assert_eq!(SubscriptionTag::Client.filter(), "message.module = 'ibc_client'");
    assert_eq!(SubscriptionTag::Connection.filter(), "message.module = 'ibc_connection'");
    assert_eq!(SubscriptionTag::Channel.filter(), "message.module = 'ibc_channel'");
    assert_eq!(
        subscription_filters(),
        vec![
            "tm.event = 'NewBlock'".to_string(),
            "message.module = 'ibc_client'".to_string(),
            "message.module = 'ibc_connection'".to_string(),
            "message.module = 'ibc_channel'".to_string(),
        ]
    );
}

#[test]
fn a_filter_leads_back_to_its_subscription() {
    for tag in [
        SubscriptionTag::NewBlock,
        SubscriptionTag::Client,
        SubscriptionTag::Connection,
        SubscriptionTag::Channel,
    ] {
        assert_eq!(SubscriptionTag::of_filter(&tag.filter()), Some(tag));
    }
    assert_eq!(SubscriptionTag::of_filter("tm.event = 'Tx'"), None);
    assert_eq!(SubscriptionTag::of_filter("message.module = 'bank'"), None);
    assert_eq!(SubscriptionTag::of_filter(""), None);
    assert_eq!(SubscriptionTag::NewBlock.module(), None);
    assert_eq!(SubscriptionTag::Client.module(), Some(Module::Client));
    assert_eq!(SubscriptionTag::Connection.module(), Some(Module::Connection));
    assert_eq!(SubscriptionTag::Channel.module(), Some(Module::Channel));
}

#[test]
fn client_subscription_yields_exactly_the_client_event() {
    let payload = sub_tx(vec![sub_client_event(), sub_channel_event()]);
    let events = classify(Some(SubscriptionTag::Client), 0, &payload);
    assert_eq!(events.len(), 1);
    match &events[0] {
        IbcEvent::UpdateClient(a) => {
            assert_eq!(a.client_id.as_str(), "07-tendermint-0");
            assert_eq!(a.height, Height::new(0, 42));
        }
        other => panic!("unexpected: {:?}", other),
    }
}

#[test]
fn channel_subscription_yields_exactly_the_channel_event() {
    let payload = sub_tx(vec![sub_client_event(), sub_channel_event()]);
    let events = classify(Some(SubscriptionTag::Channel), 0, &payload);
    assert_eq!(events.len(), 1);
    match &events[0] {
        IbcEvent::OpenTryChannel(a) => {
            assert_eq!(a.channel_id.as_str(), "channel-1");
            assert_eq!(a.counterparty_channel_id.as_ref().unwrap().as_str(), "channel-0");
        }
        other => panic!("unexpected: {:?}", other),
    }
    let none = classify(Some(SubscriptionTag::Connection), 0, &payload);
    assert!(none.is_empty());
}

#[test]
fn no_event_leaks_into_another_subscription() {
    let raws = vec![
        sub_channel_event(),
        sub_client_event(),
        sub_raw("message", &[("module", "ibc_client")]),
        sub_connection_event(),
        sub_raw("create_client", &[("client_id", "broken/id")]),
        sub_client_event(),
    ];
    let at = Height::new(3, 8);
    let client = extract_module_events(Module::Client, at, &raws);
    let connection = extract_module_events(Module::Connection, at, &raws);
    let channel = extract_module_events(Module::Channel, at, &raws);
    assert_eq!(client.len(), 2);
    assert_eq!(connection.len(), 1);
    assert_eq!(channel.len(), 1);
    assert!(client.iter().all(|e| e.module() == Some(Module::Client)));
    assert!(connection.iter().all(|e| e.kind() == Some(EventKind::OpenAckConnection)));
    assert!(channel.iter().all(|e| e.kind() == Some(EventKind::OpenTryChannel)));
}

#[test]
fn new_block_gives_a_block_event_on_its_own_subscription_only() {
    let payload = EventPayload::NewBlock { height: 100 };
    assert_eq!(
        classify(Some(SubscriptionTag::NewBlock), 2, &payload),
        vec![IbcEvent::NewBlock(Height::new(2, 100))]
    );
    assert!(classify(Some(SubscriptionTag::Client), 2, &payload).is_empty());
    assert!(classify(None, 2, &payload).is_empty());
    let tx = sub_tx(vec![sub_client_event()]);
    assert!(classify(Some(SubscriptionTag::NewBlock), 2, &tx).is_empty());
    assert!(classify(None, 2, &tx).is_empty());
    assert!(classify(Some(SubscriptionTag::Client), 2, &EventPayload::Other).is_empty());
}

#[test]
fn pipeline_classifies_by_the_filter_of_the_message() {
    let mut pipeline = EventSubscriptionPipeline::new(1);
    assert!(pipeline.is_open());
    let events = pipeline
        .on_item(Ok(Delivery {
            query: "message.module = 'ibc_client'".to_string(),
            payload: sub_tx(vec![sub_client_event(), sub_channel_event()]),
        }))
        .unwrap();
    assert_eq!(events.len(), 1);
    assert_eq!(events[0].kind(), Some(EventKind::UpdateClient));
    assert_eq!(events[0].height(), Height::new(1, 42));
    let events = pipeline
        .on_item(Ok(Delivery {
            query: "tm.event = 'NewBlock'".to_string(),
            payload: EventPayload::NewBlock { height: 43 },
        }))
        .unwrap();
    assert_eq!(events, vec![IbcEvent::NewBlock(Height::new(1, 43))]);
    let events = pipeline
        .on_item(Ok(Delivery {
            query: "message.module = 'bank'".to_string(),
            payload: sub_tx(vec![sub_client_event()]),
        }))
        .unwrap();
    assert!(events.is_empty());
    assert!(pipeline.is_open());
}

#[test]
fn pipeline_ends_for_good_when_the_transport_fails() {
    let mut pipeline = EventSubscriptionPipeline::new(0);
    let failure = pipeline.on_item(Err("connection reset".to_string()));
    assert_eq!(failure, Err(Error::Subscription { message: "connection reset".to_string() }));
    assert!(!pipeline.is_open());
    let after = pipeline.on_item(Ok(Delivery {
        query: "tm.event = 'NewBlock'".to_string(),
        payload: EventPayload::NewBlock { height: 1 },
    }));
    assert!(matches!(after, Err(Error::Subscription { .. })));
    assert!(!pipeline.is_open());
}
