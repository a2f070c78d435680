use hyperspace_cosmos::client::{CosmosClient, CosmosClientConfig};
use hyperspace_cosmos::client_state::{
    default_trust_options, ClientState, ConsensusState,
};
use hyperspace_cosmos::error::Error;
use hyperspace_cosmos::event::{Attribute, EventKind, IbcEvent, RawEvent};
use hyperspace_cosmos::finality::{
    select_window, FinalityEvent, FinalityProtocol, UpdateKind, UpdatePayload,
};
use hyperspace_cosmos::height::Height;
use hyperspace_cosmos::identifier::{ChainId, ChannelId, ClientId, ConnectionId, PortId};
use hyperspace_cosmos::light_client::{
    LightBlock, LightClientVerifier, TrustOptions, TrustThreshold, Validator,
};
use hyperspace_cosmos::path::ProofPath;
use hyperspace_cosmos::query::{BaseAccount, NodeStatus};
use hyperspace_cosmos::subscription::{Delivery, EventPayload};
use hyperspace_cosmos::timestamp::Timestamp;
use hyperspace_cosmos::tracker::TxResponse;
use prost::Message;

const CL_SECOND: u64 = 1_000_000_000;
const CL_GENESIS: u64 = 1_700_000_000 * CL_SECOND;

fn cl_config() -> CosmosClientConfig {
    CosmosClientConfig {
        name: "chain_a".to_string(),
        chain_id: "ibc-0".to_string(),
        rpc_url: "http://127.0.0.1:27030".to_string(),
        grpc_url: "http://127.0.0.1:27032".to_string(),
        websocket_url: "ws://127.0.0.1:27030/websocket".to_string(),
        client_id: Some("7-tendermint".to_string()),
        connection_id: None,
        account_prefix: "cosmos".to_string(),
        store_prefix: "ibc".to_string(),
        key_name: "wallet".to_string(),
    }
}

fn cl_config_without_client() -> CosmosClientConfig {
    CosmosClientConfig { client_id: None, ..cl_config() }
}

fn cl_validators() -> Vec<Validator> {
    vec![
        Validator { address: vec![1; 20], power: 10 },
        Validator { address: vec![2; 20], power: 10 },
        Validator { address: vec![3; 20], power: 10 },
    ]
}

fn cl_block(height: u64, signed: [bool; 3]) -> LightBlock {
    LightBlock {
        height,
        time: Timestamp::from_nanoseconds(CL_GENESIS + height * CL_SECOND),
        app_hash: vec![height as u8; 32],
        validators_hash: vec![7; 32],
        next_validators_hash: vec![7; 32],
        validators: cl_validators(),
        next_validators: cl_validators(),
        signatures: signed.to_vec(),
    }
}

fn cl_now(height: u64) -> Timestamp {
    Timestamp::from_nanoseconds(CL_GENESIS + height * CL_SECOND + CL_SECOND)
}

fn cl_packet_event(height: u64, sequence: u64) -> IbcEvent {
    let raw = RawEvent {
        kind: "send_packet".to_string(),
        attributes: [
            ("packet_sequence", sequence.to_string()),
            ("packet_src_port", "transfer".to_string()),
            ("packet_src_channel", "channel-0".to_string()),
            ("packet_dst_port", "transfer".to_string()),
            ("packet_dst_channel", "channel-1".to_string()),
            ("packet_timeout_height", "0-0".to_string()),
            ("packet_timeout_timestamp", "0".to_string()),
        ]
        .iter()
        .map(|(k, v)| Attribute { key: k.to_string(), value: v.clone() })
        .collect(),
    };
    hyperspace_cosmos::event::parse_event(Height::new(0, height), &raw).unwrap()
}

#[test]
fn new_builds_the_identity_from_the_options() {
    let client = CosmosClient::new(cl_config()).unwrap();
    assert_eq!(client.name, "chain_a");
    assert_eq!(client.rpc_url, "http://127.0.0.1:27030");
    assert_eq!(client.grpc_url, "http://127.0.0.1:27032");
    assert_eq!(client.websocket_url, "ws://127.0.0.1:27030/websocket");
    assert_eq!(client.chain_id, ChainId::from_string("ibc-0"));
    assert_eq!(client.client_id().as_str(), "7-tendermint");
    assert_eq!(client.connection_id, None);
    assert_eq!(client.light_client, None);
    assert_eq!(client.key_name, "wallet");
    assert_eq!(client.account_prefix, "cosmos");
    assert_eq!(client.commitment_prefix, b"ibc".to_vec());
    assert_eq!(client.connection_prefix(), b"ibc".to_vec());
    assert!(client.channel_whitelist.is_empty());
    assert!(client.channel_whitelist().is_empty());
    assert_eq!(client.finality_protocol, FinalityProtocol::Tendermint);
    assert_eq!(client.expected_block_time(), 10);
    assert_eq!(client.client_type(), "07-tendermint");
}

#[test]
fn new_accepts_missing_optional_identifiers() {
    let client = CosmosClient::new(cl_config_without_client()).unwrap();
    assert_eq!(client.client_id, None);
    assert_eq!(client.connection_id, None);
    let with_connection = CosmosClient::new(CosmosClientConfig {
        connection_id: Some("connection-4".to_string()),
        ..cl_config()
    })
    .unwrap();
    assert_eq!(with_connection.connection_id().as_str(), "connection-4");
}

#[test]
fn new_refuses_bad_options() {
    let bad_client = CosmosClientConfig { client_id: Some("x".to_string()), ..cl_config() };
    assert_eq!(CosmosClient::new(bad_client), Err(Error::InvalidIdentifier));
    let bad_connection =
        CosmosClientConfig { connection_id: Some("c/0".to_string()), ..cl_config() };
    assert_eq!(CosmosClient::new(bad_connection), Err(Error::InvalidIdentifier));
    let no_prefix = CosmosClientConfig { store_prefix: String::new(), ..cl_config() };
    assert_eq!(CosmosClient::new(no_prefix), Err(Error::InvalidStorePrefix));
    let both =
        CosmosClientConfig { client_id: Some("x".to_string()), store_prefix: String::new(), ..cl_config() };
    assert_eq!(CosmosClient::new(both), Err(Error::InvalidIdentifier));
}

#[test]
fn identity_is_set_after_setup() {
    let mut client = CosmosClient::new(cl_config_without_client()).unwrap();
    client.set_client_id(ClientId::from_str("07-tendermint-12").unwrap());
    assert_eq!(client.client_id().as_str(), "07-tendermint-12");
    client.set_connection_id(ConnectionId::from_str("connection-3").unwrap());
    assert_eq!(client.connection_id().as_str(), "connection-3");
    assert_eq!(client.name, "chain_a");
    assert_eq!(client.chain_id.as_str(), "ibc-0");
    client.channel_whitelist.push((
        ChannelId::from_str("channel-0").unwrap(),
        PortId::from_str("transfer").unwrap(),
    ));
    let listed = client.channel_whitelist();
    assert_eq!(listed.len(), 1);
    assert_eq!(listed[0].0.as_str(), "channel-0");
    assert_eq!(listed[0].1.as_str(), "transfer");
}

#[test]
fn stubs_say_what_they_do() {
    let client = CosmosClient::new(cl_config()).unwrap();
    assert_eq!(client.submit_create_client_msg("msg".to_string()), Err(Error::NotImplemented));
    assert_eq!(client.transfer_tokens(1, 100), Ok(()));
    assert_eq!(client.submit_call(), Ok(()));
}

#[test]
fn facade_prepares_queries_and_reads_answers() {
    let client = CosmosClient::new(cl_config()).unwrap();
    let port = PortId::from_str("transfer").unwrap();
    assert_eq!(
        client.query(ProofPath::Ports(port.clone()), Height::new(0, 5), true),
        Err(Error::UnprovablePath)
    );
    let request = client.query(ProofPath::Ports(port), Height::zero(), false).unwrap();
    assert_eq!(request.height, None);
    let status = NodeStatus {
        network: "ibc-0".to_string(),
        catching_up: false,
        latest_block_height: 100,
        latest_block_time: Timestamp::from_nanoseconds(CL_GENESIS),
    };
    assert_eq!(
        client.latest_height_and_timestamp(&status),
        Ok((Height::new(0, 100), Timestamp::from_nanoseconds(CL_GENESIS)))
    );
    let raw = ibc_proto::cosmos::auth::v1beta1::BaseAccount {
        address: "cosmos1abc".to_string(),
        pub_key: None,
        account_number: 3,
        sequence: 9,
    };
    assert_eq!(
        client.query_account(Some(raw.encode_to_vec())),
        Ok(BaseAccount { address: "cosmos1abc".to_string(), account_number: 3, sequence: 9 })
    );
    assert_eq!(client.query_account(None), Err(Error::AccountNotFound));
}

#[test]
fn facade_reads_the_created_client_from_a_transaction() {
    let client = CosmosClient::new(CosmosClientConfig {
        chain_id: "ibc-2".to_string(),
        ..cl_config()
    })
    .unwrap();
    let response = TxResponse {
        height: 8,
        code: 0,
        log: String::new(),
        events: vec![RawEvent {
            kind: "create_client".to_string(),
            attributes: vec![
                Attribute { key: "client_id".to_string(), value: "07-tendermint-4".to_string() },
                Attribute { key: "client_type".to_string(), value: "07-tendermint".to_string() },
                Attribute { key: "consensus_height".to_string(), value: "2-8".to_string() },
            ],
        }],
    };
    assert_eq!(client.query_client_id_from_tx_hash(&response).unwrap().as_str(), "07-tendermint-4");
    let mut pipeline = client.ibc_events();
    let events = pipeline
        .on_item(Ok(Delivery {
            query: "message.module = 'ibc_client'".to_string(),
            payload: EventPayload::Tx { height: 8, events: response.events },
        }))
        .unwrap();
    assert_eq!(events.len(), 1);
    assert_eq!(events[0].kind(), Some(EventKind::CreateClient));
    assert_eq!(events[0].height(), Height::new(2, 8));
}

#[test]
fn end_to_end_initialize_at_height_100_then_verify_101() {
    // an adapter against a chain at height 100, with no client yet
    let mut client = CosmosClient::new(cl_config_without_client()).unwrap();
    assert_eq!(client.client_id, None);
    let status = NodeStatus {
        network: "ibc-0".to_string(),
        catching_up: false,
        latest_block_height: 100,
        latest_block_time: Timestamp::from_nanoseconds(CL_GENESIS + 100 * CL_SECOND),
    };
    let (latest, _) = client.latest_height_and_timestamp(&status).unwrap();
    assert_eq!(latest, Height::new(0, 100));
    // without a light client nothing can be initialised
    assert_eq!(client.initialize_client_state(latest), Err(Error::Trust));
    client.init_light_client(default_trust_options(), cl_block(100, [true, true, true])).unwrap();

    let (client_state, consensus_state) = client.initialize_client_state(latest).unwrap();
    assert_eq!(client_state.latest_height, Height::new(0, 100));
    assert_eq!(
        client_state,
        ClientState {
            chain_id: ChainId::from_string("ibc-0"),
            options: TrustOptions {
                trust_threshold: TrustThreshold { numerator: 1, denominator: 3 },
                trusting_period: 64000,
                unbonding_period: 128000,
                max_clock_drift: 15,
            },
            latest_height: Height::new(0, 100),
            upgrade_path: vec!["upgrade".to_string(), "upgradedIBCState".to_string()],
            frozen_height: None,
        }
    );
    // the consensus state is derived from exactly the verified header
    let header = cl_block(100, [true, true, true]);
    assert_eq!(
        consensus_state,
        ConsensusState {
            timestamp: header.time,
            root: header.app_hash.clone(),
            next_validators_hash: header.next_validators_hash.clone(),
        }
    );
    assert_eq!(consensus_state, ConsensusState::from_block(&header));
    assert_eq!(client.construct_tendermint_client_state(latest).unwrap().0, client_state);
    // another height than the trusted one is refused
    assert_eq!(client.initialize_client_state(Height::new(0, 99)), Err(Error::Trust));
    assert_eq!(client.initialize_client_state(Height::new(0, 101)), Err(Error::Trust));

    // a header at height 101 with sufficient voting power advances trust
    let (payload, events, kind) = client
        .query_latest_ibc_events(
            FinalityEvent { block: cl_block(101, [true, true, true]) },
            cl_now(101),
            vec![cl_packet_event(100, 1), cl_packet_event(101, 2), cl_packet_event(102, 3)],
        )
        .unwrap();
    assert_eq!(client.light_client.as_ref().unwrap().trusted_height(), 101);
    assert_eq!(kind, UpdateKind::ClientCreation);
    assert_eq!(
        payload,
        UpdatePayload {
            trusted_height: Height::new(0, 100),
            target_height: Height::new(0, 101),
            consensus_state: ConsensusState::from_block(&cl_block(101, [true, true, true])),
        }
    );
    assert_eq!(events, vec![cl_packet_event(101, 2)]);
}

#[test]
fn finality_events_move_an_existing_client_on() {
    let mut client = CosmosClient::new(cl_config()).unwrap();
    // no light client yet
    assert_eq!(
        client
            .query_latest_ibc_events(
                FinalityEvent { block: cl_block(101, [true, true, true]) },
                cl_now(101),
                Vec::new()
            )
            .map(|_| ()),
        Err(Error::Trust)
    );
    client.init_light_client(default_trust_options(), cl_block(100, [true, true, true])).unwrap();
    let (payload, events, kind) = client
        .query_latest_ibc_events(
            FinalityEvent { block: cl_block(105, [true, true, true]) },
            cl_now(105),
            vec![cl_packet_event(105, 9), cl_packet_event(100, 7), cl_packet_event(103, 8)],
        )
        .unwrap();
    assert_eq!(kind, UpdateKind::Ordinary);
    assert_eq!(payload.trusted_height, Height::new(0, 100));
    assert_eq!(payload.target_height, Height::new(0, 105));
    assert_eq!(events, vec![cl_packet_event(105, 9), cl_packet_event(103, 8)]);
    // a replayed finality event moves nothing and carries no events
    let (payload, events, _) = client
        .query_latest_ibc_events(
            FinalityEvent { block: cl_block(103, [true, true, true]) },
            cl_now(105),
            vec![cl_packet_event(103, 8)],
        )
        .unwrap();
    assert_eq!(payload.trusted_height, Height::new(0, 105));
    assert_eq!(payload.target_height, Height::new(0, 105));
    assert!(events.is_empty());
    assert_eq!(client.light_client.as_ref().unwrap().trusted_height(), 105);
    // a header without enough signatures fails and leaves trust where it was
    let failed = client.query_latest_ibc_events(
        FinalityEvent { block: cl_block(106, [true, false, false]) },
        cl_now(106),
        Vec::new(),
    );
    assert_eq!(failed.map(|_| ()), Err(Error::Trust));
    assert_eq!(client.light_client.as_ref().unwrap().trusted_height(), 105);
}

#[test]
fn finality_protocol_needs_a_bridge_for_unknown_validators() {
    let mut verifier =
        LightClientVerifier::new(default_trust_options(), cl_block(100, [true, true, true]))
            .unwrap();
    let mut strangers = cl_block(200, [true, true, true]);
    strangers.validators = vec![
        Validator { address: vec![4; 20], power: 10 },
        Validator { address: vec![5; 20], power: 10 },
        Validator { address: vec![6; 20], power: 10 },
    ];
    let result = FinalityProtocol::Tendermint.query_latest_ibc_events(
        &mut verifier,
        true,
        0,
        FinalityEvent { block: strangers },
        cl_now(200),
        Vec::new(),
    );
    assert_eq!(result.map(|_| ()), Err(Error::Trust));
    assert_eq!(verifier.trusted_height(), 100);
}

#[test]
fn window_keeps_the_events_between_two_heights() {
    let events = vec![
        cl_packet_event(5, 1),
        cl_packet_event(6, 2),
        cl_packet_event(7, 3),
        cl_packet_event(6, 4),
        cl_packet_event(8, 5),
    ];
    assert_eq!(
        select_window(events, 5, 7),
        vec![cl_packet_event(6, 2), cl_packet_event(7, 3), cl_packet_event(6, 4)]
    );
    assert!(select_window(vec![cl_packet_event(6, 2)], 6, 6).is_empty());
    assert!(select_window(Vec::new(), 0, u64::MAX).is_empty());
}

#[test]
fn channel_whitelist_is_an_ordered_set() {
    let mut client = CosmosClient::new(cl_config()).unwrap();
    let transfer = PortId::from_str("transfer").unwrap();
    let zero = ChannelId::from_str("channel-0").unwrap();
    let one = ChannelId::from_str("channel-1").unwrap();
    assert!(!client.is_whitelisted(&zero, &transfer));
    assert!(client.whitelist_channel(one.clone(), transfer.clone()));
    assert!(client.whitelist_channel(zero.clone(), transfer.clone()));
    assert!(!client.whitelist_channel(one.clone(), transfer.clone()));
    assert!(client.is_whitelisted(&zero, &transfer));
    assert!(client.is_whitelisted(&one, &transfer));
    assert!(!client.is_whitelisted(&one, &PortId::from_str("icahost").unwrap()));
    assert_eq!(
        client.channel_whitelist(),
        vec![(one.clone(), transfer.clone()), (zero.clone(), transfer.clone())]
    );
    assert!(client.whitelist_channel(one, PortId::from_str("icahost").unwrap()));
    assert_eq!(client.channel_whitelist.len(), 3);
    assert_eq!(client.name, "chain_a");
}
