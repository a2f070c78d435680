use hyperspace_cosmos::error::Error;
use hyperspace_cosmos::identifier::{ChainId, ChannelId, ClientId, ConnectionId, PortId};

#[test]
fn client_id_accepts_well_formed_identifiers() {
    let id = ClientId::from_str("07-tendermint-0").unwrap();
    assert_eq!(id.as_str(), "07-tendermint-0");
    assert_eq!(id.clone(), id);
    assert!(ClientId::from_str("10-grandpa-cs-12").is_ok());
}

#[test]
fn client_id_refuses_malformed_identifiers() {
    assert_eq!(ClientId::from_str(""), Err(Error::InvalidIdentifier));
    assert_eq!(ClientId::from_str("short"), Err(Error::InvalidIdentifier));
    assert_eq!(ClientId::from_str("07-tendermint/0"), Err(Error::InvalidIdentifier));
    assert_eq!(ClientId::from_str("07 tendermint 0"), Err(Error::InvalidIdentifier));
    let long = "a".repeat(65);
    assert_eq!(ClientId::from_str(&long), Err(Error::InvalidIdentifier));
}

#[test]
fn connection_channel_and_port_ids_are_validated() {
    assert_eq!(ConnectionId::from_str("connection-0").unwrap().as_str(), "connection-0");
    assert_eq!(ConnectionId::from_str("conn-0"), Err(Error::InvalidIdentifier));
    assert_eq!(ChannelId::from_str("channel-12").unwrap().as_str(), "channel-12");
    assert_eq!(ChannelId::from_str("chan-1"), Err(Error::InvalidIdentifier));
    assert_eq!(ChannelId::from_str("channel 12"), Err(Error::InvalidIdentifier));
    assert_eq!(PortId::from_str("transfer").unwrap().as_str(), "transfer");
    assert_eq!(PortId::from_str("p"), Err(Error::InvalidIdentifier));
    assert_eq!(PortId::from_str("trans/fer"), Err(Error::InvalidIdentifier));
}

#[test]
fn chain_id_carries_its_revision_number() {
    assert_eq!(ChainId::chain_version("ibc-0"), 0);
    assert_eq!(ChainId::chain_version("ibc-1"), 1);
    assert_eq!(ChainId::chain_version("cosmoshub-4"), 4);
    assert_eq!(ChainId::chain_version("chain-a-27"), 27);
    assert_eq!(ChainId::chain_version("ibc"), 0);
    assert_eq!(ChainId::chain_version("ibc-01"), 0);
    assert_eq!(ChainId::chain_version("ibc--3"), 0);
    let id = ChainId::from_string("ibc-7");
    assert_eq!(id.as_str(), "ibc-7");
    assert_eq!(id.version(), 7);
    assert_eq!(id.clone().version(), 7);
    let plain = ChainId::from_string("testnet");
    assert_eq!(plain.as_str(), "testnet");
    assert_eq!(plain.version(), 0);
}
