//! The state of a light client of this chain, as the other chain holds it.

use vstd::prelude::*;
use vstd::string::*;
use crate::error::Error;
use crate::height::Height;
use crate::identifier::ChainId;
use crate::light_client::{LightBlock, LightBlockView, TrustOptions, TrustThreshold};
use crate::timestamp::Timestamp;

verus! {

/// The parameters with which a new client trusts unless it is told
/// otherwise: a threshold of one third, a trusting period of 64000
/// seconds, an unbonding period of 128000 seconds, and a clock drift of
/// 15 seconds.
pub fn default_trust_options() -> (o: TrustOptions)
    ensures
        o == (TrustOptions {
            trust_threshold: TrustThreshold { numerator: 1, denominator: 3 },
            trusting_period: 64000,
            unbonding_period: 128000,
            max_clock_drift: 15,
        }),
        o.is_valid_spec(),
{
    TrustOptions {
        trust_threshold: TrustThreshold::one_third(),
        trusting_period: 64000,
        unbonding_period: 128000,
        max_clock_drift: 15,
    }
}

/// What the other chain keeps of a light client of this chain.
#[derive(Debug, PartialEq, Eq)]
pub struct ClientState {
    pub chain_id: ChainId,
    pub options: TrustOptions,
    /// The latest height that the client knows of.
    pub latest_height: Height,
    /// Where the store keeps the state of an upgraded client.
    pub upgrade_path: Vec<String>,
    /// The height at which the client was frozen, if it was.
    pub frozen_height: Option<Height>,
}

/// The content of a [`ClientState`].
pub struct ClientStateView {
    pub chain_id: Seq<char>,
    pub options: TrustOptions,
    pub latest_height: Height,
    pub upgrade_path: Seq<Seq<char>>,
    pub frozen_height: Option<Height>,
}

impl View for ClientState {
    type V = ClientStateView;

    open spec fn view(&self) -> ClientStateView {
        ClientStateView {
            chain_id: self.chain_id@,
            options: self.options,
            latest_height: self.latest_height,
            upgrade_path: self.upgrade_path.deep_view(),
            frozen_height: self.frozen_height,
        }
    }
}

/// The upgrade path of a chain built with the Cosmos SDK.
pub open spec fn sdk_upgrade_path() -> Seq<Seq<char>> {
    seq!["upgrade"@, "upgradedIBCState"@]
}

impl ClientState {
    /// Builds the state of a client that is not frozen.
    ///
    /// Fails with `InvalidClientState` exactly where the parameters
    /// contradict each other: see `TrustOptions::is_valid_spec`.
    pub fn new(
        chain_id: ChainId,
        options: TrustOptions,
        latest_height: Height,
        upgrade_path: Vec<String>,
    ) -> (r: Result<ClientState, Error>)
        ensures
            r is Ok <==> options.is_valid_spec(),
            r matches Ok(state) ==> state@ == (ClientStateView {
                chain_id: chain_id@,
                options,
                latest_height,
                upgrade_path: upgrade_path.deep_view(),
                frozen_height: None,
            }),
            r matches Err(e) ==> e is InvalidClientState,
    {
        if !options.is_valid() {
            return Err(Error::InvalidClientState);
        }
        Ok(ClientState { chain_id, options, latest_height, upgrade_path, frozen_height: None })
    }

    /// The upgrade path of a chain built with the Cosmos SDK.
    pub fn default_upgrade_path() -> (path: Vec<String>)
        ensures
            path.deep_view() == sdk_upgrade_path(),
    {
        let mut path: Vec<String> = Vec::new();
        path.push(String::from_str("upgrade"));
        path.push(String::from_str("upgradedIBCState"));
        assert(path.deep_view() =~= sdk_upgrade_path());
        path
    }
}

/// What the other chain keeps of one header of this chain.
#[derive(Debug, PartialEq, Eq)]
pub struct ConsensusState {
    /// The time of the header.
    pub timestamp: Timestamp,
    /// The root of the store of this chain: the application hash of the
    /// header.
    pub root: Vec<u8>,
    /// The hash of the validator set of the next block.
    pub next_validators_hash: Vec<u8>,
}

/// The content of a [`ConsensusState`].
pub struct ConsensusStateView {
    pub timestamp: Timestamp,
    pub root: Seq<u8>,
    pub next_validators_hash: Seq<u8>,
}

impl View for ConsensusState {
    type V = ConsensusStateView;

    open spec fn view(&self) -> ConsensusStateView {
        ConsensusStateView {
            timestamp: self.timestamp,
            root: self.root@,
            next_validators_hash: self.next_validators_hash@,
        }
    }
}

/// The consensus state that a header stands for.
pub open spec fn consensus_state_of(block: LightBlockView) -> ConsensusStateView {
    ConsensusStateView {
        timestamp: block.time,
        root: block.app_hash,
        next_validators_hash: block.next_validators_hash,
    }
}

/// A copy of a byte string.
pub fn copy_bytes(bytes: &Vec<u8>) -> (copy: Vec<u8>)
    ensures
        copy@ == bytes@,
{
    let mut copy: Vec<u8> = Vec::new();
    let mut i: usize = 0;
    while i < bytes.len()
        invariant
            i <= bytes.len(),
            copy@ == bytes@.subrange(0, i as int),
        decreases bytes.len() - i,
    {
        copy.push(bytes[i]);
        assert(copy@ =~= bytes@.subrange(0, i + 1));
        i = i + 1;
    }
    assert(bytes@.subrange(0, i as int) =~= bytes@);
    copy
}

impl ConsensusState {
    /// The consensus state that a header stands for.
    pub fn from_block(block: &LightBlock) -> (state: ConsensusState)
        ensures
            state@ == consensus_state_of(block@),
    {
        ConsensusState {
            timestamp: block.time,
            root: copy_bytes(&block.app_hash),
            next_validators_hash: copy_bytes(&block.next_validators_hash),
        }
    }
}

} // verus!
