//! The adapter for one Cosmos chain: its identity, and the operations that
//! the relayer core asks of it.

use vstd::prelude::*;
use vstd::string::*;
use crate::client_state::{
    consensus_state_of, copy_bytes, sdk_upgrade_path, ClientState, ClientStateView,
    ConsensusState,
};
use crate::error::Error;
use crate::event::{events_of, events_view, IbcEvent, IbcEventView};
use crate::finality::{
    finality_outcome, FinalityEvent, FinalityProtocol, UpdateKind, UpdatePayload,
    UpdatePayloadView,
};
use crate::height::Height;
use crate::identifier::{
    chain_revision, client_id_accepted, connection_id_accepted, ChainId, ChannelId, ClientId,
    ConnectionId, PortId,
};
use crate::light_client::{LightBlock, LightClientStateView, LightClientVerifier, TrustOptions};
use crate::path::ProofPath;
use crate::query::{
    account_response, base_account_of, channels_view, prepare_query, query_height,
    AbciQueryRequest, BaseAccount, ChannelEntryView, NodeStatus, MAX_BLOCK_HEIGHT,
};
use crate::text::str_eq;
use crate::subscription::EventSubscriptionPipeline;
use crate::tracker::{client_id_from_response, created_clients, inclusion_height, TxResponse};
use crate::timestamp::Timestamp;

verus! {

/// The options that an adapter is built from.
#[derive(Debug, PartialEq, Eq)]
pub struct CosmosClientConfig {
    /// The name of the chain, for messages.
    pub name: String,
    /// The address of the RPC endpoint.
    pub rpc_url: String,
    /// The address of the gRPC endpoint.
    pub grpc_url: String,
    /// The address of the endpoint for event subscriptions.
    pub websocket_url: String,
    /// The identifier of the chain.
    pub chain_id: String,
    /// The identifier of the light client on the other chain, where one
    /// exists already.
    pub client_id: Option<String>,
    /// The identifier of the connection, where one exists already.
    pub connection_id: Option<String>,
    /// The prefix of the account addresses of the chain.
    pub account_prefix: String,
    /// The prefix under which the chain keeps the state of the protocol.
    pub store_prefix: String,
    /// The name of the key that signs transactions.
    pub key_name: String,
}

/// The adapter for one Cosmos chain.
#[derive(Debug, PartialEq, Eq)]
pub struct CosmosClient {
    /// The name of the chain, for messages.
    pub name: String,
    /// The address of the RPC endpoint.
    pub rpc_url: String,
    /// The address of the gRPC endpoint.
    pub grpc_url: String,
    /// The address of the endpoint for event subscriptions.
    pub websocket_url: String,
    /// The identifier of the chain.
    pub chain_id: ChainId,
    /// The light client of this chain on the other chain, once it exists.
    pub client_id: Option<ClientId>,
    /// The connection to the other chain, once it exists.
    pub connection_id: Option<ConnectionId>,
    /// The light client that follows this chain, once it has a header to
    /// start from.
    pub light_client: Option<LightClientVerifier>,
    /// The name of the key that signs transactions.
    pub key_name: String,
    /// The prefix of the account addresses of the chain.
    pub account_prefix: String,
    /// The prefix under which the chain keeps the state of the protocol.
    pub commitment_prefix: Vec<u8>,
    /// The channels that the adapter relays for.
    pub channel_whitelist: Vec<(ChannelId, PortId)>,
    /// How the chain comes to regard a block as final.
    pub finality_protocol: FinalityProtocol,
    /// The time between two blocks that the chain aims at, in seconds.
    pub expected_block_time: u64,
}

/// The name of the type of a Tendermint light client.
pub open spec fn tendermint_client_type() -> Seq<char> {
    "07-tendermint"@
}

impl CosmosClient {
    /// Builds an adapter from its options. The adapter has no light client
    /// yet and relays for no channel.
    ///
    /// Fails with `InvalidIdentifier` where a client is configured and
    /// its identifier is not valid, or else where a connection is
    /// configured and its identifier is not valid; and else with
    /// `InvalidStorePrefix` where the store prefix is empty.
    pub fn new(config: CosmosClientConfig) -> (r: Result<CosmosClient, Error>)
        ensures
            ({
                let client_ok = config.client_id matches Some(c) ==> client_id_accepted(c@);
                let connection_ok = config.connection_id matches Some(c) ==> connection_id_accepted(
                    c@,
                );
                let prefix_ok = config.store_prefix@.len() > 0;
                &&& r is Ok <==> client_ok && connection_ok && prefix_ok
                &&& r matches Err(e) ==> if client_ok && connection_ok {
                    e is InvalidStorePrefix
                } else {
                    e is InvalidIdentifier
                }
            }),
            r matches Ok(client) ==> {
                &&& client.name@ == config.name@
                &&& client.rpc_url@ == config.rpc_url@
                &&& client.grpc_url@ == config.grpc_url@
                &&& client.websocket_url@ == config.websocket_url@
                &&& client.chain_id@ == config.chain_id@
                &&& client.client_id is Some <==> config.client_id is Some
                &&& client.client_id matches Some(id) ==> id@ == config.client_id->Some_0@
                &&& client.connection_id is Some <==> config.connection_id is Some
                &&& client.connection_id matches Some(id) ==> id@ == config.connection_id->Some_0@
                &&& client.light_client is None
                &&& client.key_name@ == config.key_name@
                &&& client.account_prefix@ == config.account_prefix@
                &&& client.commitment_prefix@ == vstd::utf8::encode_utf8(config.store_prefix@)
                &&& client.channel_whitelist@.len() == 0
                &&& client.finality_protocol == FinalityProtocol::Tendermint
                &&& client.expected_block_time == 10
            },
    {
        let chain_id = ChainId::from_string(config.chain_id.as_str());
        let client_id = match &config.client_id {
            None => None,
            Some(text) => match ClientId::from_str(text.as_str()) {
                Ok(id) => Some(id),
                Err(e) => {
                    return Err(e);
                },
            },
        };
        let connection_id = match &config.connection_id {
            None => None,
            Some(text) => match ConnectionId::from_str(text.as_str()) {
                Ok(id) => Some(id),
                Err(e) => {
                    return Err(e);
                },
            },
        };
        if config.store_prefix.as_str().is_empty() {
            return Err(Error::InvalidStorePrefix);
        }
        let commitment_prefix = config.store_prefix.as_str().as_bytes_vec();
        Ok(
            CosmosClient {
                name: config.name,
                rpc_url: config.rpc_url,
                grpc_url: config.grpc_url,
                websocket_url: config.websocket_url,
                chain_id,
                client_id,
                connection_id,
                light_client: None,
                key_name: config.key_name,
                account_prefix: config.account_prefix,
                commitment_prefix,
                channel_whitelist: Vec::new(),
                finality_protocol: FinalityProtocol::Tendermint,
                expected_block_time: 10,
            },
        )
    }

    /// The identifier of the light client of this chain on the other
    /// chain. The client must exist.
    pub fn client_id(&self) -> (id: ClientId)
        requires
            self.client_id is Some,
        ensures
            id@ == self.client_id->Some_0@,
    {
        match &self.client_id {
            Some(id) => id.clone(),
            None => vstd::pervasive::unreached(),
        }
    }

    /// Records the light client of this chain on the other chain.
    pub fn set_client_id(&mut self, client_id: ClientId)
        ensures
            *final(self) == (CosmosClient { client_id: Some(client_id), ..*old(self) }),
    {
        self.client_id = Some(client_id)
    }

    /// The identifier of the connection to the other chain. The
    /// connection must exist.
    pub fn connection_id(&self) -> (id: ConnectionId)
        requires
            self.connection_id is Some,
        ensures
            id@ == self.connection_id->Some_0@,
    {
        match &self.connection_id {
            Some(id) => id.clone(),
            None => vstd::pervasive::unreached(),
        }
    }

    /// Records the connection to the other chain.
    pub fn set_connection_id(&mut self, connection_id: ConnectionId)
        ensures
            *final(self) == (CosmosClient { connection_id: Some(connection_id), ..*old(self) }),
    {
        self.connection_id = Some(connection_id)
    }

    /// The type of the light client that follows this chain.
    pub fn client_type(&self) -> (name: String)
        ensures
            name@ == tendermint_client_type(),
    {
        match self.finality_protocol {
            FinalityProtocol::Tendermint => String::from_str("07-tendermint"),
        }
    }

    /// The time between two blocks that the chain aims at, in seconds.
    pub fn expected_block_time(&self) -> (seconds: u64)
        ensures
            seconds == self.expected_block_time,
    {
        self.expected_block_time
    }

    /// The latest height of the chain with the time of its block, as a
    /// node reports them.
    ///
    /// Fails with `NodeSyncing` exactly where the node is still catching
    /// up. The revision number of the height is the one that the
    /// identifier of the chain carries, as the node names it.
    pub fn latest_height_and_timestamp(&self, status: &NodeStatus) -> (r: Result<
        (Height, Timestamp),
        Error,
    >)
        ensures
            r is Ok <==> !status.catching_up,
            r matches Ok(head) ==> head.0 == (Height {
                revision_number: chain_revision(status.network@),
                revision_height: status.latest_block_height,
            }) && head.1 == status.latest_block_time,
            r matches Err(e) ==> e is NodeSyncing,
    {
        crate::query::latest_height_and_timestamp(status)
    }

    /// Reads the answer to a query for the account that signs for the
    /// adapter: the bytes of the account where the node knows one.
    ///
    /// Fails with `AccountNotFound` where the node has sent no account, and
    /// with `Decode` where `base_account_of` refuses the bytes.
    pub fn query_account(&self, account: Option<Vec<u8>>) -> (r: Result<BaseAccount, Error>)
        ensures
            account is None ==> (r matches Err(e) && e is AccountNotFound),
            account matches Some(bytes) ==> (match base_account_of(bytes@) {
                None => r matches Err(e) && e is Decode,
                Some(view) => r matches Ok(a) && a@ == view,
            }),
    {
        account_response(account)
    }

    /// Builds the state of a new light client of this chain for the other
    /// chain, at the height `latest_height`, from the header that the
    /// adapter's own light client trusts.
    ///
    /// Succeeds exactly where the adapter has a light client whose trusted
    /// header stands at the block height of `latest_height`; fails with
    /// `Trust` otherwise. The client state has the parameters of the
    /// adapter's light client and the upgrade path of the Cosmos SDK, and
    /// knows `latest_height` as its latest height. The consensus state is
    /// the one that the trusted header stands for.
    pub fn initialize_client_state(&self, latest_height: Height) -> (r: Result<
        (ClientState, ConsensusState),
        Error,
    >)
        ensures
            r is Ok <==> (self.light_client matches Some(v) && v@.trusted.height
                == latest_height.revision_height),
            r matches Ok(states) ==> {
                let v = self.light_client->Some_0;
                &&& states.0@ == (ClientStateView {
                    chain_id: self.chain_id@,
                    options: v@.options,
                    latest_height,
                    upgrade_path: sdk_upgrade_path(),
                    frozen_height: None,
                })
                &&& states.1@ == consensus_state_of(v@.trusted)
            },
            r matches Err(e) ==> e is Trust,
    {
        let verifier = match &self.light_client {
            Some(verifier) => verifier,
            None => {
                return Err(Error::Trust);
            },
        };
        if verifier.trusted_height() != latest_height.revision_height {
            return Err(Error::Trust);
        }
        let client_state = match ClientState::new(
            self.chain_id.clone(),
            verifier.options(),
            latest_height,
            ClientState::default_upgrade_path(),
        ) {
            Ok(state) => state,
            Err(_) => {
                return Err(Error::Trust);
            },
        };
        Ok((client_state, ConsensusState::from_block(verifier.trusted())))
    }

    /// Builds the state of a new Tendermint light client of this chain:
    /// see `initialize_client_state`.
    pub fn construct_tendermint_client_state(&self, latest_height: Height) -> (r: Result<
        (ClientState, ConsensusState),
        Error,
    >)
        ensures
            r is Ok <==> (self.light_client matches Some(v) && v@.trusted.height
                == latest_height.revision_height),
            r matches Ok(states) ==> {
                let v = self.light_client->Some_0;
                &&& states.0@ == (ClientStateView {
                    chain_id: self.chain_id@,
                    options: v@.options,
                    latest_height,
                    upgrade_path: sdk_upgrade_path(),
                    frozen_height: None,
                })
                &&& states.1@ == consensus_state_of(v@.trusted)
            },
            r matches Err(e) ==> e is Trust,
    {
        self.initialize_client_state(latest_height)
    }

    /// Submits a message that creates a client. The adapter cannot do
    /// that yet, and says so: it always fails with `NotImplemented`.
    pub fn submit_create_client_msg(&self, msg: String) -> (r: Result<ClientId, Error>)
        ensures
            r matches Err(e) && e is NotImplemented,
    {
        Err(Error::NotImplemented)
    }

    /// Transfers tokens. Nothing is to be done on this chain family: it
    /// always succeeds.
    pub fn transfer_tokens(&self, asset_id: u128, amount: u128) -> (r: Result<(), Error>)
        ensures
            r is Ok,
    {
        Ok(())
    }

    /// Submits a call. Nothing is to be done on this chain family: it
    /// always succeeds.
    pub fn submit_call(&self) -> (r: Result<(), Error>)
        ensures
            r is Ok,
    {
        Ok(())
    }

    /// Gives the adapter the header that its light client starts from.
    ///
    /// Fails as `LightClientVerifier::new` does, and then changes
    /// nothing. Otherwise the adapter has a light client that trusts
    /// `anchor`, in place of the one it may have had.
    pub fn init_light_client(&mut self, options: TrustOptions, anchor: LightBlock) -> (r: Result<
        (),
        Error,
    >)
        ensures
            r is Ok <==> options.is_valid_spec() && anchor@.well_formed() && anchor@.committed(),
            r is Ok ==> final(self).light_client is Some && final(self).light_client->Some_0@ == (
            LightClientStateView { options, trusted: anchor@ }),
            r is Ok ==> *final(self) == (CosmosClient {
                light_client: final(self).light_client,
                ..*old(self)
            }),
            r matches Err(e) ==> *final(self) == *old(self) && if !options.is_valid_spec() {
                e is InvalidClientState
            } else {
                e is InvalidHeader
            },
    {
        match LightClientVerifier::new(options, anchor) {
            Ok(verifier) => {
                self.light_client = Some(verifier);
                Ok(())
            },
            Err(e) => Err(e),
        }
    }

    /// Handles the news of a new final head: see
    /// `FinalityProtocol::query_latest_ibc_events`. The adapter's light
    /// client verifies the header at the local time `now`; `collected`
    /// holds the events that the subscriptions have yielded so far.
    ///
    /// Fails with `Trust` where the adapter has no light client yet.
    /// Nothing but the light client changes.
    pub fn query_latest_ibc_events(
        &mut self,
        finality_event: FinalityEvent,
        now: Timestamp,
        collected: Vec<IbcEvent>,
    ) -> (r: Result<(UpdatePayload, Vec<IbcEvent>, UpdateKind), Error>)
        ensures
            *final(self) == (CosmosClient { light_client: final(self).light_client, ..*old(self) }),
            old(self).light_client is None ==> final(self).light_client is None && (r matches Err(e)
                && e is Trust),
            old(self).light_client matches Some(before) ==> {
                &&& final(self).light_client is Some
                &&& final(self).light_client->Some_0@ == before@.after(finality_event.block@, now)
                &&& ({
                    let outcome = finality_outcome(
                        before@,
                        old(self).client_id is Some,
                        chain_revision(old(self).chain_id@),
                        finality_event.block@,
                        now,
                        events_view(collected@),
                    );
                    match r {
                        Ok(update) => outcome == Ok::<
                            (UpdatePayloadView, Seq<IbcEventView>, UpdateKind),
                            Error,
                        >((update.0@, events_view(update.1@), update.2)),
                        Err(e) => outcome == Err::<
                            (UpdatePayloadView, Seq<IbcEventView>, UpdateKind),
                            Error,
                        >(e),
                    }
                })
            },
    {
        let has_client = self.client_id.is_some();
        let revision_number = self.chain_id.version();
        let protocol = self.finality_protocol;
        match &mut self.light_client {
            None => Err(Error::Trust),
            Some(verifier) => protocol.query_latest_ibc_events(
                verifier,
                has_client,
                revision_number,
                finality_event,
                now,
                collected,
            ),
        }
    }

    /// The channels that the adapter relays for.
    pub fn channel_whitelist(&self) -> (channels: Vec<(ChannelId, PortId)>)
        ensures
            channels_view(channels@) == channels_view(self.channel_whitelist@),
    {
        let mut channels: Vec<(ChannelId, PortId)> = Vec::new();
        let mut i: usize = 0;
        while i < self.channel_whitelist.len()
            invariant
                i <= self.channel_whitelist.len(),
                channels@.len() == i,
                forall|k: int|
                    0 <= k < i ==> channels@[k].0@ == self.channel_whitelist@[k].0@
                        && channels@[k].1@ == self.channel_whitelist@[k].1@,
            decreases self.channel_whitelist.len() - i,
        {
            let entry = &self.channel_whitelist[i];
            channels.push((entry.0.clone(), entry.1.clone()));
            i = i + 1;
        }
        assert(channels_view(channels@) =~= channels_view(self.channel_whitelist@));
        channels
    }

    /// The prefix under which the chain keeps the state of the protocol.
    pub fn connection_prefix(&self) -> (prefix: Vec<u8>)
        ensures
            prefix@ == self.commitment_prefix@,
    {
        copy_bytes(&self.commitment_prefix)
    }

    /// Prepares a query against the store of the chain: see
    /// `prepare_query`.
    pub fn query(&self, path: ProofPath, at: Height, prove: bool) -> (r: Result<
        AbciQueryRequest,
        Error,
    >)
        ensures
            prove && !path@.is_provable() ==> (r matches Err(e) && e is UnprovablePath),
            !(prove && !path@.is_provable()) && at.revision_height > MAX_BLOCK_HEIGHT ==> (
            r matches Err(e) && e is InvalidHeight),
            !(prove && !path@.is_provable()) && at.revision_height <= MAX_BLOCK_HEIGHT ==> (
            r matches Ok(request) && request.path@ == path@ && request.height == query_height(at)
                && request.prove == prove),
    {
        prepare_query(path, at, prove)
    }

    /// Opens the stream of events of this chain: see
    /// `EventSubscriptionPipeline`. The heights of the events carry the
    /// revision number of the chain.
    pub fn ibc_events(&self) -> (pipeline: EventSubscriptionPipeline)
        ensures
            pipeline.is_open_spec(),
            pipeline.revision_number() == chain_revision(self.chain_id@),
    {
        EventSubscriptionPipeline::new(self.chain_id.version())
    }

    /// Finds the identifier of the client that a transaction created,
    /// given what the node reports of the transaction: see
    /// `client_id_from_response`.
    pub fn query_client_id_from_tx_hash(&self, response: &TxResponse) -> (r: Result<
        ClientId,
        Error,
    >)
        ensures
            response.code != 0 ==> (r matches Err(e) && e matches Error::TransactionExecution {
                code,
                log,
            } && code == response.code && log@ == response.log@),
            response.code == 0 ==> ({
                let created = created_clients(
                    events_of(
                        inclusion_height(chain_revision(self.chain_id@), response@),
                        response@.events,
                    ),
                );
                &&& r is Ok <==> created.len() == 1
                &&& r matches Ok(id) ==> id@ == created[0]
                &&& r matches Err(e) ==> e matches Error::UnexpectedEventCount { found } && found
                    == created.len()
            }),
    {
        client_id_from_response(self.chain_id.version(), response)
    }

    /// Whether the adapter relays for the channel.
    pub fn is_whitelisted(&self, channel_id: &ChannelId, port_id: &PortId) -> (r: bool)
        ensures
            r == channels_view(self.channel_whitelist@).contains(
                ChannelEntryView { channel_id: channel_id@, port_id: port_id@ },
            ),
    {
        let ghost entry = ChannelEntryView { channel_id: channel_id@, port_id: port_id@ };
        let ghost list = channels_view(self.channel_whitelist@);
        let mut i: usize = 0;
        while i < self.channel_whitelist.len()
            invariant
                i <= self.channel_whitelist.len(),
                list == channels_view(self.channel_whitelist@),
                entry == (ChannelEntryView { channel_id: channel_id@, port_id: port_id@ }),
                forall|k: int| 0 <= k < i ==> list[k] != entry,
            decreases self.channel_whitelist.len() - i,
        {
            let listed = &self.channel_whitelist[i];
            if str_eq(listed.0.as_str(), channel_id.as_str()) && str_eq(
                listed.1.as_str(),
                port_id.as_str(),
            ) {
                assert(list[i as int] == entry);
                return true;
            }
            i = i + 1;
        }
        false
    }

    /// Has the adapter relay for a channel. The list of channels is a set
    /// that keeps the order in which the channels were added: a channel
    /// that is on the list already is not added again.
    ///
    /// Returns whether the channel was added. Nothing but the list changes.
    pub fn whitelist_channel(&mut self, channel_id: ChannelId, port_id: PortId) -> (added: bool)
        ensures
            *final(self) == (CosmosClient {
                channel_whitelist: final(self).channel_whitelist,
                ..*old(self)
            }),
            ({
                let entry = ChannelEntryView { channel_id: channel_id@, port_id: port_id@ };
                let before = channels_view(old(self).channel_whitelist@);
                let after = channels_view(final(self).channel_whitelist@);
                &&& added == !before.contains(entry)
                &&& after == (if added {
                    before.push(entry)
                } else {
                    before
                })
                &&& before.no_duplicates() ==> after.no_duplicates()
            }),
    {
        let ghost entry = ChannelEntryView { channel_id: channel_id@, port_id: port_id@ };
        let ghost before = channels_view(self.channel_whitelist@);
        if self.is_whitelisted(&channel_id, &port_id) {
            return false;
        }
        self.channel_whitelist.push((channel_id, port_id));
        proof {
            let after = channels_view(self.channel_whitelist@);
            assert(after =~= before.push(entry));
            if before.no_duplicates() {
                assert forall|i: int, j: int|
                    0 <= i < after.len() && 0 <= j < after.len() && i != j implies after[i]
                    != after[j] by {
                    if i < before.len() && j < before.len() {
                        assert(before[i] != before[j]);
                    } else if i < before.len() {
                        assert(before[i] != entry);
                    } else {
                        assert(before[j] != entry);
                    }
                }
            }
        }
        true
    }
}

} // verus!
