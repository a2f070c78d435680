//! Queries against the store of the chain: which requests may be sent, and
//! what the answers of the node mean.

use tendermint_proto::Protobuf;
use vstd::prelude::*;
use vstd::string::*;
use crate::error::Error;
use crate::height::Height;
use crate::identifier::{
    chain_revision, channel_id_accepted, client_id_accepted, connection_id_accepted,
    port_id_accepted, ChainId, ChannelId, ClientId, ConnectionId, PortId,
};
use crate::path::{ProofPath, ProofPathView};
use crate::text::{decimal_text, format_u64, str_eq};
use crate::timestamp::Timestamp;

verus! {

/// The greatest block height that a node accepts: heights are signed 64-bit
/// numbers on the wire.
pub const MAX_BLOCK_HEIGHT: u64 = 0x7fff_ffff_ffff_ffff;

/// Runs `Height::try_from(u64)` of the `tendermint` crate and hands back
/// the number inside the height. Not proved: that the crate accepts
/// exactly the numbers up to `i64::MAX` and keeps the number as it is.
#[verifier::external_body]
fn tendermint_height(value: u64) -> (r: Option<u64>)
    ensures
        r == (if value <= MAX_BLOCK_HEIGHT {
            Some(value)
        } else {
            None
        }),
{
    match tendermint::block::Height::try_from(value) {
        Ok(height) => Some(height.value()),
        Err(_) => None,
    }
}

/// A query against the store of the chain, ready to be sent.
#[derive(Debug, PartialEq, Eq)]
pub struct AbciQueryRequest {
    /// What to read.
    pub path: ProofPath,
    /// The block height to read at; `None` for the head of the chain.
    pub height: Option<u64>,
    /// Whether the node is to prove its answer.
    pub prove: bool,
}

/// What a node answers to a query against the store.
#[derive(Debug, PartialEq, Eq)]
pub struct AbciQueryResponse {
    /// The result code; zero for success.
    pub code: u32,
    pub log: String,
    /// What the store holds under the path.
    pub value: Vec<u8>,
    /// The proof of the answer, where the node has sent one.
    pub proof: Option<Vec<u8>>,
    /// The block height that the node has read at.
    pub height: u64,
}

/// The answer to a query with what vouches for it: the height that was
/// asked for, the proof (empty where none was asked for or none was
/// sent), and the decoded value where the query has one.
#[derive(Debug, PartialEq, Eq)]
pub struct ProofEnvelope<T> {
    pub height: Height,
    pub proof: Vec<u8>,
    pub value: Option<T>,
}

/// The block height that a query at `at` names to the node: none for a
/// height whose block height is zero, which stands for the head of the
/// chain, and the block height itself otherwise.
pub open spec fn query_height(at: Height) -> Option<u64> {
    if at.revision_height == 0 {
        None
    } else {
        Some(at.revision_height)
    }
}

/// Prepares a query for what the store holds under `path` at the height
/// `at`.
///
/// A proof can be asked only for a provable path: every other request
/// for a proof fails with `UnprovablePath`, whatever the height, and no
/// request comes into being that could be sent. A block height above
/// `MAX_BLOCK_HEIGHT` fails with `InvalidHeight`. Every other query
/// succeeds, and names the path, the height as `query_height` gives it, and
/// the wish for a proof as they were given.
pub fn prepare_query(path: ProofPath, at: Height, prove: bool) -> (r: Result<
    AbciQueryRequest,
    Error,
>)
    ensures
        prove && !path@.is_provable() ==> (r matches Err(e) && e is UnprovablePath),
        !(prove && !path@.is_provable()) && at.revision_height > MAX_BLOCK_HEIGHT ==> (r matches Err(
            e,
        ) && e is InvalidHeight),
        !(prove && !path@.is_provable()) && at.revision_height <= MAX_BLOCK_HEIGHT ==> (
        r matches Ok(request) && request.path@ == path@ && request.height == query_height(at)
            && request.prove == prove),
{
    if prove && !path.is_provable() {
        return Err(Error::UnprovablePath);
    }
    let height = match tendermint_height(at.revision_height) {
        Some(height) => height,
        None => {
            return Err(Error::InvalidHeight);
        },
    };
    let height = if height == 0 {
        None
    } else {
        Some(height)
    };
    Ok(AbciQueryRequest { path, height, prove })
}

/// Checks the result code of an answer.
///
/// Fails with `QueryRejected`, the code and the log, exactly where the
/// code is not zero; otherwise hands the answer back.
pub fn check_response(response: AbciQueryResponse) -> (r: Result<AbciQueryResponse, Error>)
    ensures
        r is Ok <==> response.code == 0,
        r matches Ok(same) ==> same == response,
        r matches Err(e) ==> e matches Error::QueryRejected { code, log } && code == response.code
            && log@ == response.log@,
{
    if response.code != 0 {
        Err(Error::QueryRejected { code: response.code, log: response.log })
    } else {
        Ok(response)
    }
}

/// The proof that belongs to an answer: the one that the node has sent,
/// where one was asked for and sent; empty otherwise.
pub open spec fn proof_of(prove: bool, sent: Option<Vec<u8>>) -> Seq<u8> {
    match sent {
        Some(bytes) => if prove {
            bytes@
        } else {
            Seq::empty()
        },
        None => Seq::empty(),
    }
}

/// Opens the answer to a query that was asked at the height `at`.
///
/// Fails with `QueryRejected` exactly where the result code is not zero.
/// Otherwise returns the bytes that the store holds, and an envelope with
/// the height `at` and the proof as `proof_of` gives it. The envelope holds
/// no decoded value: what the bytes mean depends on the path.
pub fn open_response(prove: bool, at: Height, response: AbciQueryResponse) -> (r: Result<
    (Vec<u8>, ProofEnvelope<()>),
    Error,
>)
    ensures
        r is Ok <==> response.code == 0,
        r matches Ok(answer) ==> answer.0@ == response.value@ && answer.1.height == at
            && answer.1.proof@ == proof_of(prove, response.proof) && answer.1.value is None,
        r matches Err(e) ==> e matches Error::QueryRejected { code, log } && code == response.code
            && log@ == response.log@,
{
    let response = match check_response(response) {
        Ok(response) => response,
        Err(e) => {
            return Err(e);
        },
    };
    let AbciQueryResponse { value, proof: sent, .. } = response;
    let kept = match sent {
        Some(bytes) => if prove {
            bytes
        } else {
            Vec::new()
        },
        None => Vec::new(),
    };
    Ok((value, ProofEnvelope { height: at, proof: kept, value: None }))
}

/// One end of a channel, as the store of the chain holds it.
#[derive(Debug, PartialEq, Eq)]
pub struct ChannelEnd {
    /// The state of the handshake, by its number on the wire.
    pub state: i32,
    /// Whether the channel delivers in order, by its number on the wire.
    pub ordering: i32,
    pub counterparty_port_id: String,
    /// Empty until the other end is known.
    pub counterparty_channel_id: String,
    pub connection_hops: Vec<String>,
    pub version: String,
}

/// The content of a [`ChannelEnd`].
pub struct ChannelEndView {
    pub state: i32,
    pub ordering: i32,
    pub counterparty_port_id: Seq<char>,
    pub counterparty_channel_id: Seq<char>,
    pub connection_hops: Seq<Seq<char>>,
    pub version: Seq<char>,
}

impl View for ChannelEnd {
    type V = ChannelEndView;

    open spec fn view(&self) -> ChannelEndView {
        ChannelEndView {
            state: self.state,
            ordering: self.ordering,
            counterparty_port_id: self.counterparty_port_id@,
            counterparty_channel_id: self.counterparty_channel_id@,
            connection_hops: self.connection_hops.deep_view(),
            version: self.version@,
        }
    }
}

/// The channel end that `ChannelEnd::decode_vec` of the `ibc` crate reads
/// from the bytes, written back as the fields of the wire format; `None`
/// where the crate refuses the bytes.
pub uninterp spec fn channel_end_of(bytes: Seq<u8>) -> Option<ChannelEndView>;

/// Runs `ChannelEnd::decode_vec` of the `ibc` crate on the bytes and
/// converts what it accepts to the fields of the wire format, with the
/// crate's own `From<ChannelEnd>`. Not proved: that the outcome depends on
/// the bytes alone, which is what the name `channel_end_of` stands for.
#[verifier::external_body]
fn ibc_decode_channel_end(bytes: &Vec<u8>) -> (r: Option<ChannelEnd>)
    ensures
        r is Some <==> channel_end_of(bytes@) is Some,
        r matches Some(end) ==> channel_end_of(bytes@) == Some(end@),
{
    let end = ibc::core::ics04_channel::channel::ChannelEnd::decode_vec(bytes).ok()?;
    let raw = ibc_proto::ibc::core::channel::v1::Channel::from(end);
    let counterparty = raw.counterparty.unwrap_or_default();
    Some(
        ChannelEnd {
            state: raw.state,
            ordering: raw.ordering,
            counterparty_port_id: counterparty.port_id,
            counterparty_channel_id: counterparty.channel_id,
            connection_hops: raw.connection_hops,
            version: raw.version,
        },
    )
}

/// Prepares the query for a channel end at the height `at`, with proof.
pub fn channel_end_request(at: Height, port_id: PortId, channel_id: ChannelId) -> (r: Result<
    AbciQueryRequest,
    Error,
>)
    ensures
        r is Ok <==> at.revision_height <= MAX_BLOCK_HEIGHT,
        r matches Ok(request) ==> request.path@ == ProofPathView::ChannelEnds(port_id@, channel_id@)
            && request.height == query_height(at) && request.prove,
        r matches Err(e) ==> e is InvalidHeight,
{
    prepare_query(ProofPath::ChannelEnds(port_id, channel_id), at, true)
}

/// What the answer to a query for a channel end says, given what the
/// bytes of the answer decode to.
///
/// Fails with `QueryRejected` where the result code is not zero, and
/// otherwise with `Decode` where the bytes are no channel end. Otherwise
/// returns the channel end in an envelope with the height `at` and the
/// proof that the node has sent.
pub fn channel_end_answer(at: Height, response: AbciQueryResponse, decoded: Option<ChannelEnd>) -> (r:
    Result<ProofEnvelope<ChannelEnd>, Error>)
    ensures
        response.code != 0 ==> (r matches Err(e) && e matches Error::QueryRejected { code, log }
            && code == response.code && log@ == response.log@),
        response.code == 0 && decoded is None ==> (r matches Err(e) && e is Decode),
        response.code == 0 && decoded is Some ==> (r matches Ok(envelope) && envelope.height == at
            && envelope.proof@ == proof_of(true, response.proof) && envelope.value == decoded),
{
    match open_response(true, at, response) {
        Err(e) => Err(e),
        Ok(answer) => match decoded {
            None => Err(Error::Decode),
            Some(end) => Ok(ProofEnvelope { height: at, proof: answer.1.proof, value: Some(end) }),
        },
    }
}

/// Reads the answer to a query for a channel end that was asked at the
/// height `at`.
///
/// Fails with `QueryRejected` where the result code is not zero, and
/// otherwise with `Decode` where `channel_end_of` refuses the bytes.
/// Otherwise returns the channel end that `channel_end_of` names, in an
/// envelope with the height `at` and the proof that the node has sent.
pub fn channel_end_response(at: Height, response: AbciQueryResponse) -> (r: Result<
    ProofEnvelope<ChannelEnd>,
    Error,
>)
    ensures
        response.code != 0 ==> (r matches Err(e) && e matches Error::QueryRejected { code, log }
            && code == response.code && log@ == response.log@),
        response.code == 0 && channel_end_of(response.value@) is None ==> (r matches Err(e)
            && e is Decode),
        response.code == 0 && channel_end_of(response.value@) is Some ==> (r matches Ok(envelope)
            && envelope.height == at && envelope.proof@ == proof_of(true, response.proof)
            && envelope.value is Some && Some(envelope.value->Some_0@) == channel_end_of(
            response.value@,
        )),
{
    let decoded = ibc_decode_channel_end(&response.value);
    channel_end_answer(at, response, decoded)
}

/// An account of the chain, as far as a transaction needs it.
#[derive(Debug, PartialEq, Eq)]
pub struct BaseAccount {
    pub address: String,
    pub account_number: u64,
    /// The number of transactions that the account has signed so far.
    pub sequence: u64,
}

/// The content of a [`BaseAccount`].
pub struct BaseAccountView {
    pub address: Seq<char>,
    pub account_number: u64,
    pub sequence: u64,
}

impl View for BaseAccount {
    type V = BaseAccountView;

    open spec fn view(&self) -> BaseAccountView {
        BaseAccountView {
            address: self.address@,
            account_number: self.account_number,
            sequence: self.sequence,
        }
    }
}

/// The address, number and sequence of the account that the `prost`
/// crate decodes from the bytes as a `BaseAccount` message; `None` where
/// the bytes are no such message.
pub uninterp spec fn base_account_of(bytes: Seq<u8>) -> Option<BaseAccountView>;

/// Decodes the bytes as a `BaseAccount` message of the `ibc-proto` crate
/// with `Message::decode` of the `prost` crate, and picks the address, the
/// number and the sequence. Not proved: that the outcome depends on the
/// bytes alone, which is what the name `base_account_of` stands for.
#[verifier::external_body]
fn prost_decode_base_account(bytes: &Vec<u8>) -> (r: Option<BaseAccount>)
    ensures
        r is Some <==> base_account_of(bytes@) is Some,
        r matches Some(account) ==> base_account_of(bytes@) == Some(account@),
{
    match <ibc_proto::cosmos::auth::v1beta1::BaseAccount as prost::Message>::decode(
        bytes.as_slice(),
    ) {
        Ok(account) => Some(
            BaseAccount {
                address: account.address,
                account_number: account.account_number,
                sequence: account.sequence,
            },
        ),
        Err(_) => None,
    }
}

/// What the answer to a query for an account says, given what its bytes
/// decode to: `found` tells whether the node has sent an account at all.
///
/// Fails with `AccountNotFound` where the node has sent none, and
/// otherwise with `Decode` where the bytes are no account.
pub fn account_answer(found: bool, decoded: Option<BaseAccount>) -> (r: Result<BaseAccount, Error>)
    ensures
        !found ==> (r matches Err(e) && e is AccountNotFound),
        found && decoded is None ==> (r matches Err(e) && e is Decode),
        found && decoded is Some ==> r is Ok && Some(r->Ok_0) == decoded,
{
    if !found {
        return Err(Error::AccountNotFound);
    }
    match decoded {
        Some(account) => Ok(account),
        None => Err(Error::Decode),
    }
}

/// Reads the answer to a query for an account: the bytes of the account
/// where the node knows one.
///
/// Fails with `AccountNotFound` where the node has sent no account, and
/// with `Decode` where `base_account_of` refuses the bytes. Otherwise
/// returns the account that `base_account_of` names.
pub fn account_response(account: Option<Vec<u8>>) -> (r: Result<BaseAccount, Error>)
    ensures
        account is None ==> (r matches Err(e) && e is AccountNotFound),
        account matches Some(bytes) ==> (match base_account_of(bytes@) {
            None => r matches Err(e) && e is Decode,
            Some(view) => r matches Ok(a) && a@ == view,
        }),
{
    match account {
        None => account_answer(false, None),
        Some(bytes) => {
            let decoded = prost_decode_base_account(&bytes);
            account_answer(true, decoded)
        },
    }
}

/// What a node reports of itself and of the head of its chain.
#[derive(Debug, PartialEq, Eq)]
pub struct NodeStatus {
    /// The identifier of the chain.
    pub network: String,
    /// Whether the node is still catching up with the chain.
    pub catching_up: bool,
    pub latest_block_height: u64,
    pub latest_block_time: Timestamp,
}

/// The head of the chain, given the revision number of the chain.
///
/// Fails with `NodeSyncing` exactly where the node is still catching up:
/// what it calls its head is then not the head of the chain.
pub fn head_of(revision_number: u64, status: &NodeStatus) -> (r: Result<(Height, Timestamp), Error>)
    ensures
        r is Ok <==> !status.catching_up,
        r matches Ok(head) ==> head.0 == (Height {
            revision_number,
            revision_height: status.latest_block_height,
        }) && head.1 == status.latest_block_time,
        r matches Err(e) ==> e is NodeSyncing,
{
    if status.catching_up {
        return Err(Error::NodeSyncing);
    }
    Ok((Height::new(revision_number, status.latest_block_height), status.latest_block_time))
}

/// The latest height of the chain with the time of its block.
///
/// Fails with `NodeSyncing` exactly where the node is still catching up.
/// The revision number of the height is the one that the identifier of
/// the chain carries, as the node names it.
pub fn latest_height_and_timestamp(status: &NodeStatus) -> (r: Result<(Height, Timestamp), Error>)
    ensures
        r is Ok <==> !status.catching_up,
        r matches Ok(head) ==> head.0 == (Height {
            revision_number: chain_revision(status.network@),
            revision_height: status.latest_block_height,
        }) && head.1 == status.latest_block_time,
        r matches Err(e) ==> e is NodeSyncing,
{
    head_of(ChainId::chain_version(status.network.as_str()), status)
}

/// The block height to ask a node for, given a block number.
///
/// Fails with `InvalidHeight` exactly where the number is above
/// `MAX_BLOCK_HEIGHT`.
pub fn block_height(block_number: u64) -> (r: Result<u64, Error>)
    ensures
        r is Ok <==> block_number <= MAX_BLOCK_HEIGHT,
        r matches Ok(height) ==> height == block_number,
        r matches Err(e) ==> e is InvalidHeight,
{
    match tendermint_height(block_number) {
        Some(height) => Ok(height),
        None => Err(Error::InvalidHeight),
    }
}

/// The value of the request header that scopes a structured query to the
/// height `at`: the block height in decimal, or nothing for a height
/// whose block height is zero, which stands for the head of the chain.
pub open spec fn height_header(at: Height) -> Option<Seq<char>> {
    if at.revision_height == 0 {
        None
    } else {
        Some(decimal_text(at.revision_height as nat))
    }
}

/// The value of the request header that scopes a structured query to the
/// height `at`.
pub fn height_header_value(at: Height) -> (r: Option<String>)
    ensures
        r is Some <==> height_header(at) is Some,
        r matches Some(text) ==> height_header(at) == Some(text@),
{
    if at.revision_height == 0 {
        None
    } else {
        Some(format_u64(at.revision_height))
    }
}

/// The texts among `raw` that are valid client identifiers, in order.
pub open spec fn valid_client_ids(raw: Seq<Seq<char>>) -> Seq<Seq<char>>
    decreases raw.len(),
{
    if raw.len() == 0 {
        Seq::empty()
    } else if client_id_accepted(raw.last()) {
        valid_client_ids(raw.drop_last()).push(raw.last())
    } else {
        valid_client_ids(raw.drop_last())
    }
}

/// The contents of a list of client identifiers, in order.
pub open spec fn client_ids_view(ids: Seq<ClientId>) -> Seq<Seq<char>> {
    Seq::new(ids.len(), |i: int| ids[i]@)
}

/// Reads the identifiers of the clients that a node lists.
///
/// An entry that is no valid identifier is dropped and the others are
/// kept, in the order of the list: one malformed entry does not fail the
/// enumeration.
pub fn parse_client_ids(raw: &Vec<String>) -> (ids: Vec<ClientId>)
    ensures
        client_ids_view(ids@) == valid_client_ids(raw.deep_view()),
{
    let ghost all = raw.deep_view();
    let mut ids: Vec<ClientId> = Vec::new();
    let mut i: usize = 0;
    assert(client_ids_view(ids@) =~= Seq::<Seq<char>>::empty());
    while i < raw.len()
        invariant
            i <= raw.len(),
            all == raw.deep_view(),
            client_ids_view(ids@) == valid_client_ids(all.subrange(0, i as int)),
        decreases raw.len() - i,
    {
        let ghost before = client_ids_view(ids@);
        proof {
            let prefix = all.subrange(0, i + 1);
            assert(prefix.last() == raw@[i as int]@);
            assert(prefix.drop_last() =~= all.subrange(0, i as int));
        }
        match ClientId::from_str(raw[i].as_str()) {
            Ok(id) => {
                ids.push(id);
                assert(client_ids_view(ids@) =~= before.push(id@));
            },
            Err(_) => {},
        }
        i = i + 1;
    }
    assert(all.subrange(0, i as int) =~= all);
    ids
}

/// A channel as a node lists it: the texts of its two identifiers.
#[derive(Debug, PartialEq, Eq)]
pub struct RawChannelEntry {
    pub channel_id: String,
    pub port_id: String,
}

/// The content of a [`RawChannelEntry`], and of a pair of a channel
/// identifier and a port identifier.
pub struct ChannelEntryView {
    pub channel_id: Seq<char>,
    pub port_id: Seq<char>,
}

impl View for RawChannelEntry {
    type V = ChannelEntryView;

    open spec fn view(&self) -> ChannelEntryView {
        ChannelEntryView { channel_id: self.channel_id@, port_id: self.port_id@ }
    }
}

/// The contents of a list of channels as a node lists them, in order.
pub open spec fn raw_channels_view(raw: Seq<RawChannelEntry>) -> Seq<ChannelEntryView> {
    Seq::new(raw.len(), |i: int| raw[i]@)
}

/// The contents of a list of channels, in order.
pub open spec fn channels_view(channels: Seq<(ChannelId, PortId)>) -> Seq<ChannelEntryView> {
    Seq::new(
        channels.len(),
        |i: int| ChannelEntryView { channel_id: channels[i].0@, port_id: channels[i].1@ },
    )
}

/// The entries among `raw` whose two identifiers are both valid, in order.
pub open spec fn valid_channels(raw: Seq<ChannelEntryView>) -> Seq<ChannelEntryView>
    decreases raw.len(),
{
    if raw.len() == 0 {
        Seq::empty()
    } else if channel_id_accepted(raw.last().channel_id) && port_id_accepted(raw.last().port_id) {
        valid_channels(raw.drop_last()).push(raw.last())
    } else {
        valid_channels(raw.drop_last())
    }
}

/// Reads the channels that a node lists.
///
/// An entry with a malformed channel identifier or a malformed port
/// identifier is dropped and the others are kept, in the order of the
/// list.
pub fn parse_channels(raw: &Vec<RawChannelEntry>) -> (channels: Vec<(ChannelId, PortId)>)
    ensures
        channels_view(channels@) == valid_channels(raw_channels_view(raw@)),
{
    let ghost all = raw_channels_view(raw@);
    let mut channels: Vec<(ChannelId, PortId)> = Vec::new();
    let mut i: usize = 0;
    assert(channels_view(channels@) =~= Seq::<ChannelEntryView>::empty());
    while i < raw.len()
        invariant
            i <= raw.len(),
            all == raw_channels_view(raw@),
            channels_view(channels@) == valid_channels(all.subrange(0, i as int)),
        decreases raw.len() - i,
    {
        let ghost before = channels_view(channels@);
        proof {
            let prefix = all.subrange(0, i + 1);
            assert(prefix.last() == raw@[i as int]@);
            assert(prefix.drop_last() =~= all.subrange(0, i as int));
        }
        match ChannelId::from_str(raw[i].channel_id.as_str()) {
            Ok(channel_id) => match PortId::from_str(raw[i].port_id.as_str()) {
                Ok(port_id) => {
                    channels.push((channel_id, port_id));
                    assert(channels_view(channels@) =~= before.push(raw@[i as int]@));
                },
                Err(_) => {},
            },
            Err(_) => {},
        }
        i = i + 1;
    }
    assert(all.subrange(0, i as int) =~= all);
    channels
}

/// A connection as a node lists it.
#[derive(Debug, PartialEq, Eq)]
pub struct IdentifiedConnection {
    pub id: String,
    pub client_id: String,
    /// The state of the handshake, by its number on the wire.
    pub state: i32,
    pub counterparty_client_id: String,
    /// Empty until the other end is known.
    pub counterparty_connection_id: String,
    pub delay_period: u64,
}

/// The content of an [`IdentifiedConnection`].
pub struct IdentifiedConnectionView {
    pub id: Seq<char>,
    pub client_id: Seq<char>,
    pub state: i32,
    pub counterparty_client_id: Seq<char>,
    pub counterparty_connection_id: Seq<char>,
    pub delay_period: u64,
}

impl View for IdentifiedConnection {
    type V = IdentifiedConnectionView;

    open spec fn view(&self) -> IdentifiedConnectionView {
        IdentifiedConnectionView {
            id: self.id@,
            client_id: self.client_id@,
            state: self.state,
            counterparty_client_id: self.counterparty_client_id@,
            counterparty_connection_id: self.counterparty_connection_id@,
            delay_period: self.delay_period,
        }
    }
}

/// The contents of a list of connections, in order.
pub open spec fn connections_view(connections: Seq<IdentifiedConnection>) -> Seq<
    IdentifiedConnectionView,
> {
    Seq::new(connections.len(), |i: int| connections[i]@)
}

/// Whether a listed connection is one of the given client: it names that
/// client, and its own identifier is valid.
pub open spec fn is_connection_of(connection: IdentifiedConnectionView, client_id: Seq<char>)
    -> bool {
    connection.client_id == client_id && connection_id_accepted(connection.id)
}

/// The connections of the given client among `all`, in order.
pub open spec fn connections_of(all: Seq<IdentifiedConnectionView>, client_id: Seq<char>) -> Seq<
    IdentifiedConnectionView,
>
    decreases all.len(),
{
    if all.len() == 0 {
        Seq::empty()
    } else if is_connection_of(all.last(), client_id) {
        connections_of(all.drop_last(), client_id).push(all.last())
    } else {
        connections_of(all.drop_last(), client_id)
    }
}

impl Clone for IdentifiedConnection {
    fn clone(&self) -> (r: Self)
        ensures
            r@ == self@,
    {
        IdentifiedConnection {
            id: self.id.clone(),
            client_id: self.client_id.clone(),
            state: self.state,
            counterparty_client_id: self.counterparty_client_id.clone(),
            counterparty_connection_id: self.counterparty_connection_id.clone(),
            delay_period: self.delay_period,
        }
    }
}

/// Picks the connections of one client from the connections that a node
/// lists. An entry with a malformed identifier is dropped like an entry
/// of another client; the others are kept, in the order of the list.
pub fn connections_using_client(all: &Vec<IdentifiedConnection>, client_id: &str) -> (kept: Vec<
    IdentifiedConnection,
>)
    ensures
        connections_view(kept@) == connections_of(connections_view(all@), client_id@),
{
    let ghost views = connections_view(all@);
    let mut kept: Vec<IdentifiedConnection> = Vec::new();
    let mut i: usize = 0;
    assert(connections_view(kept@) =~= Seq::<IdentifiedConnectionView>::empty());
    while i < all.len()
        invariant
            i <= all.len(),
            views == connections_view(all@),
            connections_view(kept@) == connections_of(views.subrange(0, i as int), client_id@),
        decreases all.len() - i,
    {
        let ghost before = connections_view(kept@);
        proof {
            let prefix = views.subrange(0, i + 1);
            assert(prefix.last() == all@[i as int]@);
            assert(prefix.drop_last() =~= views.subrange(0, i as int));
        }
        let connection = &all[i];
        if str_eq(connection.client_id.as_str(), client_id) && ConnectionId::from_str(
            connection.id.as_str(),
        ).is_ok() {
            kept.push(connection.clone());
            assert(connections_view(kept@) =~= before.push(connection@));
        }
        i = i + 1;
    }
    assert(views.subrange(0, i as int) =~= views);
    kept
}

/// Prepares the query for the state of a client at the height `at`, with proof.
///
/// Fails with `InvalidHeight` exactly where the block height of `at` is
/// above `MAX_BLOCK_HEIGHT`.
pub fn client_state_request(at: Height, client_id: ClientId) -> (r: Result<AbciQueryRequest, Error>)
    ensures
        r is Ok <==> at.revision_height <= MAX_BLOCK_HEIGHT,
        r matches Ok(request) ==> request.path@ == ProofPathView::ClientState(client_id@)
            && request.height == query_height(at) && request.prove,
        r matches Err(e) ==> e is InvalidHeight,
{
    prepare_query(ProofPath::ClientState(client_id), at, true)
}

/// Prepares the query for the consensus state that a client holds for the height `consensus_height` at the height `at`, with proof.
///
/// Fails with `InvalidHeight` exactly where the block height of `at` is
/// above `MAX_BLOCK_HEIGHT`.
pub fn consensus_state_request(at: Height, client_id: ClientId, consensus_height: Height) -> (r: Result<AbciQueryRequest, Error>)
    ensures
        r is Ok <==> at.revision_height <= MAX_BLOCK_HEIGHT,
        r matches Ok(request) ==> request.path@ == (ProofPathView::ClientConsensusState { client_id: client_id@, height: consensus_height })
            && request.height == query_height(at) && request.prove,
        r matches Err(e) ==> e is InvalidHeight,
{
    prepare_query(ProofPath::ClientConsensusState { client_id, height: consensus_height }, at, true)
}

/// Prepares the query for a connection end at the height `at`, with proof.
///
/// Fails with `InvalidHeight` exactly where the block height of `at` is
/// above `MAX_BLOCK_HEIGHT`.
pub fn connection_request(at: Height, connection_id: ConnectionId) -> (r: Result<AbciQueryRequest, Error>)
    ensures
        r is Ok <==> at.revision_height <= MAX_BLOCK_HEIGHT,
        r matches Ok(request) ==> request.path@ == ProofPathView::Connections(connection_id@)
            && request.height == query_height(at) && request.prove,
        r matches Err(e) ==> e is InvalidHeight,
{
    prepare_query(ProofPath::Connections(connection_id), at, true)
}

/// Prepares the query for the commitment to a packet at the height `at`, with proof.
///
/// Fails with `InvalidHeight` exactly where the block height of `at` is
/// above `MAX_BLOCK_HEIGHT`.
pub fn packet_commitment_request(at: Height, port_id: PortId, channel_id: ChannelId, sequence: u64) -> (r: Result<AbciQueryRequest, Error>)
    ensures
        r is Ok <==> at.revision_height <= MAX_BLOCK_HEIGHT,
        r matches Ok(request) ==> request.path@ == (ProofPathView::Commitments { port_id: port_id@, channel_id: channel_id@, sequence })
            && request.height == query_height(at) && request.prove,
        r matches Err(e) ==> e is InvalidHeight,
{
    prepare_query(ProofPath::Commitments { port_id, channel_id, sequence }, at, true)
}

/// Prepares the query for the acknowledgement of a packet at the height `at`, with proof.
///
/// Fails with `InvalidHeight` exactly where the block height of `at` is
/// above `MAX_BLOCK_HEIGHT`.
pub fn packet_acknowledgement_request(at: Height, port_id: PortId, channel_id: ChannelId, sequence: u64) -> (r: Result<AbciQueryRequest, Error>)
    ensures
        r is Ok <==> at.revision_height <= MAX_BLOCK_HEIGHT,
        r matches Ok(request) ==> request.path@ == (ProofPathView::Acks { port_id: port_id@, channel_id: channel_id@, sequence })
            && request.height == query_height(at) && request.prove,
        r matches Err(e) ==> e is InvalidHeight,
{
    prepare_query(ProofPath::Acks { port_id, channel_id, sequence }, at, true)
}

/// Prepares the query for the receipt of a packet at the height `at`, with proof.
///
/// Fails with `InvalidHeight` exactly where the block height of `at` is
/// above `MAX_BLOCK_HEIGHT`.
pub fn packet_receipt_request(at: Height, port_id: PortId, channel_id: ChannelId, sequence: u64) -> (r: Result<AbciQueryRequest, Error>)
    ensures
        r is Ok <==> at.revision_height <= MAX_BLOCK_HEIGHT,
        r matches Ok(request) ==> request.path@ == (ProofPathView::Receipts { port_id: port_id@, channel_id: channel_id@, sequence })
            && request.height == query_height(at) && request.prove,
        r matches Err(e) ==> e is InvalidHeight,
{
    prepare_query(ProofPath::Receipts { port_id, channel_id, sequence }, at, true)
}

/// Prepares the query for the sequence number of the next packet to receive at the height `at`, with proof.
///
/// Fails with `InvalidHeight` exactly where the block height of `at` is
/// above `MAX_BLOCK_HEIGHT`.
pub fn next_sequence_recv_request(at: Height, port_id: PortId, channel_id: ChannelId) -> (r: Result<AbciQueryRequest, Error>)
    ensures
        r is Ok <==> at.revision_height <= MAX_BLOCK_HEIGHT,
        r matches Ok(request) ==> request.path@ == ProofPathView::SeqRecvs(port_id@, channel_id@)
            && request.height == query_height(at) && request.prove,
        r matches Err(e) ==> e is InvalidHeight,
{
    prepare_query(ProofPath::SeqRecvs(port_id, channel_id), at, true)
}

/// Reads the answer to a query whose value is handed on as it is: the
/// state of a client, a consensus state, or a connection end.
///
/// Fails with `QueryRejected` exactly where the result code is not zero.
/// Otherwise the envelope holds the height `at`, the proof that the node
/// has sent, and the bytes of the value; no value where the store holds
/// nothing under the path.
pub fn value_response(at: Height, response: AbciQueryResponse) -> (r: Result<
    ProofEnvelope<Vec<u8>>,
    Error,
>)
    ensures
        r is Ok <==> response.code == 0,
        r matches Ok(envelope) ==> envelope.height == at && envelope.proof@ == proof_of(
            true,
            response.proof,
        ) && (envelope.value is Some <==> response.value@.len() > 0) && (
        envelope.value matches Some(bytes) ==> bytes@ == response.value@),
        r matches Err(e) ==> e matches Error::QueryRejected { code, log } && code == response.code
            && log@ == response.log@,
{
    match open_response(true, at, response) {
        Err(e) => Err(e),
        Ok(answer) => {
            let value = if answer.0.len() > 0 {
                Some(answer.0)
            } else {
                None
            };
            Ok(ProofEnvelope { height: at, proof: answer.1.proof, value })
        },
    }
}

/// Reads the answer to a query for something that is there or is not: the
/// commitment, the receipt or the acknowledgement of a packet.
///
/// Fails with `QueryRejected` exactly where the result code is not zero.
/// Otherwise the envelope holds the height `at`, the proof that the node
/// has sent, and whether the store holds anything under the path.
pub fn existence_response(at: Height, response: AbciQueryResponse) -> (r: Result<
    ProofEnvelope<bool>,
    Error,
>)
    ensures
        r is Ok <==> response.code == 0,
        r matches Ok(envelope) ==> envelope.height == at && envelope.proof@ == proof_of(
            true,
            response.proof,
        ) && envelope.value == Some(response.value@.len() > 0),
        r matches Err(e) ==> e matches Error::QueryRejected { code, log } && code == response.code
            && log@ == response.log@,
{
    match open_response(true, at, response) {
        Err(e) => Err(e),
        Ok(answer) => Ok(
            ProofEnvelope { height: at, proof: answer.1.proof, value: Some(answer.0.len() > 0) },
        ),
    }
}

/// The number that bytes denote, the most significant byte first.
pub open spec fn big_endian_value(bytes: Seq<u8>) -> nat
    decreases bytes.len(),
{
    if bytes.len() == 0 {
        0
    } else {
        big_endian_value(bytes.drop_last()) * 256 + bytes.last() as nat
    }
}

/// The sequence number that a value of the store denotes: eight bytes, the
/// most significant first. `None` for a value of another length.
pub open spec fn sequence_of(bytes: Seq<u8>) -> Option<u64> {
    if bytes.len() == 8 {
        Some(big_endian_value(bytes) as u64)
    } else {
        None
    }
}

/// The value of `n` bytes is below 256 to the power of `n`; this states it
/// for up to eight bytes.
pub proof fn lemma_big_endian_bound(bytes: Seq<u8>)
    requires
        bytes.len() <= 8,
    ensures
        bytes.len() == 0 ==> big_endian_value(bytes) == 0,
        bytes.len() == 1 ==> big_endian_value(bytes) < 0x100,
        bytes.len() == 2 ==> big_endian_value(bytes) < 0x1_0000,
        bytes.len() == 3 ==> big_endian_value(bytes) < 0x100_0000,
        bytes.len() == 4 ==> big_endian_value(bytes) < 0x1_0000_0000,
        bytes.len() == 5 ==> big_endian_value(bytes) < 0x100_0000_0000,
        bytes.len() == 6 ==> big_endian_value(bytes) < 0x1_0000_0000_0000,
        bytes.len() == 7 ==> big_endian_value(bytes) < 0x100_0000_0000_0000,
        bytes.len() == 8 ==> big_endian_value(bytes) <= u64::MAX,
    decreases bytes.len(),
{
    if bytes.len() > 0 {
        lemma_big_endian_bound(bytes.drop_last());
    }
}

/// Reads a sequence number from a value of the store.
pub fn decode_sequence(bytes: &Vec<u8>) -> (r: Option<u64>)
    ensures
        r == sequence_of(bytes@),
{
    if bytes.len() != 8 {
        return None;
    }
    let mut value: u64 = 0;
    let mut i: usize = 0;
    while i < 8
        invariant
            i <= 8,
            bytes@.len() == 8,
            value == big_endian_value(bytes@.subrange(0, i as int)),
        decreases 8 - i,
    {
        proof {
            let prefix = bytes@.subrange(0, i + 1);
            assert(prefix.drop_last() =~= bytes@.subrange(0, i as int));
            assert(prefix.last() == bytes@[i as int]);
            lemma_big_endian_bound(prefix);
            lemma_big_endian_bound(bytes@.subrange(0, i as int));
        }
        value = value * 256 + bytes[i] as u64;
        i = i + 1;
    }
    assert(bytes@.subrange(0, 8) =~= bytes@);
    Some(value)
}

/// Reads the answer to a query for the sequence number of the next packet
/// to receive.
///
/// Fails with `QueryRejected` where the result code is not zero, and
/// otherwise with `Decode` where the value is not eight bytes long.
/// Otherwise the envelope holds the height `at`, the proof that the node
/// has sent, and the number that `sequence_of` names.
pub fn sequence_response(at: Height, response: AbciQueryResponse) -> (r: Result<
    ProofEnvelope<u64>,
    Error,
>)
    ensures
        response.code != 0 ==> (r matches Err(e) && e matches Error::QueryRejected { code, log }
            && code == response.code && log@ == response.log@),
        response.code == 0 && sequence_of(response.value@) is None ==> (r matches Err(e)
            && e is Decode),
        response.code == 0 && sequence_of(response.value@) is Some ==> (r matches Ok(envelope)
            && envelope.height == at && envelope.proof@ == proof_of(true, response.proof)
            && envelope.value == sequence_of(response.value@)),
{
    match open_response(true, at, response) {
        Err(e) => Err(e),
        Ok(answer) => match decode_sequence(&answer.0) {
            None => Err(Error::Decode),
            Some(sequence) => Ok(
                ProofEnvelope { height: at, proof: answer.1.proof, value: Some(sequence) },
            ),
        },
    }
}

/// The sentinel height always asks for the head of the chain: a query at
/// the zero height names no block height to the node, neither in the
/// query itself nor in the header of a structured query.
pub proof fn lemma_zero_height_means_head(at: Height)
    requires
        at.is_zero_spec(),
    ensures
        query_height(at) is None,
        height_header(at) is None,
{
}

/// Every other height is handed on as it is.
pub proof fn lemma_height_passed_verbatim(at: Height)
    requires
        at.revision_height != 0,
    ensures
        query_height(at) == Some(at.revision_height),
        height_header(at) == Some(decimal_text(at.revision_height as nat)),
{
}

/// What an enumeration keeps is valid and was listed by the node, and
/// everything valid that the node listed is kept.
pub proof fn lemma_valid_client_ids(raw: Seq<Seq<char>>)
    ensures
        valid_client_ids(raw).len() <= raw.len(),
        forall|k: int|
            0 <= k < valid_client_ids(raw).len() ==> client_id_accepted(
                #[trigger] valid_client_ids(raw)[k],
            ) && raw.contains(valid_client_ids(raw)[k]),
        forall|j: int|
            0 <= j < raw.len() && client_id_accepted(#[trigger] raw[j]) ==> valid_client_ids(
                raw,
            ).contains(raw[j]),
    decreases raw.len(),
{
    if raw.len() > 0 {
        let rest = raw.drop_last();
        let kept = valid_client_ids(raw);
        let kept_rest = valid_client_ids(rest);
        lemma_valid_client_ids(rest);
        assert forall|k: int| 0 <= k < kept.len() implies client_id_accepted(#[trigger] kept[k])
            && raw.contains(kept[k]) by {
            if k < kept_rest.len() {
                assert(kept[k] == kept_rest[k]);
                let j = choose|j: int| 0 <= j < rest.len() && rest[j] == kept_rest[k];
                assert(raw[j] == rest[j]);
            } else {
                assert(kept[k] == raw[raw.len() - 1]);
            }
        }
        assert forall|j: int|
            0 <= j < raw.len() && client_id_accepted(#[trigger] raw[j]) implies kept.contains(
            raw[j],
        ) by {
            if j < rest.len() {
                assert(rest[j] == raw[j]);
                let k = choose|k: int| 0 <= k < kept_rest.len() && kept_rest[k] == rest[j];
                assert(kept[k] == raw[j]);
            } else {
                assert(kept[kept.len() - 1] == raw[j]);
            }
        }
    }
}

/// Of three listed entries of which exactly one is malformed, the two
/// others are kept, in their order, wherever the malformed one stands.
pub proof fn lemma_one_malformed_of_three(raw: Seq<Seq<char>>, bad: int)
    requires
        raw.len() == 3,
        0 <= bad < 3,
        forall|j: int| 0 <= j < 3 ==> (client_id_accepted(#[trigger] raw[j]) <==> j != bad),
    ensures
        valid_client_ids(raw) == (if bad == 0 {
            seq![raw[1], raw[2]]
        } else if bad == 1 {
            seq![raw[0], raw[2]]
        } else {
            seq![raw[0], raw[1]]
        }),
{
    reveal_with_fuel(valid_client_ids, 4);
    let two = raw.drop_last();
    let one = two.drop_last();
    assert(one.drop_last() =~= Seq::<Seq<char>>::empty());
    assert(raw.last() == raw[2]);
    assert(two.last() == raw[1]);
    assert(one.last() == raw[0]);
    assert(valid_client_ids(one.drop_last()) =~= Seq::<Seq<char>>::empty());
    assert(valid_client_ids(raw) =~= (if bad == 0 {
        seq![raw[1], raw[2]]
    } else if bad == 1 {
        seq![raw[0], raw[2]]
    } else {
        seq![raw[0], raw[1]]
    }));
}

} // verus!
