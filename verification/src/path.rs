//! The paths under which a chain stores the state of the protocol.

use vstd::prelude::*;
use crate::height::Height;
use crate::identifier::{ChannelId, ClientId, ConnectionId, PortId};

verus! {

/// A place in the store of a chain that a query can address.
#[derive(Debug, PartialEq, Eq)]
pub enum ProofPath {
    /// The type of a client.
    ClientType(ClientId),
    /// The state of a client.
    ClientState(ClientId),
    /// The consensus state that a client holds for a height.
    ClientConsensusState { client_id: ClientId, height: Height },
    /// The connections of a client. Not provable.
    ClientConnections(ClientId),
    /// A connection end.
    Connections(ConnectionId),
    /// The owner of a port. Not provable.
    Ports(PortId),
    /// A channel end.
    ChannelEnds(PortId, ChannelId),
    /// The sequence number of the next packet to send.
    SeqSends(PortId, ChannelId),
    /// The sequence number of the next packet to receive.
    SeqRecvs(PortId, ChannelId),
    /// The sequence number of the next packet to acknowledge.
    SeqAcks(PortId, ChannelId),
    /// The commitment to a packet that was sent.
    Commitments { port_id: PortId, channel_id: ChannelId, sequence: u64 },
    /// The acknowledgement of a packet that was received.
    Acks { port_id: PortId, channel_id: ChannelId, sequence: u64 },
    /// The receipt of a packet that was received.
    Receipts { port_id: PortId, channel_id: ChannelId, sequence: u64 },
}

/// The content of a [`ProofPath`].
pub enum ProofPathView {
    ClientType(Seq<char>),
    ClientState(Seq<char>),
    ClientConsensusState { client_id: Seq<char>, height: Height },
    ClientConnections(Seq<char>),
    Connections(Seq<char>),
    Ports(Seq<char>),
    ChannelEnds(Seq<char>, Seq<char>),
    SeqSends(Seq<char>, Seq<char>),
    SeqRecvs(Seq<char>, Seq<char>),
    SeqAcks(Seq<char>, Seq<char>),
    Commitments { port_id: Seq<char>, channel_id: Seq<char>, sequence: u64 },
    Acks { port_id: Seq<char>, channel_id: Seq<char>, sequence: u64 },
    Receipts { port_id: Seq<char>, channel_id: Seq<char>, sequence: u64 },
}

impl ProofPathView {
    /// Whether the chain can prove what it stores under the path. It can
    /// for every path but the connections of a client and the owner of a
    /// port.
    pub open spec fn is_provable(self) -> bool {
        !(self is ClientConnections) && !(self is Ports)
    }
}

impl View for ProofPath {
    type V = ProofPathView;

    open spec fn view(&self) -> ProofPathView {
        match *self {
            ProofPath::ClientType(a) => ProofPathView::ClientType(a@),
            ProofPath::ClientState(a) => ProofPathView::ClientState(a@),
            ProofPath::ClientConsensusState { client_id, height } => ProofPathView::ClientConsensusState { client_id: client_id@, height: height },
            ProofPath::ClientConnections(a) => ProofPathView::ClientConnections(a@),
            ProofPath::Connections(a) => ProofPathView::Connections(a@),
            ProofPath::Ports(a) => ProofPathView::Ports(a@),
            ProofPath::ChannelEnds(a, b) => ProofPathView::ChannelEnds(a@, b@),
            ProofPath::SeqSends(a, b) => ProofPathView::SeqSends(a@, b@),
            ProofPath::SeqRecvs(a, b) => ProofPathView::SeqRecvs(a@, b@),
            ProofPath::SeqAcks(a, b) => ProofPathView::SeqAcks(a@, b@),
            ProofPath::Commitments { port_id, channel_id, sequence } => ProofPathView::Commitments { port_id: port_id@, channel_id: channel_id@, sequence: sequence },
            ProofPath::Acks { port_id, channel_id, sequence } => ProofPathView::Acks { port_id: port_id@, channel_id: channel_id@, sequence: sequence },
            ProofPath::Receipts { port_id, channel_id, sequence } => ProofPathView::Receipts { port_id: port_id@, channel_id: channel_id@, sequence: sequence },
        }
    }
}

impl Clone for ProofPath {
    fn clone(&self) -> (r: Self)
        ensures
            r@ == self@,
    {
        match self {
            ProofPath::ClientType(a) => ProofPath::ClientType(a.clone()),
            ProofPath::ClientState(a) => ProofPath::ClientState(a.clone()),
            ProofPath::ClientConsensusState { client_id, height } => ProofPath::ClientConsensusState { client_id: client_id.clone(), height: *height },
            ProofPath::ClientConnections(a) => ProofPath::ClientConnections(a.clone()),
            ProofPath::Connections(a) => ProofPath::Connections(a.clone()),
            ProofPath::Ports(a) => ProofPath::Ports(a.clone()),
            ProofPath::ChannelEnds(a, b) => ProofPath::ChannelEnds(a.clone(), b.clone()),
            ProofPath::SeqSends(a, b) => ProofPath::SeqSends(a.clone(), b.clone()),
            ProofPath::SeqRecvs(a, b) => ProofPath::SeqRecvs(a.clone(), b.clone()),
            ProofPath::SeqAcks(a, b) => ProofPath::SeqAcks(a.clone(), b.clone()),
            ProofPath::Commitments { port_id, channel_id, sequence } => ProofPath::Commitments { port_id: port_id.clone(), channel_id: channel_id.clone(), sequence: *sequence },
            ProofPath::Acks { port_id, channel_id, sequence } => ProofPath::Acks { port_id: port_id.clone(), channel_id: channel_id.clone(), sequence: *sequence },
            ProofPath::Receipts { port_id, channel_id, sequence } => ProofPath::Receipts { port_id: port_id.clone(), channel_id: channel_id.clone(), sequence: *sequence },
        }
    }
}

impl ProofPath {
    /// Whether the chain can prove what it stores under the path.
    pub fn is_provable(&self) -> (r: bool)
        ensures
            r == self@.is_provable(),
    {
        match self {
            ProofPath::ClientConnections(_) | ProofPath::Ports(_) => false,
            _ => true,
        }
    }
}

} // verus!
