//! Protocol events, and how they are read from the raw events of a node.

use vstd::prelude::*;
use vstd::string::*;
use crate::error::Error;
use crate::height::{height_of_text, Height};
use crate::identifier::{
    channel_id_accepted, client_id_accepted, connection_id_accepted, port_id_accepted, ChannelId,
    ClientId, ConnectionId, PortId,
};
use crate::text::{decimal_u64, parse_u64, str_eq};

verus! {

/// One key-value pair of a raw event.
#[derive(Debug, PartialEq, Eq)]
pub struct Attribute {
    pub key: String,
    pub value: String,
}

/// The content of an [`Attribute`].
pub struct AttributeView {
    pub key: Seq<char>,
    pub value: Seq<char>,
}

impl View for Attribute {
    type V = AttributeView;

    open spec fn view(&self) -> AttributeView {
        AttributeView { key: self.key@, value: self.value@ }
    }
}

/// An event as a node attaches it to the result of a transaction: a type
/// name and a list of attributes.
#[derive(Debug, PartialEq, Eq)]
pub struct RawEvent {
    pub kind: String,
    pub attributes: Vec<Attribute>,
}

/// The content of a [`RawEvent`].
pub struct RawEventView {
    pub kind: Seq<char>,
    pub attributes: Seq<AttributeView>,
}

/// The contents of a list of attributes, in order.
pub open spec fn attributes_view(attributes: Seq<Attribute>) -> Seq<AttributeView> {
    Seq::new(attributes.len(), |i: int| attributes[i]@)
}

impl View for RawEvent {
    type V = RawEventView;

    open spec fn view(&self) -> RawEventView {
        RawEventView { kind: self.kind@, attributes: attributes_view(self.attributes@) }
    }
}

/// The contents of a list of raw events, in order.
pub open spec fn raw_events_view(events: Seq<RawEvent>) -> Seq<RawEventView> {
    Seq::new(events.len(), |i: int| events[i]@)
}

/// The module of the protocol that an event belongs to. Packet events
/// belong to the channel module.
#[derive(Clone, Copy, Debug, PartialEq, Eq, Structural)]
pub enum Module {
    Client,
    Connection,
    Channel,
}

/// The kinds of protocol event that are read from a transaction result.
#[derive(Clone, Copy, Debug, PartialEq, Eq, Structural)]
pub enum EventKind {
    CreateClient,
    UpdateClient,
    OpenInitConnection,
    OpenTryConnection,
    OpenAckConnection,
    OpenConfirmConnection,
    OpenInitChannel,
    OpenTryChannel,
    OpenAckChannel,
    OpenConfirmChannel,
    CloseInitChannel,
    CloseConfirmChannel,
    SendPacket,
    ReceivePacket,
    AcknowledgePacket,
    TimeoutPacket,
}

/// The kind of event that a type name of a raw event stands for.
pub open spec fn kind_of_name(name: Seq<char>) -> Option<EventKind> {
    if name == "create_client"@ {
        Some(EventKind::CreateClient)
    } else if name == "update_client"@ {
        Some(EventKind::UpdateClient)
    } else if name == "connection_open_init"@ {
        Some(EventKind::OpenInitConnection)
    } else if name == "connection_open_try"@ {
        Some(EventKind::OpenTryConnection)
    } else if name == "connection_open_ack"@ {
        Some(EventKind::OpenAckConnection)
    } else if name == "connection_open_confirm"@ {
        Some(EventKind::OpenConfirmConnection)
    } else if name == "channel_open_init"@ {
        Some(EventKind::OpenInitChannel)
    } else if name == "channel_open_try"@ {
        Some(EventKind::OpenTryChannel)
    } else if name == "channel_open_ack"@ {
        Some(EventKind::OpenAckChannel)
    } else if name == "channel_open_confirm"@ {
        Some(EventKind::OpenConfirmChannel)
    } else if name == "channel_close_init"@ {
        Some(EventKind::CloseInitChannel)
    } else if name == "channel_close_confirm"@ {
        Some(EventKind::CloseConfirmChannel)
    } else if name == "send_packet"@ {
        Some(EventKind::SendPacket)
    } else if name == "recv_packet"@ {
        Some(EventKind::ReceivePacket)
    } else if name == "acknowledge_packet"@ {
        Some(EventKind::AcknowledgePacket)
    } else if name == "timeout_packet"@ {
        Some(EventKind::TimeoutPacket)
    } else {
        None
    }
}

impl EventKind {
    /// The module that events of this kind belong to.
    pub open spec fn module_spec(self) -> Module {
        match self {
            EventKind::CreateClient | EventKind::UpdateClient => Module::Client,
            EventKind::OpenInitConnection
            | EventKind::OpenTryConnection
            | EventKind::OpenAckConnection
            | EventKind::OpenConfirmConnection => Module::Connection,
            _ => Module::Channel,
        }
    }

    /// The module that events of this kind belong to.
    #[verifier::when_used_as_spec(module_spec)]
    pub fn module(self) -> (m: Module)
        ensures
            m == self.module_spec(),
    {
        match self {
            EventKind::CreateClient | EventKind::UpdateClient => Module::Client,
            EventKind::OpenInitConnection
            | EventKind::OpenTryConnection
            | EventKind::OpenAckConnection
            | EventKind::OpenConfirmConnection => Module::Connection,
            _ => Module::Channel,
        }
    }

    /// Reads the type name of a raw event. `None` for a name that stands for
    /// no kind of protocol event.
    pub fn from_name(name: &str) -> (r: Option<EventKind>)
        ensures
            r == kind_of_name(name@),
    {
        if str_eq(name, "create_client") {
            Some(EventKind::CreateClient)
        } else if str_eq(name, "update_client") {
            Some(EventKind::UpdateClient)
        } else if str_eq(name, "connection_open_init") {
            Some(EventKind::OpenInitConnection)
        } else if str_eq(name, "connection_open_try") {
            Some(EventKind::OpenTryConnection)
        } else if str_eq(name, "connection_open_ack") {
            Some(EventKind::OpenAckConnection)
        } else if str_eq(name, "connection_open_confirm") {
            Some(EventKind::OpenConfirmConnection)
        } else if str_eq(name, "channel_open_init") {
            Some(EventKind::OpenInitChannel)
        } else if str_eq(name, "channel_open_try") {
            Some(EventKind::OpenTryChannel)
        } else if str_eq(name, "channel_open_ack") {
            Some(EventKind::OpenAckChannel)
        } else if str_eq(name, "channel_open_confirm") {
            Some(EventKind::OpenConfirmChannel)
        } else if str_eq(name, "channel_close_init") {
            Some(EventKind::CloseInitChannel)
        } else if str_eq(name, "channel_close_confirm") {
            Some(EventKind::CloseConfirmChannel)
        } else if str_eq(name, "send_packet") {
            Some(EventKind::SendPacket)
        } else if str_eq(name, "recv_packet") {
            Some(EventKind::ReceivePacket)
        } else if str_eq(name, "acknowledge_packet") {
            Some(EventKind::AcknowledgePacket)
        } else if str_eq(name, "timeout_packet") {
            Some(EventKind::TimeoutPacket)
        } else {
            None
        }
    }
}

/// The value of the last attribute with the given key, if there is one.
pub open spec fn attribute_value(attributes: Seq<AttributeView>, key: Seq<char>) -> Option<
    Seq<char>,
>
    decreases attributes.len(),
{
    if attributes.len() == 0 {
        None
    } else if attributes.last().key == key {
        Some(attributes.last().value)
    } else {
        attribute_value(attributes.drop_last(), key)
    }
}

/// Finds the value of the last attribute with the given key.
pub fn find_attribute<'a>(attributes: &'a Vec<Attribute>, key: &str) -> (r: Option<&'a str>)
    ensures
        r is Some <==> attribute_value(attributes_view(attributes@), key@) is Some,
        r matches Some(v) ==> attribute_value(attributes_view(attributes@), key@) == Some(v@),
{
    let ghost all = attributes_view(attributes@);
    let mut i = attributes.len();
    assert(all.subrange(0, i as int) =~= all);
    while i > 0
        invariant
            i <= attributes.len(),
            all == attributes_view(attributes@),
            attribute_value(all, key@) == attribute_value(all.subrange(0, i as int), key@),
        decreases i,
    {
        i = i - 1;
        proof {
            let prefix = all.subrange(0, i + 1);
            assert(prefix.last() == attributes@[i as int]@);
            assert(prefix.drop_last() =~= all.subrange(0, i as int));
        }
        if str_eq(attributes[i].key.as_str(), key) {
            return Some(attributes[i].value.as_str());
        }
    }
    proof {
        assert(all.subrange(0, 0).len() == 0);
    }
    None
}

/// The value of the last attribute with the given key, where the validation
/// accepts it as the identifier of a client.
pub open spec fn client_id_value(attributes: Seq<AttributeView>, key: Seq<char>) -> Option<Seq<char>> {
    match attribute_value(attributes, key) {
        Some(v) => if client_id_accepted(v) {
            Some(v)
        } else {
            None
        },
        None => None,
    }
}

/// Reads the attribute with the given key as the identifier of a client.
pub fn find_client_id(attributes: &Vec<Attribute>, key: &str) -> (r: Option<ClientId>)
    ensures
        r is Some <==> client_id_value(attributes_view(attributes@), key@) is Some,
        r matches Some(id) ==> client_id_value(attributes_view(attributes@), key@) == Some(id@),
{
    match find_attribute(attributes, key) {
        Some(v) => match ClientId::from_str(v) {
            Ok(id) => Some(id),
            Err(_) => None,
        },
        None => None,
    }
}

/// The value of the last attribute with the given key, where the validation
/// accepts it as the identifier of a connection.
pub open spec fn connection_id_value(attributes: Seq<AttributeView>, key: Seq<char>) -> Option<Seq<char>> {
    match attribute_value(attributes, key) {
        Some(v) => if connection_id_accepted(v) {
            Some(v)
        } else {
            None
        },
        None => None,
    }
}

/// Reads the attribute with the given key as the identifier of a connection.
pub fn find_connection_id(attributes: &Vec<Attribute>, key: &str) -> (r: Option<ConnectionId>)
    ensures
        r is Some <==> connection_id_value(attributes_view(attributes@), key@) is Some,
        r matches Some(id) ==> connection_id_value(attributes_view(attributes@), key@) == Some(id@),
{
    match find_attribute(attributes, key) {
        Some(v) => match ConnectionId::from_str(v) {
            Ok(id) => Some(id),
            Err(_) => None,
        },
        None => None,
    }
}

/// The value of the last attribute with the given key, where the validation
/// accepts it as the identifier of a channel.
pub open spec fn channel_id_value(attributes: Seq<AttributeView>, key: Seq<char>) -> Option<Seq<char>> {
    match attribute_value(attributes, key) {
        Some(v) => if channel_id_accepted(v) {
            Some(v)
        } else {
            None
        },
        None => None,
    }
}

/// Reads the attribute with the given key as the identifier of a channel.
pub fn find_channel_id(attributes: &Vec<Attribute>, key: &str) -> (r: Option<ChannelId>)
    ensures
        r is Some <==> channel_id_value(attributes_view(attributes@), key@) is Some,
        r matches Some(id) ==> channel_id_value(attributes_view(attributes@), key@) == Some(id@),
{
    match find_attribute(attributes, key) {
        Some(v) => match ChannelId::from_str(v) {
            Ok(id) => Some(id),
            Err(_) => None,
        },
        None => None,
    }
}

/// The value of the last attribute with the given key, where the validation
/// accepts it as the identifier of a port.
pub open spec fn port_id_value(attributes: Seq<AttributeView>, key: Seq<char>) -> Option<Seq<char>> {
    match attribute_value(attributes, key) {
        Some(v) => if port_id_accepted(v) {
            Some(v)
        } else {
            None
        },
        None => None,
    }
}

/// Reads the attribute with the given key as the identifier of a port.
pub fn find_port_id(attributes: &Vec<Attribute>, key: &str) -> (r: Option<PortId>)
    ensures
        r is Some <==> port_id_value(attributes_view(attributes@), key@) is Some,
        r matches Some(id) ==> port_id_value(attributes_view(attributes@), key@) == Some(id@),
{
    match find_attribute(attributes, key) {
        Some(v) => match PortId::from_str(v) {
            Ok(id) => Some(id),
            Err(_) => None,
        },
        None => None,
    }
}

/// The value of the last attribute with the given key, read as a height.
pub open spec fn height_value(attributes: Seq<AttributeView>, key: Seq<char>) -> Option<Height> {
    match attribute_value(attributes, key) {
        Some(v) => height_of_text(v),
        None => None,
    }
}

/// Reads the attribute with the given key as a height.
pub fn find_height(attributes: &Vec<Attribute>, key: &str) -> (r: Option<Height>)
    ensures
        r == height_value(attributes_view(attributes@), key@),
{
    match find_attribute(attributes, key) {
        Some(v) => Height::decode(v),
        None => None,
    }
}

/// The value of the last attribute with the given key, read as a decimal
/// number.
pub open spec fn number_value(attributes: Seq<AttributeView>, key: Seq<char>) -> Option<u64> {
    match attribute_value(attributes, key) {
        Some(v) => decimal_u64(v),
        None => None,
    }
}

/// Reads the attribute with the given key as a decimal number.
pub fn find_number(attributes: &Vec<Attribute>, key: &str) -> (r: Option<u64>)
    ensures
        r == number_value(attributes_view(attributes@), key@),
{
    match find_attribute(attributes, key) {
        Some(v) => parse_u64(v),
        None => None,
    }
}

/// What an event of the client module says.
#[derive(Debug, PartialEq, Eq)]
pub struct ClientAttributes {
    /// The height of the block that holds the event.
    pub height: Height,
    pub client_id: ClientId,
    pub client_type: String,
    pub consensus_height: Height,
}

/// The content of [`ClientAttributes`].
pub struct ClientAttributesView {
    pub height: Height,
    pub client_id: Seq<char>,
    pub client_type: Seq<char>,
    pub consensus_height: Height,
}

impl View for ClientAttributes {
    type V = ClientAttributesView;

    open spec fn view(&self) -> ClientAttributesView {
        ClientAttributesView {
            height: self.height,
            client_id: self.client_id@,
            client_type: self.client_type@,
            consensus_height: self.consensus_height,
        }
    }
}

/// What an event of the connection module says.
#[derive(Debug, PartialEq, Eq)]
pub struct ConnectionAttributes {
    /// The height of the block that holds the event.
    pub height: Height,
    pub connection_id: ConnectionId,
    pub client_id: ClientId,
    pub counterparty_client_id: ClientId,
    /// Unknown until the other chain has answered the first handshake step.
    pub counterparty_connection_id: Option<ConnectionId>,
}

/// The content of [`ConnectionAttributes`].
pub struct ConnectionAttributesView {
    pub height: Height,
    pub connection_id: Seq<char>,
    pub client_id: Seq<char>,
    pub counterparty_client_id: Seq<char>,
    pub counterparty_connection_id: Option<Seq<char>>,
}

impl View for ConnectionAttributes {
    type V = ConnectionAttributesView;

    open spec fn view(&self) -> ConnectionAttributesView {
        ConnectionAttributesView {
            height: self.height,
            connection_id: self.connection_id@,
            client_id: self.client_id@,
            counterparty_client_id: self.counterparty_client_id@,
            counterparty_connection_id: match self.counterparty_connection_id {
                Some(id) => Some(id@),
                None => None,
            },
        }
    }
}

/// What an event of the channel handshake says.
#[derive(Debug, PartialEq, Eq)]
pub struct ChannelAttributes {
    /// The height of the block that holds the event.
    pub height: Height,
    pub port_id: PortId,
    pub channel_id: ChannelId,
    pub connection_id: ConnectionId,
    pub counterparty_port_id: PortId,
    /// Unknown until the other chain has answered the first handshake step.
    pub counterparty_channel_id: Option<ChannelId>,
}

/// The content of [`ChannelAttributes`].
pub struct ChannelAttributesView {
    pub height: Height,
    pub port_id: Seq<char>,
    pub channel_id: Seq<char>,
    pub connection_id: Seq<char>,
    pub counterparty_port_id: Seq<char>,
    pub counterparty_channel_id: Option<Seq<char>>,
}

impl View for ChannelAttributes {
    type V = ChannelAttributesView;

    open spec fn view(&self) -> ChannelAttributesView {
        ChannelAttributesView {
            height: self.height,
            port_id: self.port_id@,
            channel_id: self.channel_id@,
            connection_id: self.connection_id@,
            counterparty_port_id: self.counterparty_port_id@,
            counterparty_channel_id: match self.counterparty_channel_id {
                Some(id) => Some(id@),
                None => None,
            },
        }
    }
}

/// What a packet event says: which packet, between which channel ends, and
/// when it times out.
#[derive(Debug, PartialEq, Eq)]
pub struct PacketAttributes {
    /// The height of the block that holds the event.
    pub height: Height,
    pub sequence: u64,
    pub source_port: PortId,
    pub source_channel: ChannelId,
    pub destination_port: PortId,
    pub destination_channel: ChannelId,
    /// The zero height where the packet has no timeout height.
    pub timeout_height: Height,
    /// In nanoseconds; zero where the packet has no timeout timestamp.
    pub timeout_timestamp: u64,
}

/// The content of [`PacketAttributes`].
pub struct PacketAttributesView {
    pub height: Height,
    pub sequence: u64,
    pub source_port: Seq<char>,
    pub source_channel: Seq<char>,
    pub destination_port: Seq<char>,
    pub destination_channel: Seq<char>,
    pub timeout_height: Height,
    pub timeout_timestamp: u64,
}

impl View for PacketAttributes {
    type V = PacketAttributesView;

    open spec fn view(&self) -> PacketAttributesView {
        PacketAttributesView {
            height: self.height,
            sequence: self.sequence,
            source_port: self.source_port@,
            source_channel: self.source_channel@,
            destination_port: self.destination_port@,
            destination_channel: self.destination_channel@,
            timeout_height: self.timeout_height,
            timeout_timestamp: self.timeout_timestamp,
        }
    }
}

/// What the attributes of a raw event say of a client, read at `height`:
/// the identifier, the type and the consensus height must all be there, the
/// identifier valid and the height well formed.
pub open spec fn client_attributes_of(height: Height, attributes: Seq<AttributeView>) -> Option<
    ClientAttributesView,
> {
    match (
        client_id_value(attributes, "client_id"@),
        attribute_value(attributes, "client_type"@),
        height_value(attributes, "consensus_height"@),
    ) {
        (Some(client_id), Some(client_type), Some(consensus_height)) => Some(
            ClientAttributesView { height, client_id, client_type, consensus_height },
        ),
        _ => None,
    }
}

/// What the attributes of a raw event say of a connection, read at
/// `height`. The identifier of the other chain's connection may be missing
/// or malformed; the other three identifiers must be there and valid.
pub open spec fn connection_attributes_of(
    height: Height,
    attributes: Seq<AttributeView>,
) -> Option<ConnectionAttributesView> {
    match (
        connection_id_value(attributes, "connection_id"@),
        client_id_value(attributes, "client_id"@),
        client_id_value(attributes, "counterparty_client_id"@),
    ) {
        (Some(connection_id), Some(client_id), Some(counterparty_client_id)) => Some(
            ConnectionAttributesView {
                height,
                connection_id,
                client_id,
                counterparty_client_id,
                counterparty_connection_id: connection_id_value(
                    attributes,
                    "counterparty_connection_id"@,
                ),
            },
        ),
        _ => None,
    }
}

/// What the attributes of a raw event say of a channel, read at `height`.
/// The identifier of the other chain's channel may be missing or malformed;
/// the other four identifiers must be there and valid.
pub open spec fn channel_attributes_of(height: Height, attributes: Seq<AttributeView>) -> Option<
    ChannelAttributesView,
> {
    match (
        port_id_value(attributes, "port_id"@),
        channel_id_value(attributes, "channel_id"@),
        connection_id_value(attributes, "connection_id"@),
        port_id_value(attributes, "counterparty_port_id"@),
    ) {
        (Some(port_id), Some(channel_id), Some(connection_id), Some(counterparty_port_id)) => Some(
            ChannelAttributesView {
                height,
                port_id,
                channel_id,
                connection_id,
                counterparty_port_id,
                counterparty_channel_id: channel_id_value(attributes, "counterparty_channel_id"@),
            },
        ),
        _ => None,
    }
}

/// The four channel ends of a packet, where all are there and valid.
pub open spec fn packet_ends_of(attributes: Seq<AttributeView>) -> Option<
    (Seq<char>, Seq<char>, Seq<char>, Seq<char>),
> {
    match (
        port_id_value(attributes, "packet_src_port"@),
        channel_id_value(attributes, "packet_src_channel"@),
        port_id_value(attributes, "packet_dst_port"@),
        channel_id_value(attributes, "packet_dst_channel"@),
    ) {
        (Some(sp), Some(sc), Some(dp), Some(dc)) => Some((sp, sc, dp, dc)),
        _ => None,
    }
}

/// What the attributes of a raw event say of a packet, read at `height`:
/// the sequence number, the four channel ends and both timeouts must all be
/// there and well formed.
pub open spec fn packet_attributes_of(height: Height, attributes: Seq<AttributeView>) -> Option<
    PacketAttributesView,
> {
    match (
        number_value(attributes, "packet_sequence"@),
        packet_ends_of(attributes),
        height_value(attributes, "packet_timeout_height"@),
        number_value(attributes, "packet_timeout_timestamp"@),
    ) {
        (Some(sequence), Some(ends), Some(timeout_height), Some(timeout_timestamp)) => Some(
            PacketAttributesView {
                height,
                sequence,
                source_port: ends.0,
                source_channel: ends.1,
                destination_port: ends.2,
                destination_channel: ends.3,
                timeout_height,
                timeout_timestamp,
            },
        ),
        _ => None,
    }
}

/// Reads the attributes of a client event.
pub fn extract_client_attributes(height: Height, attributes: &Vec<Attribute>) -> (r: Option<
    ClientAttributes,
>)
    ensures
        r is Some <==> client_attributes_of(height, attributes_view(attributes@)) is Some,
        r matches Some(a) ==> client_attributes_of(height, attributes_view(attributes@)) == Some(
            a@,
        ),
{
    let client_id = find_client_id(attributes, "client_id");
    let client_type = find_attribute(attributes, "client_type");
    let consensus_height = find_height(attributes, "consensus_height");
    match (client_id, client_type, consensus_height) {
        (Some(client_id), Some(client_type), Some(consensus_height)) => Some(
            ClientAttributes {
                height,
                client_id,
                client_type: client_type.to_owned(),
                consensus_height,
            },
        ),
        _ => None,
    }
}

/// Reads the attributes of a connection event.
pub fn extract_connection_attributes(height: Height, attributes: &Vec<Attribute>) -> (r: Option<
    ConnectionAttributes,
>)
    ensures
        r is Some <==> connection_attributes_of(height, attributes_view(attributes@)) is Some,
        r matches Some(a) ==> connection_attributes_of(height, attributes_view(attributes@))
            == Some(a@),
{
    let connection_id = find_connection_id(attributes, "connection_id");
    let client_id = find_client_id(attributes, "client_id");
    let counterparty_client_id = find_client_id(attributes, "counterparty_client_id");
    let counterparty_connection_id = find_connection_id(attributes, "counterparty_connection_id");
    match (connection_id, client_id, counterparty_client_id) {
        (Some(connection_id), Some(client_id), Some(counterparty_client_id)) => Some(
            ConnectionAttributes {
                height,
                connection_id,
                client_id,
                counterparty_client_id,
                counterparty_connection_id,
            },
        ),
        _ => None,
    }
}

/// Reads the attributes of a channel handshake event.
pub fn extract_channel_attributes(height: Height, attributes: &Vec<Attribute>) -> (r: Option<
    ChannelAttributes,
>)
    ensures
        r is Some <==> channel_attributes_of(height, attributes_view(attributes@)) is Some,
        r matches Some(a) ==> channel_attributes_of(height, attributes_view(attributes@)) == Some(
            a@,
        ),
{
    let port_id = find_port_id(attributes, "port_id");
    let channel_id = find_channel_id(attributes, "channel_id");
    let connection_id = find_connection_id(attributes, "connection_id");
    let counterparty_port_id = find_port_id(attributes, "counterparty_port_id");
    let counterparty_channel_id = find_channel_id(attributes, "counterparty_channel_id");
    match (port_id, channel_id, connection_id, counterparty_port_id) {
        (Some(port_id), Some(channel_id), Some(connection_id), Some(counterparty_port_id)) => Some(
            ChannelAttributes {
                height,
                port_id,
                channel_id,
                connection_id,
                counterparty_port_id,
                counterparty_channel_id,
            },
        ),
        _ => None,
    }
}

/// Reads the attributes of a packet event.
pub fn extract_packet_attributes(height: Height, attributes: &Vec<Attribute>) -> (r: Option<
    PacketAttributes,
>)
    ensures
        r is Some <==> packet_attributes_of(height, attributes_view(attributes@)) is Some,
        r matches Some(a) ==> packet_attributes_of(height, attributes_view(attributes@)) == Some(
            a@,
        ),
{
    let sequence = find_number(attributes, "packet_sequence");
    let source_port = find_port_id(attributes, "packet_src_port");
    let source_channel = find_channel_id(attributes, "packet_src_channel");
    let destination_port = find_port_id(attributes, "packet_dst_port");
    let destination_channel = find_channel_id(attributes, "packet_dst_channel");
    let timeout_height = find_height(attributes, "packet_timeout_height");
    let timeout_timestamp = find_number(attributes, "packet_timeout_timestamp");
    match (sequence, source_port, source_channel, destination_port, destination_channel) {
        (
            Some(sequence),
            Some(source_port),
            Some(source_channel),
            Some(destination_port),
            Some(destination_channel),
        ) => match (timeout_height, timeout_timestamp) {
            (Some(timeout_height), Some(timeout_timestamp)) => Some(
                PacketAttributes {
                    height,
                    sequence,
                    source_port,
                    source_channel,
                    destination_port,
                    destination_channel,
                    timeout_height,
                    timeout_timestamp,
                },
            ),
            _ => None,
        },
        _ => None,
    }
}

/// A protocol event: something that happened on the chain and that the
/// relayer core may have to act on.
#[derive(Debug, PartialEq, Eq)]
pub enum IbcEvent {
    /// A new block was committed at this height.
    NewBlock(Height),
    CreateClient(ClientAttributes),
    UpdateClient(ClientAttributes),
    OpenInitConnection(ConnectionAttributes),
    OpenTryConnection(ConnectionAttributes),
    OpenAckConnection(ConnectionAttributes),
    OpenConfirmConnection(ConnectionAttributes),
    OpenInitChannel(ChannelAttributes),
    OpenTryChannel(ChannelAttributes),
    OpenAckChannel(ChannelAttributes),
    OpenConfirmChannel(ChannelAttributes),
    CloseInitChannel(ChannelAttributes),
    CloseConfirmChannel(ChannelAttributes),
    SendPacket(PacketAttributes),
    ReceivePacket(PacketAttributes),
    AcknowledgePacket(PacketAttributes),
    TimeoutPacket(PacketAttributes),
}

/// What an event says, by the family of its kind.
pub enum EventBody {
    Block(Height),
    Client(ClientAttributesView),
    Connection(ConnectionAttributesView),
    Channel(ChannelAttributesView),
    Packet(PacketAttributesView),
}

/// The content of an [`IbcEvent`]: its kind (`None` for a new block) and what
/// it says.
pub struct IbcEventView {
    pub kind: Option<EventKind>,
    pub body: EventBody,
}

impl IbcEventView {
    /// The module that the event belongs to; `None` for a new block.
    pub open spec fn module(self) -> Option<Module> {
        match self.kind {
            Some(kind) => Some(kind.module_spec()),
            None => None,
        }
    }

    /// The height of the block that holds the event.
    pub open spec fn height(self) -> Height {
        match self.body {
            EventBody::Block(h) => h,
            EventBody::Client(a) => a.height,
            EventBody::Connection(a) => a.height,
            EventBody::Channel(a) => a.height,
            EventBody::Packet(a) => a.height,
        }
    }
}

impl View for IbcEvent {
    type V = IbcEventView;

    open spec fn view(&self) -> IbcEventView {
        match *self {
            IbcEvent::NewBlock(h) => IbcEventView { kind: None, body: EventBody::Block(h) },
            IbcEvent::CreateClient(a) => IbcEventView {
                kind: Some(EventKind::CreateClient),
                body: EventBody::Client(a@),
            },
            IbcEvent::UpdateClient(a) => IbcEventView {
                kind: Some(EventKind::UpdateClient),
                body: EventBody::Client(a@),
            },
            IbcEvent::OpenInitConnection(a) => IbcEventView {
                kind: Some(EventKind::OpenInitConnection),
                body: EventBody::Connection(a@),
            },
            IbcEvent::OpenTryConnection(a) => IbcEventView {
                kind: Some(EventKind::OpenTryConnection),
                body: EventBody::Connection(a@),
            },
            IbcEvent::OpenAckConnection(a) => IbcEventView {
                kind: Some(EventKind::OpenAckConnection),
                body: EventBody::Connection(a@),
            },
            IbcEvent::OpenConfirmConnection(a) => IbcEventView {
                kind: Some(EventKind::OpenConfirmConnection),
                body: EventBody::Connection(a@),
            },
            IbcEvent::OpenInitChannel(a) => IbcEventView {
                kind: Some(EventKind::OpenInitChannel),
                body: EventBody::Channel(a@),
            },
            IbcEvent::OpenTryChannel(a) => IbcEventView {
                kind: Some(EventKind::OpenTryChannel),
                body: EventBody::Channel(a@),
            },
            IbcEvent::OpenAckChannel(a) => IbcEventView {
                kind: Some(EventKind::OpenAckChannel),
                body: EventBody::Channel(a@),
            },
            IbcEvent::OpenConfirmChannel(a) => IbcEventView {
                kind: Some(EventKind::OpenConfirmChannel),
                body: EventBody::Channel(a@),
            },
            IbcEvent::CloseInitChannel(a) => IbcEventView {
                kind: Some(EventKind::CloseInitChannel),
                body: EventBody::Channel(a@),
            },
            IbcEvent::CloseConfirmChannel(a) => IbcEventView {
                kind: Some(EventKind::CloseConfirmChannel),
                body: EventBody::Channel(a@),
            },
            IbcEvent::SendPacket(a) => IbcEventView {
                kind: Some(EventKind::SendPacket),
                body: EventBody::Packet(a@),
            },
            IbcEvent::ReceivePacket(a) => IbcEventView {
                kind: Some(EventKind::ReceivePacket),
                body: EventBody::Packet(a@),
            },
            IbcEvent::AcknowledgePacket(a) => IbcEventView {
                kind: Some(EventKind::AcknowledgePacket),
                body: EventBody::Packet(a@),
            },
            IbcEvent::TimeoutPacket(a) => IbcEventView {
                kind: Some(EventKind::TimeoutPacket),
                body: EventBody::Packet(a@),
            },
        }
    }
}

/// The contents of a list of events, in order.
pub open spec fn events_view(events: Seq<IbcEvent>) -> Seq<IbcEventView> {
    Seq::new(events.len(), |i: int| events[i]@)
}

impl IbcEvent {
    /// The kind of the event; `None` for a new block.
    pub fn kind(&self) -> (k: Option<EventKind>)
        ensures
            k == self@.kind,
    {
        match self {
            IbcEvent::NewBlock(_) => None,
            IbcEvent::CreateClient(_) => Some(EventKind::CreateClient),
            IbcEvent::UpdateClient(_) => Some(EventKind::UpdateClient),
            IbcEvent::OpenInitConnection(_) => Some(EventKind::OpenInitConnection),
            IbcEvent::OpenTryConnection(_) => Some(EventKind::OpenTryConnection),
            IbcEvent::OpenAckConnection(_) => Some(EventKind::OpenAckConnection),
            IbcEvent::OpenConfirmConnection(_) => Some(EventKind::OpenConfirmConnection),
            IbcEvent::OpenInitChannel(_) => Some(EventKind::OpenInitChannel),
            IbcEvent::OpenTryChannel(_) => Some(EventKind::OpenTryChannel),
            IbcEvent::OpenAckChannel(_) => Some(EventKind::OpenAckChannel),
            IbcEvent::OpenConfirmChannel(_) => Some(EventKind::OpenConfirmChannel),
            IbcEvent::CloseInitChannel(_) => Some(EventKind::CloseInitChannel),
            IbcEvent::CloseConfirmChannel(_) => Some(EventKind::CloseConfirmChannel),
            IbcEvent::SendPacket(_) => Some(EventKind::SendPacket),
            IbcEvent::ReceivePacket(_) => Some(EventKind::ReceivePacket),
            IbcEvent::AcknowledgePacket(_) => Some(EventKind::AcknowledgePacket),
            IbcEvent::TimeoutPacket(_) => Some(EventKind::TimeoutPacket),
        }
    }

    /// The module that the event belongs to; `None` for a new block.
    pub fn module(&self) -> (m: Option<Module>)
        ensures
            m == self@.module(),
    {
        match self.kind() {
            Some(kind) => Some(kind.module()),
            None => None,
        }
    }

    /// The height of the block that holds the event.
    pub fn height(&self) -> (h: Height)
        ensures
            h == self@.height(),
    {
        match self {
            IbcEvent::NewBlock(h) => *h,
            IbcEvent::CreateClient(a) | IbcEvent::UpdateClient(a) => a.height,
            IbcEvent::OpenInitConnection(a)
            | IbcEvent::OpenTryConnection(a)
            | IbcEvent::OpenAckConnection(a)
            | IbcEvent::OpenConfirmConnection(a) => a.height,
            IbcEvent::OpenInitChannel(a)
            | IbcEvent::OpenTryChannel(a)
            | IbcEvent::OpenAckChannel(a)
            | IbcEvent::OpenConfirmChannel(a)
            | IbcEvent::CloseInitChannel(a)
            | IbcEvent::CloseConfirmChannel(a) => a.height,
            IbcEvent::SendPacket(a)
            | IbcEvent::ReceivePacket(a)
            | IbcEvent::AcknowledgePacket(a)
            | IbcEvent::TimeoutPacket(a) => a.height,
        }
    }

    /// Whether the event belongs to the client module.
    pub fn is_client_event(&self) -> (r: bool)
        ensures
            r == (self@.module() == Some(Module::Client)),
    {
        match self.module() {
            Some(Module::Client) => true,
            _ => false,
        }
    }

    /// Whether the event belongs to the connection module.
    pub fn is_connection_event(&self) -> (r: bool)
        ensures
            r == (self@.module() == Some(Module::Connection)),
    {
        match self.module() {
            Some(Module::Connection) => true,
            _ => false,
        }
    }

    /// Whether the event belongs to the channel module, which packet events
    /// do too.
    pub fn is_channel_event(&self) -> (r: bool)
        ensures
            r == (self@.module() == Some(Module::Channel)),
    {
        match self.module() {
            Some(Module::Channel) => true,
            _ => false,
        }
    }
}

/// The protocol event that a raw event stands for, read at `height`: its
/// type name must name a kind of event, and its attributes must hold what
/// events of that kind say. `None` for every other raw event.
pub open spec fn event_of(height: Height, raw: RawEventView) -> Option<IbcEventView> {
    match kind_of_name(raw.kind) {
        Some(kind) => {
            let body = match kind {
                EventKind::CreateClient | EventKind::UpdateClient => match client_attributes_of(
                    height,
                    raw.attributes,
                ) {
                    Some(a) => Some(EventBody::Client(a)),
                    None => None,
                },
                EventKind::OpenInitConnection
                | EventKind::OpenTryConnection
                | EventKind::OpenAckConnection
                | EventKind::OpenConfirmConnection => match connection_attributes_of(
                    height,
                    raw.attributes,
                ) {
                    Some(a) => Some(EventBody::Connection(a)),
                    None => None,
                },
                EventKind::OpenInitChannel
                | EventKind::OpenTryChannel
                | EventKind::OpenAckChannel
                | EventKind::OpenConfirmChannel
                | EventKind::CloseInitChannel
                | EventKind::CloseConfirmChannel => match channel_attributes_of(
                    height,
                    raw.attributes,
                ) {
                    Some(a) => Some(EventBody::Channel(a)),
                    None => None,
                },
                EventKind::SendPacket
                | EventKind::ReceivePacket
                | EventKind::AcknowledgePacket
                | EventKind::TimeoutPacket => match packet_attributes_of(height, raw.attributes) {
                    Some(a) => Some(EventBody::Packet(a)),
                    None => None,
                },
            };
            match body {
                Some(body) => Some(IbcEventView { kind: Some(kind), body }),
                None => None,
            }
        },
        None => None,
    }
}

/// Reads a raw event of a transaction that was included at `height`.
///
/// A raw event that is no protocol event, or whose attributes are
/// incomplete or malformed, gives `None`: the caller drops it and goes on.
pub fn parse_event(height: Height, raw: &RawEvent) -> (r: Option<IbcEvent>)
    ensures
        r is Some <==> event_of(height, raw@) is Some,
        r matches Some(e) ==> event_of(height, raw@) == Some(e@),
{
    match EventKind::from_name(raw.kind.as_str()) {
        None => None,
        Some(kind) => match kind {
            EventKind::CreateClient => match extract_client_attributes(height, &raw.attributes) {
                Some(a) => Some(IbcEvent::CreateClient(a)),
                None => None,
            },
            EventKind::UpdateClient => match extract_client_attributes(height, &raw.attributes) {
                Some(a) => Some(IbcEvent::UpdateClient(a)),
                None => None,
            },
            EventKind::OpenInitConnection => match extract_connection_attributes(height, &raw.attributes) {
                Some(a) => Some(IbcEvent::OpenInitConnection(a)),
                None => None,
            },
            EventKind::OpenTryConnection => match extract_connection_attributes(height, &raw.attributes) {
                Some(a) => Some(IbcEvent::OpenTryConnection(a)),
                None => None,
            },
            EventKind::OpenAckConnection => match extract_connection_attributes(height, &raw.attributes) {
                Some(a) => Some(IbcEvent::OpenAckConnection(a)),
                None => None,
            },
            EventKind::OpenConfirmConnection => match extract_connection_attributes(height, &raw.attributes) {
                Some(a) => Some(IbcEvent::OpenConfirmConnection(a)),
                None => None,
            },
            EventKind::OpenInitChannel => match extract_channel_attributes(height, &raw.attributes) {
                Some(a) => Some(IbcEvent::OpenInitChannel(a)),
                None => None,
            },
            EventKind::OpenTryChannel => match extract_channel_attributes(height, &raw.attributes) {
                Some(a) => Some(IbcEvent::OpenTryChannel(a)),
                None => None,
            },
            EventKind::OpenAckChannel => match extract_channel_attributes(height, &raw.attributes) {
                Some(a) => Some(IbcEvent::OpenAckChannel(a)),
                None => None,
            },
            EventKind::OpenConfirmChannel => match extract_channel_attributes(height, &raw.attributes) {
                Some(a) => Some(IbcEvent::OpenConfirmChannel(a)),
                None => None,
            },
            EventKind::CloseInitChannel => match extract_channel_attributes(height, &raw.attributes) {
                Some(a) => Some(IbcEvent::CloseInitChannel(a)),
                None => None,
            },
            EventKind::CloseConfirmChannel => match extract_channel_attributes(height, &raw.attributes) {
                Some(a) => Some(IbcEvent::CloseConfirmChannel(a)),
                None => None,
            },
            EventKind::SendPacket => match extract_packet_attributes(height, &raw.attributes) {
                Some(a) => Some(IbcEvent::SendPacket(a)),
                None => None,
            },
            EventKind::ReceivePacket => match extract_packet_attributes(height, &raw.attributes) {
                Some(a) => Some(IbcEvent::ReceivePacket(a)),
                None => None,
            },
            EventKind::AcknowledgePacket => match extract_packet_attributes(height, &raw.attributes) {
                Some(a) => Some(IbcEvent::AcknowledgePacket(a)),
                None => None,
            },
            EventKind::TimeoutPacket => match extract_packet_attributes(height, &raw.attributes) {
                Some(a) => Some(IbcEvent::TimeoutPacket(a)),
                None => None,
            },
        },
    }
}

/// An event that was read successfully has the height it was read at, and
/// belongs to the module of the kind that its type name stands for.
pub proof fn lemma_event_of_kind(height: Height, raw: RawEventView)
    requires
        event_of(height, raw) is Some,
    ensures
        event_of(height, raw).unwrap().kind == kind_of_name(raw.kind),
        event_of(height, raw).unwrap().height() == height,
{
}

/// The protocol events that the raw events of one transaction stand for,
/// in the order of the raw events. Raw events that cannot be read are left
/// out.
pub open spec fn events_of(height: Height, raws: Seq<RawEventView>) -> Seq<IbcEventView>
    decreases raws.len(),
{
    if raws.len() == 0 {
        Seq::empty()
    } else {
        match event_of(height, raws.last()) {
            Some(e) => events_of(height, raws.drop_last()).push(e),
            None => events_of(height, raws.drop_last()),
        }
    }
}

/// Reads the raw events of one transaction. A raw event that cannot be
/// read is dropped; it does not stop the extraction.
pub fn parse_events(height: Height, raws: &Vec<RawEvent>) -> (out: Vec<IbcEvent>)
    ensures
        events_view(out@) == events_of(height, raw_events_view(raws@)),
{
    let ghost all = raw_events_view(raws@);
    let mut out: Vec<IbcEvent> = Vec::new();
    let mut i: usize = 0;
    assert(events_view(out@) =~= Seq::<IbcEventView>::empty());
    while i < raws.len()
        invariant
            i <= raws.len(),
            all == raw_events_view(raws@),
            events_view(out@) == events_of(height, all.subrange(0, i as int)),
        decreases raws.len() - i,
    {
        let ghost before = events_view(out@);
        proof {
            let prefix = all.subrange(0, i + 1);
            assert(prefix.last() == raws@[i as int]@);
            assert(prefix.drop_last() =~= all.subrange(0, i as int));
        }
        match parse_event(height, &raws[i]) {
            Some(e) => {
                out.push(e);
                assert(events_view(out@) =~= before.push(e@));
            },
            None => {},
        }
        i = i + 1;
    }
    assert(all.subrange(0, i as int) =~= all);
    out
}

/// How many of the events are of the given kind.
pub open spec fn count_of_kind(kind: EventKind, events: Seq<IbcEventView>) -> nat
    decreases events.len(),
{
    if events.len() == 0 {
        0
    } else if events.last().kind == Some(kind) {
        count_of_kind(kind, events.drop_last()) + 1
    } else {
        count_of_kind(kind, events.drop_last())
    }
}

/// Where exactly one event is of a kind, any two events of that kind are
/// the same entry of the list.
pub proof fn lemma_single_of_kind(kind: EventKind, events: Seq<IbcEventView>, i: int, j: int)
    requires
        count_of_kind(kind, events) == 1,
        0 <= i < events.len(),
        0 <= j < events.len(),
        events[i].kind == Some(kind),
        events[j].kind == Some(kind),
    ensures
        i == j,
    decreases events.len(),
{
    let rest = events.drop_last();
    let last = events.len() - 1;
    if events.last().kind == Some(kind) {
        // No event of the kind is left among the others.
        if i < last {
            lemma_some_of_kind(kind, rest, i);
        }
        if j < last {
            lemma_some_of_kind(kind, rest, j);
        }
    } else {
        lemma_single_of_kind(kind, rest, i, j);
    }
}

/// A list that holds an event of a kind counts at least one of that kind.
pub proof fn lemma_some_of_kind(kind: EventKind, events: Seq<IbcEventView>, i: int)
    requires
        0 <= i < events.len(),
        events[i].kind == Some(kind),
    ensures
        count_of_kind(kind, events) >= 1,
    decreases events.len(),
{
    if i < events.len() - 1 {
        lemma_some_of_kind(kind, events.drop_last(), i);
    }
}

/// Takes the one event of the given kind out of a list of events.
///
/// Succeeds exactly where the list holds one event of that kind, and then
/// returns that event. Otherwise fails with `UnexpectedEventCount` and the
/// number of events of that kind that the list holds: with none or with
/// several there is no telling which one is meant.
pub fn expect_single(kind: EventKind, events: Vec<IbcEvent>) -> (r: Result<IbcEvent, Error>)
    ensures
        r is Ok <==> count_of_kind(kind, events_view(events@)) == 1,
        r matches Ok(e) ==> e@.kind == Some(kind) && events_view(events@).contains(e@),
        r matches Err(e) ==> e matches Error::UnexpectedEventCount { found } && found
            == count_of_kind(kind, events_view(events@)),
{
    let ghost all = events_view(events@);
    let mut events = events;
    let mut found: usize = 0;
    let mut at: usize = 0;
    let mut i: usize = 0;
    while i < events.len()
        invariant
            i <= events.len(),
            all == events_view(events@),
            found == count_of_kind(kind, all.subrange(0, i as int)),
            found <= i,
            found > 0 ==> at < i && all[at as int].kind == Some(kind),
        decreases events.len() - i,
    {
        proof {
            let prefix = all.subrange(0, i + 1);
            assert(prefix.last() == events@[i as int]@);
            assert(prefix.drop_last() =~= all.subrange(0, i as int));
        }
        let same = match events[i].kind() {
            Some(k) => k == kind,
            None => false,
        };
        if same {
            found = found + 1;
            at = i;
        }
        i = i + 1;
    }
    assert(all.subrange(0, i as int) =~= all);
    if found == 1 {
        let e = events.remove(at);
        assert(all[at as int] == e@);
        Ok(e)
    } else {
        Err(Error::UnexpectedEventCount { found })
    }
}

} // verus!
