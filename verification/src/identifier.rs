//! Identifiers of chains, clients, connections, channels and ports.
//!
//! A value of one of the identifier types always holds a text that the
//! validation of the `ibc` crate accepts for that kind of identifier.

use core::str::FromStr;
use vstd::prelude::*;
use vstd::string::*;
use crate::error::Error;

verus! {

/// Whether `ClientId::from_str` of the `ibc` crate accepts the text.
pub uninterp spec fn client_id_accepted(s: Seq<char>) -> bool;

/// Whether `ConnectionId::from_str` of the `ibc` crate accepts the text.
pub uninterp spec fn connection_id_accepted(s: Seq<char>) -> bool;

/// Whether `ChannelId::from_str` of the `ibc` crate accepts the text.
pub uninterp spec fn channel_id_accepted(s: Seq<char>) -> bool;

/// Whether `PortId::from_str` of the `ibc` crate accepts the text.
pub uninterp spec fn port_id_accepted(s: Seq<char>) -> bool;

/// The revision number that `ChainId::chain_version` of the `ibc` crate reads
/// from the text of a chain identifier.
pub uninterp spec fn chain_revision(s: Seq<char>) -> u64;

/// Runs `ClientId::from_str` of the `ibc` crate on `s` and reports whether it
/// returned `Ok`. Not proved: that the outcome depends on the characters
/// of `s` alone, which is what the name `client_id_accepted` stands for.
#[verifier::external_body]
fn ibc_accepts_client_id(s: &str) -> (ok: bool)
    ensures
        ok == client_id_accepted(s@),
{
    ibc::core::ics24_host::identifier::ClientId::from_str(s).is_ok()
}

/// Runs `ConnectionId::from_str` of the `ibc` crate on `s` and reports
/// whether it returned `Ok`. Not proved: that the outcome depends on the
/// characters of `s` alone.
#[verifier::external_body]
fn ibc_accepts_connection_id(s: &str) -> (ok: bool)
    ensures
        ok == connection_id_accepted(s@),
{
    ibc::core::ics24_host::identifier::ConnectionId::from_str(s).is_ok()
}

/// Runs `ChannelId::from_str` of the `ibc` crate on `s` and reports whether
/// it returned `Ok`. Not proved: that the outcome depends on the characters
/// of `s` alone.
#[verifier::external_body]
fn ibc_accepts_channel_id(s: &str) -> (ok: bool)
    ensures
        ok == channel_id_accepted(s@),
{
    ibc::core::ics24_host::identifier::ChannelId::from_str(s).is_ok()
}

/// Runs `PortId::from_str` of the `ibc` crate on `s` and reports whether it
/// returned `Ok`. Not proved: that the outcome depends on the characters
/// of `s` alone.
#[verifier::external_body]
fn ibc_accepts_port_id(s: &str) -> (ok: bool)
    ensures
        ok == port_id_accepted(s@),
{
    ibc::core::ics24_host::identifier::PortId::from_str(s).is_ok()
}

/// Runs `ChainId::chain_version` of the `ibc` crate on `s`. Not proved: that
/// the number depends on the characters of `s` alone.
#[verifier::external_body]
fn ibc_chain_version(s: &str) -> (version: u64)
    ensures
        version == chain_revision(s@),
{
    ibc::core::ics24_host::identifier::ChainId::chain_version(s)
}

/// The identifier of a chain, with the revision number that its text carries.
#[derive(Debug, PartialEq, Eq)]
pub struct ChainId {
    id: String,
    version: u64,
}

impl View for ChainId {
    type V = Seq<char>;

    closed spec fn view(&self) -> Seq<char> {
        self.id@
    }
}

impl Clone for ChainId {
    fn clone(&self) -> (r: Self)
        ensures
            r@ == self@,
    {
        proof {
            use_type_invariant(self);
        }
        ChainId { id: self.id.clone(), version: self.version }
    }
}

impl ChainId {
    #[verifier::type_invariant]
    spec fn consistent(self) -> bool {
        self.version == chain_revision(self.id@)
    }

    /// Takes any text as a chain identifier. No text is refused.
    pub fn from_string(id: &str) -> (r: ChainId)
        ensures
            r@ == id@,
    {
        let version = ibc_chain_version(id);
        ChainId { id: id.to_owned(), version }
    }

    /// The text of the identifier.
    pub fn as_str(&self) -> (r: &str)
        ensures
            r@ == self@,
    {
        self.id.as_str()
    }

    /// The revision number of the chain: the one that the text of the
    /// identifier carries.
    pub fn version(&self) -> (v: u64)
        ensures
            v == chain_revision(self@),
    {
        proof {
            use_type_invariant(self);
        }
        self.version
    }

    /// The revision number that the text of a chain identifier carries.
    pub fn chain_version(id: &str) -> (v: u64)
        ensures
            v == chain_revision(id@),
    {
        ibc_chain_version(id)
    }
}

/// The identifier of a light client.
#[derive(Debug, PartialEq, Eq)]
pub struct ClientId {
    id: String,
}

impl View for ClientId {
    type V = Seq<char>;

    closed spec fn view(&self) -> Seq<char> {
        self.id@
    }
}

impl Clone for ClientId {
    fn clone(&self) -> (r: Self)
        ensures
            r@ == self@,
    {
        proof {
            use_type_invariant(self);
        }
        ClientId { id: self.id.clone() }
    }
}

impl ClientId {
    #[verifier::type_invariant]
    spec fn valid(self) -> bool {
        client_id_accepted(self.id@)
    }

    /// Reads a light client identifier. Succeeds exactly on the texts that the
    /// validation accepts, and keeps the text as it is.
    pub fn from_str(s: &str) -> (r: Result<ClientId, Error>)
        ensures
            r is Ok <==> client_id_accepted(s@),
            r matches Ok(id) ==> id@ == s@,
            r matches Err(e) ==> e is InvalidIdentifier,
    {
        if ibc_accepts_client_id(s) {
            Ok(ClientId { id: s.to_owned() })
        } else {
            Err(Error::InvalidIdentifier)
        }
    }

    /// The text of the identifier, which the validation accepts.
    pub fn as_str(&self) -> (r: &str)
        ensures
            r@ == self@,
            client_id_accepted(r@),
    {
        proof {
            use_type_invariant(self);
        }
        self.id.as_str()
    }
}

/// The identifier of a connection.
#[derive(Debug, PartialEq, Eq)]
pub struct ConnectionId {
    id: String,
}

impl View for ConnectionId {
    type V = Seq<char>;

    closed spec fn view(&self) -> Seq<char> {
        self.id@
    }
}

impl Clone for ConnectionId {
    fn clone(&self) -> (r: Self)
        ensures
            r@ == self@,
    {
        proof {
            use_type_invariant(self);
        }
        ConnectionId { id: self.id.clone() }
    }
}

impl ConnectionId {
    #[verifier::type_invariant]
    spec fn valid(self) -> bool {
        connection_id_accepted(self.id@)
    }

    /// Reads a connection identifier. Succeeds exactly on the texts that the
    /// validation accepts, and keeps the text as it is.
    pub fn from_str(s: &str) -> (r: Result<ConnectionId, Error>)
        ensures
            r is Ok <==> connection_id_accepted(s@),
            r matches Ok(id) ==> id@ == s@,
            r matches Err(e) ==> e is InvalidIdentifier,
    {
        if ibc_accepts_connection_id(s) {
            Ok(ConnectionId { id: s.to_owned() })
        } else {
            Err(Error::InvalidIdentifier)
        }
    }

    /// The text of the identifier, which the validation accepts.
    pub fn as_str(&self) -> (r: &str)
        ensures
            r@ == self@,
            connection_id_accepted(r@),
    {
        proof {
            use_type_invariant(self);
        }
        self.id.as_str()
    }
}

/// The identifier of a channel.
#[derive(Debug, PartialEq, Eq)]
pub struct ChannelId {
    id: String,
}

impl View for ChannelId {
    type V = Seq<char>;

    closed spec fn view(&self) -> Seq<char> {
        self.id@
    }
}

impl Clone for ChannelId {
    fn clone(&self) -> (r: Self)
        ensures
            r@ == self@,
    {
        proof {
            use_type_invariant(self);
        }
        ChannelId { id: self.id.clone() }
    }
}

impl ChannelId {
    #[verifier::type_invariant]
    spec fn valid(self) -> bool {
        channel_id_accepted(self.id@)
    }

    /// Reads a channel identifier. Succeeds exactly on the texts that the
    /// validation accepts, and keeps the text as it is.
    pub fn from_str(s: &str) -> (r: Result<ChannelId, Error>)
        ensures
            r is Ok <==> channel_id_accepted(s@),
            r matches Ok(id) ==> id@ == s@,
            r matches Err(e) ==> e is InvalidIdentifier,
    {
        if ibc_accepts_channel_id(s) {
            Ok(ChannelId { id: s.to_owned() })
        } else {
            Err(Error::InvalidIdentifier)
        }
    }

    /// The text of the identifier, which the validation accepts.
    pub fn as_str(&self) -> (r: &str)
        ensures
            r@ == self@,
            channel_id_accepted(r@),
    {
        proof {
            use_type_invariant(self);
        }
        self.id.as_str()
    }
}

/// The identifier of a port.
#[derive(Debug, PartialEq, Eq)]
pub struct PortId {
    id: String,
}

impl View for PortId {
    type V = Seq<char>;

    closed spec fn view(&self) -> Seq<char> {
        self.id@
    }
}

impl Clone for PortId {
    fn clone(&self) -> (r: Self)
        ensures
            r@ == self@,
    {
        proof {
            use_type_invariant(self);
        }
        PortId { id: self.id.clone() }
    }
}

impl PortId {
    #[verifier::type_invariant]
    spec fn valid(self) -> bool {
        port_id_accepted(self.id@)
    }

    /// Reads a port identifier. Succeeds exactly on the texts that the
    /// validation accepts, and keeps the text as it is.
    pub fn from_str(s: &str) -> (r: Result<PortId, Error>)
        ensures
            r is Ok <==> port_id_accepted(s@),
            r matches Ok(id) ==> id@ == s@,
            r matches Err(e) ==> e is InvalidIdentifier,
    {
        if ibc_accepts_port_id(s) {
            Ok(PortId { id: s.to_owned() })
        } else {
            Err(Error::InvalidIdentifier)
        }
    }

    /// The text of the identifier, which the validation accepts.
    pub fn as_str(&self) -> (r: &str)
        ensures
            r@ == self@,
            port_id_accepted(r@),
    {
        proof {
            use_type_invariant(self);
        }
        self.id.as_str()
    }
}

} // verus!
