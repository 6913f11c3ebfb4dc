//! The calls that decode what a packet carries.
//!
//! Port numbers and node records are defined by the protocol crate, and the
//! test for UTF-8 by std. Each is reached through one function of this
//! module, whose contract is taken on trust.

use crate::protobufs::{user_view, User, UserView};
use meshtastic::Message;
use vstd::prelude::*;
use vstd::utf8::*;

verus! {

/// What the bridge makes of a port number.
#[derive(Clone, Copy, Debug, PartialEq, Eq, Structural)]
pub enum PortClass {
    TextMessage,
    NodeInfoUpdate,
    RoutingInfo,
    Unknown,
}

impl PortClass {
    /// The word under which events of this class are counted.
    pub open spec fn label_text(self) -> Seq<char> {
        match self {
            PortClass::TextMessage => "TextMessage"@,
            PortClass::NodeInfoUpdate => "NodeInfoUpdate"@,
            PortClass::RoutingInfo => "RoutingInfo"@,
            PortClass::Unknown => "Unknown"@,
        }
    }

    /// The word under which events of this class are counted.
    pub fn label(&self) -> (r: &'static str)
        ensures
            r@ == self.label_text(),
    {
        match self {
            PortClass::TextMessage => "TextMessage",
            PortClass::NodeInfoUpdate => "NodeInfoUpdate",
            PortClass::RoutingInfo => "RoutingInfo",
            PortClass::Unknown => "Unknown",
        }
    }
}

/// The class of each port number: 1 carries text, 4 a node record, 5 routing
/// control; every other number, assigned or not, is of no interest here.
pub open spec fn port_class(portnum: i32) -> PortClass {
    if portnum == 1 {
        PortClass::TextMessage
    } else if portnum == 4 {
        PortClass::NodeInfoUpdate
    } else if portnum == 5 {
        PortClass::RoutingInfo
    } else {
        PortClass::Unknown
    }
}

/// Asks `PortNum::try_from` of the protocol crate which port a number names.
///
/// Trusted: that the crate numbers `TextMessageApp` 1, `NodeinfoApp` 4 and
/// `RoutingApp` 5, and that `try_from` gives the variant with the number it
/// is handed, or an error where no variant has it.
#[verifier::external_body]
pub(crate) fn classify_port(portnum: i32) -> (r: PortClass)
    ensures
        r == port_class(portnum),
{
    match meshtastic::protobufs::PortNum::try_from(portnum) {
        Ok(meshtastic::protobufs::PortNum::TextMessageApp) => PortClass::TextMessage,
        Ok(meshtastic::protobufs::PortNum::NodeinfoApp) => PortClass::NodeInfoUpdate,
        Ok(meshtastic::protobufs::PortNum::RoutingApp) => PortClass::RoutingInfo,
        _ => PortClass::Unknown,
    }
}

/// The node record that the protocol crate reads out of `payload`, or `None`
/// where it rejects the bytes. The wire format is the crate's business; the
/// bridge only relies on the same bytes giving the same record.
pub uninterp spec fn user_decoding(payload: Seq<u8>) -> Option<UserView>;

/// Decodes a node record with `User::decode` of the protocol crate.
///
/// Trusted: that the outcome depends on the bytes alone. Nothing is claimed
/// about which bytes are accepted or what they decode to.
#[verifier::external_body]
#[allow(deprecated)]
pub(crate) fn decode_user(payload: &[u8]) -> (r: Option<User>)
    ensures
        user_view(r) == user_decoding(payload@),
{
    match meshtastic::protobufs::User::decode(payload) {
        Ok(u) => Some(User {
            id: u.id,
            long_name: u.long_name,
            short_name: u.short_name,
            macaddr: u.macaddr,
            hw_model: u.hw_model,
            is_licensed: u.is_licensed,
            role: u.role,
            public_key: u.public_key,
            is_unmessagable: u.is_unmessagable,
        }),
        Err(_) => None,
    }
}

/// Turns bytes into a string with `String::from_utf8`.
///
/// Trusted: that std accepts exactly the well-formed UTF-8 sequences, and
/// that the string it returns is made of the bytes it was given.
#[verifier::external_body]
pub(crate) fn utf8_string(bytes: Vec<u8>) -> (r: Option<String>)
    ensures
        r is Some <==> valid_utf8(bytes@),
        r matches Some(s) ==> encode_utf8(s@) == bytes@,
{
    String::from_utf8(bytes).ok()
}

} // verus!
