//! A frame sorted by what it means to the bridge.

use crate::codec::{classify_port, decode_user, port_class, user_decoding, utf8_string, PortClass};
use crate::protobufs::{
    user_view, Data, DataView, FromRadio, MyNodeInfo, NodeId, PacketPayload, RadioPayload, User,
    UserView,
};
use vstd::prelude::*;
use vstd::std_specs::convert::FromSpecImpl;
use vstd::utf8::*;

verus! {

/// A frame from the radio, reduced to the cases that the bridge tells apart.
#[derive(Debug, PartialEq, Eq)]
pub enum RecievedPacket {
    ConnectionClosed,
    RoutingApp(Data),
    MyInfo(MyNodeInfo),
    NodeInfo(NodeId, User),
    TextMessage { from: NodeId, to: NodeId, msg: String },
    Other,
}

/// The mathematical value of a [`RecievedPacket`].
pub enum RecievedPacketView {
    ConnectionClosed,
    RoutingApp(DataView),
    MyInfo(MyNodeInfo),
    NodeInfo(NodeId, UserView),
    TextMessage { from: NodeId, to: NodeId, msg: Seq<char> },
    Other,
}

impl View for RecievedPacket {
    type V = RecievedPacketView;

    open spec fn view(&self) -> RecievedPacketView {
        match *self {
            RecievedPacket::ConnectionClosed => RecievedPacketView::ConnectionClosed,
            RecievedPacket::RoutingApp(data) => RecievedPacketView::RoutingApp(data@),
            RecievedPacket::MyInfo(info) => RecievedPacketView::MyInfo(info),
            RecievedPacket::NodeInfo(id, user) => RecievedPacketView::NodeInfo(id, user@),
            RecievedPacket::TextMessage { from, to, msg } => RecievedPacketView::TextMessage {
                from,
                to,
                msg: msg@,
            },
            RecievedPacket::Other => RecievedPacketView::Other,
        }
    }
}

/// The text of a message payload: the payload read as UTF-8, or a fixed
/// notice where it is not UTF-8.
pub open spec fn message_text(payload: Seq<u8>) -> Seq<char> {
    if valid_utf8(payload) {
        decode_utf8(payload)
    } else {
        "Non-utf8 msg"@
    }
}

/// What a decoded payload amounts to. `sender` and `receiver` are the nodes
/// that the packet names as its origin and its destination, and `identity`
/// is the node record read out of the payload, which counts only on the
/// node-record port. A text message is from the packet's sender to the
/// packet's receiver, whatever addresses the payload itself may carry.
pub open spec fn received_data(
    sender: u32,
    receiver: u32,
    data: DataView,
    identity: Option<UserView>,
) -> RecievedPacketView {
    match port_class(data.portnum) {
        PortClass::RoutingInfo => RecievedPacketView::RoutingApp(data),
        PortClass::TextMessage => RecievedPacketView::TextMessage {
            from: NodeId(sender),
            to: NodeId(receiver),
            msg: message_text(data.payload),
        },
        PortClass::NodeInfoUpdate => match identity {
            Some(user) => RecievedPacketView::NodeInfo(NodeId(sender), user),
            None => RecievedPacketView::Other,
        },
        PortClass::Unknown => RecievedPacketView::Other,
    }
}

/// What a frame amounts to; `None` is the end of the stream.
pub open spec fn received(from_radio: Option<FromRadio>) -> RecievedPacketView {
    match from_radio {
        None => RecievedPacketView::ConnectionClosed,
        Some(frame) => match frame.payload_variant {
            Some(RadioPayload::MyInfo(info)) => RecievedPacketView::MyInfo(info),
            Some(RadioPayload::NodeInfo(node_info)) => match node_info.user {
                Some(user) => RecievedPacketView::NodeInfo(NodeId(node_info.num), user@),
                None => RecievedPacketView::Other,
            },
            Some(RadioPayload::Packet(packet)) => match packet.payload_variant {
                Some(PacketPayload::Decoded(data)) => received_data(
                    packet.from,
                    packet.to,
                    data@,
                    user_decoding(data.payload@),
                ),
                _ => RecievedPacketView::Other,
            },
            _ => RecievedPacketView::Other,
        },
    }
}

/// Reads a message payload as text.
pub fn text_of(payload: Vec<u8>) -> (r: String)
    ensures
        r@ == message_text(payload@),
{
    match utf8_string(payload) {
        Some(text) => {
            proof {
                encode_utf8_decode_utf8(text@);
            }
            text
        },
        None => String::from_str("Non-utf8 msg"),
    }
}

impl RecievedPacket {
    /// Sorts the decoded payload of a packet from `sender` to `receiver`,
    /// given the node record that was read out of it (`None` where the bytes
    /// were rejected or never looked at).
    pub fn from_data(
        sender: u32,
        receiver: u32,
        data: Data,
        identity: Option<User>,
    ) -> (r: RecievedPacket)
        ensures
            r@ == received_data(sender, receiver, data@, user_view(identity)),
    {
        match classify_port(data.portnum) {
            PortClass::RoutingInfo => RecievedPacket::RoutingApp(data),
            PortClass::TextMessage => {
                let from = NodeId::new(sender);
                let to = NodeId::new(receiver);
                RecievedPacket::TextMessage { from, to, msg: text_of(data.payload) }
            },
            PortClass::NodeInfoUpdate => match identity {
                Some(user) => RecievedPacket::NodeInfo(NodeId::new(sender), user),
                None => RecievedPacket::Other,
            },
            PortClass::Unknown => RecievedPacket::Other,
        }
    }
}

impl From<Option<FromRadio>> for RecievedPacket {
    fn from(from_radio: Option<FromRadio>) -> (r: Self)
        ensures
            r@ == received(from_radio),
    {
        let Some(frame) = from_radio else {
            return RecievedPacket::ConnectionClosed;
        };
        let Some(payload) = frame.payload_variant else {
            return RecievedPacket::Other;
        };
        match payload {
            RadioPayload::MyInfo(info) => RecievedPacket::MyInfo(info),
            RadioPayload::NodeInfo(node_info) => match node_info.user {
                Some(user) => RecievedPacket::NodeInfo(NodeId::new(node_info.num), user),
                None => RecievedPacket::Other,
            },
            RadioPayload::Packet(packet) => {
                let Some(PacketPayload::Decoded(data)) = packet.payload_variant else {
                    return RecievedPacket::Other;
                };
                let identity = match classify_port(data.portnum) {
                    PortClass::NodeInfoUpdate => decode_user(data.payload.as_slice()),
                    _ => None,
                };
                RecievedPacket::from_data(packet.from, packet.to, data, identity)
            },
            RadioPayload::Other => RecievedPacket::Other,
        }
    }
}

/// `from` is specified by its own `ensures`, over views: a packet holds
/// strings, and its view does not settle which string values those are.
impl FromSpecImpl<Option<FromRadio>> for RecievedPacket {
    open spec fn obeys_from_spec() -> bool {
        false
    }

    open spec fn from_spec(from_radio: Option<FromRadio>) -> Self {
        arbitrary()
    }
}

} // verus!
