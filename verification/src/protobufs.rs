//! Plain images of the decoded radio frames.
//!
//! The transport hands out `meshtastic::protobufs` messages. The bridge reads
//! only a few of their fields, so each message has an image here that holds
//! those fields as plain values; the caller copies them over, field by field,
//! before it asks the bridge for a decision.

use vstd::prelude::*;

verus! {

/// The destination address that stands for "every node".
pub const BROADCAST: u32 = 0xffff_ffff;

/// The number of a node on the mesh.
#[derive(Clone, Copy, Debug, PartialEq, Eq, Structural)]
pub struct NodeId(pub u32);

impl NodeId {
    pub fn new(id: u32) -> (r: NodeId)
        ensures
            r == NodeId(id),
    {
        NodeId(id)
    }

    pub fn id(&self) -> (r: u32)
        ensures
            r == self.0,
    {
        self.0
    }
}

/// What a node says of itself: the image of `protobufs::User`.
#[derive(Debug, PartialEq, Eq)]
pub struct User {
    pub id: String,
    pub long_name: String,
    pub short_name: String,
    pub macaddr: Vec<u8>,
    pub hw_model: i32,
    pub is_licensed: bool,
    pub role: i32,
    pub public_key: Vec<u8>,
    pub is_unmessagable: Option<bool>,
}

/// The mathematical value of a [`User`].
pub struct UserView {
    pub id: Seq<char>,
    pub long_name: Seq<char>,
    pub short_name: Seq<char>,
    pub macaddr: Seq<u8>,
    pub hw_model: i32,
    pub is_licensed: bool,
    pub role: i32,
    pub public_key: Seq<u8>,
    pub is_unmessagable: Option<bool>,
}

impl View for User {
    type V = UserView;

    open spec fn view(&self) -> UserView {
        UserView {
            id: self.id@,
            long_name: self.long_name@,
            short_name: self.short_name@,
            macaddr: self.macaddr@,
            hw_model: self.hw_model,
            is_licensed: self.is_licensed,
            role: self.role,
            public_key: self.public_key@,
            is_unmessagable: self.is_unmessagable,
        }
    }
}

impl Clone for User {
    fn clone(&self) -> (r: Self)
        ensures
            r@ == self@,
    {
        let macaddr = self.macaddr.clone();
        let public_key = self.public_key.clone();
        assert(macaddr@ =~= self.macaddr@);
        assert(public_key@ =~= self.public_key@);
        User {
            id: self.id.clone(),
            long_name: self.long_name.clone(),
            short_name: self.short_name.clone(),
            macaddr,
            hw_model: self.hw_model,
            is_licensed: self.is_licensed,
            role: self.role,
            public_key,
            is_unmessagable: self.is_unmessagable,
        }
    }
}

/// The view of an optional [`User`].
pub open spec fn user_view(user: Option<User>) -> Option<UserView> {
    match user {
        Some(u) => Some(u@),
        None => None,
    }
}

/// The application payload of a packet: the image of `protobufs::Data`.
#[derive(Debug, PartialEq, Eq)]
pub struct Data {
    pub portnum: i32,
    pub payload: Vec<u8>,
    pub want_response: bool,
    pub dest: u32,
    pub source: u32,
    pub request_id: u32,
    pub reply_id: u32,
    pub emoji: u32,
    pub bitfield: Option<u32>,
}

/// The mathematical value of a [`Data`].
pub struct DataView {
    pub portnum: i32,
    pub payload: Seq<u8>,
    pub want_response: bool,
    pub dest: u32,
    pub source: u32,
    pub request_id: u32,
    pub reply_id: u32,
    pub emoji: u32,
    pub bitfield: Option<u32>,
}

impl View for Data {
    type V = DataView;

    open spec fn view(&self) -> DataView {
        DataView {
            portnum: self.portnum,
            payload: self.payload@,
            want_response: self.want_response,
            dest: self.dest,
            source: self.source,
            request_id: self.request_id,
            reply_id: self.reply_id,
            emoji: self.emoji,
            bitfield: self.bitfield,
        }
    }
}

/// The body of a packet: the image of `mesh_packet::PayloadVariant`.
#[derive(Debug, PartialEq, Eq)]
pub enum PacketPayload {
    Decoded(Data),
    Encrypted(Vec<u8>),
}

/// A packet as it travelled over the mesh: the image of
/// `protobufs::MeshPacket`, with the sender, the destination and the body.
#[derive(Debug, PartialEq, Eq)]
pub struct MeshPacket {
    pub from: u32,
    pub to: u32,
    pub payload_variant: Option<PacketPayload>,
}

/// The radio's entry for one node: the image of `protobufs::NodeInfo`.
#[derive(Debug, PartialEq, Eq)]
pub struct NodeInfo {
    pub num: u32,
    pub user: Option<User>,
}

/// What the radio says of itself: the image of `protobufs::MyNodeInfo`.
#[derive(Clone, Copy, Debug, PartialEq, Eq, Structural)]
pub struct MyNodeInfo {
    pub my_node_num: u32,
    pub reboot_count: u32,
    pub min_app_version: u32,
    pub nodedb_count: u32,
}

/// The content of a frame: the image of `from_radio::PayloadVariant`.
/// `Other` stands for every kind of content that the bridge passes over.
#[derive(Debug, PartialEq, Eq)]
pub enum RadioPayload {
    Packet(MeshPacket),
    MyInfo(MyNodeInfo),
    NodeInfo(NodeInfo),
    Other,
}

/// One frame from the radio: the image of `protobufs::FromRadio`.
#[derive(Debug, PartialEq, Eq)]
pub struct FromRadio {
    pub id: u32,
    pub payload_variant: Option<RadioPayload>,
}

} // verus!
