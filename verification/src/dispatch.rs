//! What a decoded frame does: to the directory, to the counters, and to the
//! outside world.

use crate::codec::{port_class, user_decoding, PortClass};
use crate::error::{DispatchError, SessionError, SessionErrorView};
use crate::protobufs::{DataView, FromRadio, PacketPayload, RadioPayload, UserView, BROADCAST};
use crate::storage::StorageView;
use crate::utils::message_text;
use vstd::prelude::*;

verus! {

/// Something the caller is asked to do at once; none of it can hold the
/// bridge up, and a failure of any is the caller's to log.
#[derive(Debug, PartialEq, Eq)]
pub enum Effect {
    /// Send this text to the notification channel.
    Notify(String),
    /// Append the packet that was just handed in to the day's archive.
    Archive,
    /// Write the directory and the counters out anew.
    Persist,
    /// Log that a session failed, and tell the notification channel.
    Report(SessionError),
}

/// The mathematical value of an [`Effect`].
pub enum EffectView {
    Notify(Seq<char>),
    Archive,
    Persist,
    Report(SessionErrorView),
}

impl View for Effect {
    type V = EffectView;

    open spec fn view(&self) -> EffectView {
        match *self {
            Effect::Notify(text) => EffectView::Notify(text@),
            Effect::Archive => EffectView::Archive,
            Effect::Persist => EffectView::Persist,
            Effect::Report(error) => EffectView::Report(error@),
        }
    }
}

/// The values of a list of effects, in order.
pub open spec fn effect_views(effects: Seq<Effect>) -> Seq<EffectView> {
    Seq::new(effects.len(), |i: int| effects[i]@)
}

/// What the dispatch of one frame comes to: the storage afterwards, the
/// effects it asks for, and what went wrong, if anything did.
pub struct Dispatched {
    pub storage: StorageView,
    pub effects: Seq<EffectView>,
    pub fault: Option<DispatchError>,
}

/// What a dispatch hands back to its caller: the effects to bring about, in
/// this order, and what went wrong, if anything did. A fault takes nothing
/// back: the effects beside it are to be brought about all the same.
#[derive(Debug, PartialEq, Eq)]
pub struct Outcome {
    pub effects: Vec<Effect>,
    pub fault: Option<DispatchError>,
}

/// The mathematical value of an [`Outcome`].
pub struct OutcomeView {
    pub effects: Seq<EffectView>,
    pub fault: Option<DispatchError>,
}

impl View for Outcome {
    type V = OutcomeView;

    open spec fn view(&self) -> OutcomeView {
        OutcomeView { effects: effect_views(self.effects@), fault: self.fault }
    }
}

impl Dispatched {
    /// The part of a dispatch that is handed back.
    pub open spec fn outcome(self) -> OutcomeView {
        OutcomeView { effects: self.effects, fault: self.fault }
    }
}

/// The text relayed for a message: who sent it, what it says, and to whom.
pub open spec fn message_notice(sender: Seq<char>, text: Seq<char>, receiver: Seq<char>) -> Seq<
    char,
> {
    sender + " : "@ + text + " ("@ + receiver + ")"@
}

/// The payload brings a node record to be taken in: it came on the
/// node-record port, and a record was read out of it.
pub open spec fn brings_record(data: DataView, identity: Option<UserView>) -> bool {
    port_class(data.portnum) == PortClass::NodeInfoUpdate && identity is Some
}

/// The storage once the payload has been routed, before the event is
/// counted: a node record that the payload brings replaces the sender's
/// record, and nothing else changes anything.
pub open spec fn routed_storage(
    storage: StorageView,
    sender: u32,
    data: DataView,
    identity: Option<UserView>,
) -> StorageView {
    if brings_record(data, identity) {
        storage.upsert(sender, identity->0)
    } else {
        storage
    }
}

/// The effects of routing a payload: the packet is archived in any case,
/// and a text message is relayed under the names that the directory had
/// when the packet came in.
pub open spec fn routed_effects(
    storage: StorageView,
    sender: u32,
    receiver: u32,
    data: DataView,
) -> Seq<EffectView> {
    match port_class(data.portnum) {
        PortClass::TextMessage => seq![
            EffectView::Archive,
            EffectView::Notify(
                message_notice(
                    storage.display_name(sender),
                    message_text(data.payload),
                    storage.display_name(receiver),
                ),
            ),
        ],
        _ => seq![EffectView::Archive],
    }
}

/// What a decoded payload does. `identity` is the node record read out of
/// the payload; it counts only on the node-record port.
///
/// The payload is routed first, in every case: the packet is archived, a
/// text message is relayed, a node record is taken in. Then the event is
/// counted under the sender's name as the directory has it after the
/// routing, and the storage is written out. Where that counter is full, the
/// event is not counted and the fault is reported; what the routing did
/// stands, and a record that was taken in is written out.
pub open spec fn route_data(
    storage: StorageView,
    sender: u32,
    receiver: u32,
    data: DataView,
    identity: Option<UserView>,
    now: u64,
) -> Dispatched {
    let label = port_class(data.portnum).label_text();
    let routed = routed_storage(storage, sender, data, identity);
    let effects = routed_effects(storage, sender, receiver, data);
    if routed.stat_has_room(sender, label) {
        Dispatched {
            storage: routed.insert_stat(sender, label, now),
            effects: effects.push(EffectView::Persist),
            fault: None,
        }
    } else {
        Dispatched {
            storage: routed,
            effects: if brings_record(data, identity) {
                effects.push(EffectView::Persist)
            } else {
                effects
            },
            fault: Some(DispatchError::CounterFull),
        }
    }
}

/// A frame that does nothing.
pub open spec fn passed_over(storage: StorageView) -> Dispatched {
    Dispatched { storage, effects: Seq::empty(), fault: None }
}

/// What a frame does.
///
/// A node entry of the radio that carries a record replaces the record of
/// its node. A packet with a decoded payload is routed. An encrypted packet,
/// a packet without a body, and every other kind of frame do nothing.
pub open spec fn dispatch(storage: StorageView, from_radio: FromRadio, now: u64) -> Dispatched {
    match from_radio.payload_variant {
        Some(RadioPayload::NodeInfo(node_info)) => match node_info.user {
            Some(user) => Dispatched {
                storage: storage.upsert(node_info.num, user@),
                effects: seq![EffectView::Persist],
                fault: None,
            },
            None => passed_over(storage),
        },
        Some(RadioPayload::Packet(packet)) => match packet.payload_variant {
            Some(PacketPayload::Decoded(data)) => route_data(
                storage,
                packet.from,
                packet.to,
                data@,
                user_decoding(data.payload@),
                now,
            ),
            _ => passed_over(storage),
        },
        _ => passed_over(storage),
    }
}

/// A payload is routed whether or not its event can be counted: the
/// effects of the routing and the directory afterwards are the same with a
/// full counter as with an empty one. Only the count, the fault, and the
/// writing out of a storage that did not change depend on the counter.
pub proof fn lemma_routing_does_not_wait_for_the_count(
    storage: StorageView,
    sender: u32,
    receiver: u32,
    data: DataView,
    identity: Option<UserView>,
    now: u64,
)
    ensures
        ({
            let done = route_data(storage, sender, receiver, data, identity, now);
            let routed = routed_storage(storage, sender, data, identity);
            let effects = routed_effects(storage, sender, receiver, data);
            let key = routed.stat_key(sender, port_class(data.portnum).label_text());
            &&& done.storage.users == routed.users
            &&& effects.is_prefix_of(done.effects)
            &&& done.fault is None <==> routed.stat_has_room(sender, port_class(data.portnum).label_text())
            &&& done.fault is None ==> done.storage.stats == crate::stats::bumped(
                storage.stats,
                key,
                now,
            )
            &&& done.fault is Some ==> done.storage.stats == storage.stats
        }),
{
}

/// The broadcast address is never looked up: whatever record the directory
/// holds under that number, a frame asks for the same effects and leaves the
/// same counters, and the names of all other nodes are what they would be
/// without that record.
pub proof fn lemma_broadcast_record_is_never_read(
    storage: StorageView,
    record: UserView,
    from_radio: FromRadio,
    now: u64,
)
    ensures
        dispatch(storage.upsert(BROADCAST, record), from_radio, now).outcome() == dispatch(
            storage,
            from_radio,
            now,
        ).outcome(),
        dispatch(storage.upsert(BROADCAST, record), from_radio, now).storage.stats == dispatch(
            storage,
            from_radio,
            now,
        ).storage.stats,
        forall|address: u32|
            dispatch(storage.upsert(BROADCAST, record), from_radio, now).storage.display_name(
                address,
            ) == dispatch(storage, from_radio, now).storage.display_name(address),
{
}

/// The name of the archive file of a day.
pub open spec fn archive_name(day: Seq<char>) -> Seq<char> {
    "network."@ + day + ".cbor"@
}

/// The name of the file that holds the packets archived on `day`, which the
/// caller writes as year, month and day.
pub fn archive_file_name(day: &str) -> (r: String)
    ensures
        r@ == archive_name(day@),
{
    let mut name = String::from_str("network.");
    name.append(day);
    name.append(".cbor");
    name
}

} // verus!
