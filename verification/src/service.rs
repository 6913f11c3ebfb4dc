//! The connection to the radio: the state machine of the lifecycle at
//! work on a storage.

use crate::codec::{classify_port, decode_user, user_decoding, PortClass};
use crate::dispatch::{
    dispatch, effect_views, route_data, routed_effects, routed_storage, Effect, EffectView,
    Outcome,
};
use crate::error::{DispatchError, SessionError};
use crate::lifecycle::{Command, Event, Phase, PhaseView, ServiceView, Step, Timing};
use crate::protobufs::{
    user_view, Data, FromRadio, MeshPacket, PacketPayload, RadioPayload, User,
};
use crate::storage::Storage;
use crate::utils::text_of;
use vstd::prelude::*;

verus! {

fn no_effects() -> (r: Vec<Effect>)
    ensures
        effect_views(r@) == Seq::<EffectView>::empty(),
{
    let r: Vec<Effect> = Vec::new();
    assert(effect_views(r@) =~= Seq::<EffectView>::empty());
    r
}

fn passed_over() -> (r: Outcome)
    ensures
        r@.effects == Seq::<EffectView>::empty(),
        r.fault is None,
{
    Outcome { effects: no_effects(), fault: None }
}

fn one_effect(effect: Effect) -> (r: Vec<Effect>)
    ensures
        effect_views(r@) == seq![effect@],
{
    let mut r: Vec<Effect> = Vec::new();
    r.push(effect);
    assert(effect_views(r@) =~= seq![effect@]);
    r
}

/// The connection to one radio, with the storage that its frames update.
pub struct Service {
    storage: Storage,
    ble_device: String,
    timing: Timing,
    phase: Phase,
}

impl View for Service {
    type V = ServiceView;

    closed spec fn view(&self) -> ServiceView {
        ServiceView {
            storage: self.storage@,
            ble_device: self.ble_device@,
            timing: self.timing,
            phase: self.phase@,
        }
    }
}

impl Service {
    /// A service for the radio named `ble_device`, with the standard timing.
    /// It is idle until it is woken.
    pub fn new(storage: Storage, ble_device: String) -> (r: Service)
        ensures
            r@ == (ServiceView {
                storage: storage@,
                ble_device: ble_device@,
                timing: Timing::standard(),
                phase: PhaseView::Idle,
            }),
    {
        Service { storage, ble_device, timing: Timing::default(), phase: Phase::Idle }
    }

    /// A service with a timing of the caller's choice.
    pub fn with_timing(storage: Storage, ble_device: String, timing: Timing) -> (r: Service)
        ensures
            r@ == (ServiceView {
                storage: storage@,
                ble_device: ble_device@,
                timing,
                phase: PhaseView::Idle,
            }),
    {
        Service { storage, ble_device, timing, phase: Phase::Idle }
    }

    /// What the service remembers.
    pub fn storage(&self) -> (r: &Storage)
        ensures
            r@ == self@.storage,
    {
        &self.storage
    }

    /// Where the service stands.
    pub fn phase(&self) -> (r: &Phase)
        ensures
            r@ == self@.phase,
    {
        &self.phase
    }

    /// The command that the service waits on.
    pub fn pending(&self) -> (r: Command)
        ensures
            r@ == self@.pending(),
    {
        match &self.phase {
            Phase::Idle => Command::Sleep { secs: self.timing.retry_delay },
            Phase::Opening => Command::Open {
                device: self.ble_device.clone(),
                timeout: self.timing.open_timeout,
            },
            Phase::Configuring => Command::Configure,
            Phase::Listening { .. } => Command::Listen { tick: self.timing.tick },
            Phase::Closing { .. } => Command::Close,
            Phase::Terminated => Command::Stop,
        }
    }

    /// Takes an event in, and says what to do about it.
    ///
    /// The service moves on as the event bids: it opens, configures and
    /// listens; while it listens it dispatches each frame and adds up the
    /// silence between frames; it closes on a failure, on too long a
    /// silence and on a request to stop; and once closed it rests and
    /// starts over, unless it was asked to stop. An event that the phase
    /// does not wait for is passed over. The answer names the effects of the
    /// event and the command that the new phase waits on. No event, and no
    /// content of a frame, makes this function fail.
    pub fn run(&mut self, event: Event, now: u64) -> (r: Step)
        ensures
            final(self)@ == old(self)@.after(event, now),
            r@.effects == old(self)@.effects(event, now),
            r@.next == final(self)@.pending(),
    {
        let mut phase = Phase::Terminated;
        core::mem::swap(&mut self.phase, &mut phase);
        let mut effects = no_effects();
        let next_phase = match event {
            Event::Cancel => match phase {
                Phase::Configuring | Phase::Listening { .. } => Phase::Closing {
                    failure: None,
                    cancelled: true,
                },
                Phase::Closing { failure, .. } => Phase::Closing { failure, cancelled: true },
                _ => Phase::Terminated,
            },
            Event::Wake => match phase {
                Phase::Idle => {
                    let mut notice = String::from_str("Start get events from ");
                    notice.append(self.ble_device.as_str());
                    effects = one_effect(Effect::Notify(notice));
                    Phase::Opening
                },
                other => other,
            },
            Event::Opened => match phase {
                Phase::Opening => Phase::Configuring,
                other => other,
            },
            Event::OpenFailed(reason) => match phase {
                Phase::Opening => {
                    effects = one_effect(Effect::Report(SessionError::Connect(reason)));
                    Phase::Idle
                },
                other => other,
            },
            Event::Configured => match phase {
                Phase::Configuring => Phase::Listening { idle: 0 },
                other => other,
            },
            Event::ConfigureFailed(reason) => match phase {
                Phase::Configuring => Phase::Closing {
                    failure: Some(SessionError::Configure(reason)),
                    cancelled: false,
                },
                other => other,
            },
            Event::Received(from_radio) => match phase {
                Phase::Listening { .. } => {
                    let done = self.process(from_radio, now);
                    effects = done.effects;
                    match done.fault {
                        None => Phase::Listening { idle: 0 },
                        Some(error) => Phase::Closing {
                            failure: Some(SessionError::Dispatch(error)),
                            cancelled: false,
                        },
                    }
                },
                other => other,
            },
            Event::Tick => match phase {
                Phase::Listening { idle } => {
                    let limit: u64 = self.timing.idle_limit;
                    if idle >= limit || self.timing.tick >= limit - idle {
                        Phase::Closing {
                            failure: Some(SessionError::IdleTimeout(limit)),
                            cancelled: false,
                        }
                    } else {
                        Phase::Listening { idle: idle + self.timing.tick }
                    }
                },
                other => other,
            },
            Event::Closed => match phase {
                Phase::Closing { failure, cancelled } => {
                    if let Some(error) = failure {
                        effects = one_effect(Effect::Report(error));
                    }
                    if cancelled {
                        Phase::Terminated
                    } else {
                        Phase::Idle
                    }
                },
                other => other,
            },
        };
        self.phase = next_phase;
        let next = self.pending();
        Step { effects, next }
    }

    /// Routes a decoded payload, `identity` being the node record that was
    /// read out of it, if one was.
    ///
    /// The packet is to be archived. A text message is relayed with the
    /// names of its sender and receiver; a node record on the node-record
    /// port replaces the record of the sender; on every other port nothing
    /// more is done. Then the event is counted under the sender's name and
    /// the class of the port, and the storage is to be written out. Where
    /// that counter is full, the event is not counted and the fault is
    /// handed back beside the effects of the routing.
    pub fn route(
        &mut self,
        mesh_packet: &MeshPacket,
        data: &Data,
        identity: Option<User>,
        now: u64,
    ) -> (r: Outcome)
        ensures
            ({
                let done = route_data(
                    old(self)@.storage,
                    mesh_packet.from,
                    mesh_packet.to,
                    data@,
                    user_view(identity),
                    now,
                );
                &&& final(self)@ == (ServiceView { storage: done.storage, ..old(self)@ })
                &&& r@ == done.outcome()
            }),
    {
        let class = classify_port(data.portnum);
        let label = class.label();
        let ghost before = self@.storage;
        let ghost wanted = routed_effects(before, mesh_packet.from, mesh_packet.to, data@);
        let mut effects: Vec<Effect> = Vec::new();
        effects.push(Effect::Archive);
        if class == PortClass::TextMessage {
            let mut notice = self.storage.display_name(mesh_packet.from);
            let text = text_of(data.payload.clone());
            let receiver = self.storage.display_name(mesh_packet.to);
            notice.append(" : ");
            notice.append(text.as_str());
            notice.append(" (");
            notice.append(receiver.as_str());
            notice.append(")");
            effects.push(Effect::Notify(notice));
        }
        assert(effect_views(effects@) =~= wanted);
        let mut changed = false;
        if class == PortClass::NodeInfoUpdate {
            if let Some(user) = identity {
                self.storage.upsert(mesh_packet.from, user);
                changed = true;
            }
        }
        assert(self@.storage == routed_storage(
            before,
            mesh_packet.from,
            data@,
            user_view(identity),
        ));
        if self.storage.stat_has_room(mesh_packet, label) {
            self.storage.insert_stat(mesh_packet, label, now);
            effects.push(Effect::Persist);
            assert(effect_views(effects@) =~= wanted.push(EffectView::Persist));
            Outcome { effects, fault: None }
        } else {
            if changed {
                effects.push(Effect::Persist);
                assert(effect_views(effects@) =~= wanted.push(EffectView::Persist));
            }
            Outcome { effects, fault: Some(DispatchError::CounterFull) }
        }
    }

    /// Handles the decoded payload `data` of `mesh_packet`: archives the
    /// packet, relays a text message, takes in a node record, and counts the
    /// event.
    pub fn process_data(&mut self, mesh_packet: &MeshPacket, data: &Data, now: u64) -> (r: Outcome)
        ensures
            ({
                let done = route_data(
                    old(self)@.storage,
                    mesh_packet.from,
                    mesh_packet.to,
                    data@,
                    user_decoding(data.payload@),
                    now,
                );
                &&& final(self)@ == (ServiceView { storage: done.storage, ..old(self)@ })
                &&& r@ == done.outcome()
            }),
    {
        let identity = match classify_port(data.portnum) {
            PortClass::NodeInfoUpdate => decode_user(data.payload.as_slice()),
            _ => None,
        };
        self.route(mesh_packet, data, identity, now)
    }

    /// Dispatches one frame: a node entry of the radio that carries a record
    /// is entered in the directory, the decoded payload of a packet is
    /// handled as [`Service::process_data`] says, and an encrypted packet or
    /// any other frame is passed over.
    pub fn process(&mut self, from_radio: FromRadio, now: u64) -> (r: Outcome)
        ensures
            ({
                let done = dispatch(old(self)@.storage, from_radio, now);
                &&& final(self)@ == (ServiceView { storage: done.storage, ..old(self)@ })
                &&& r@ == done.outcome()
            }),
    {
        let Some(payload_variant) = from_radio.payload_variant else {
            return passed_over();
        };
        match payload_variant {
            RadioPayload::NodeInfo(node_info) => {
                if let Some(user) = node_info.user {
                    self.storage.upsert(node_info.num, user);
                    Outcome { effects: one_effect(Effect::Persist), fault: None }
                } else {
                    passed_over()
                }
            },
            RadioPayload::Packet(mesh_packet) => {
                match &mesh_packet.payload_variant {
                    Some(PacketPayload::Decoded(data)) => self.process_data(
                        &mesh_packet,
                        data,
                        now,
                    ),
                    _ => passed_over(),
                }
            },
            _ => passed_over(),
        }
    }
}

} // verus!
