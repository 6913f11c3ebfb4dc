//! The life of the connection to the radio, as a state machine.
//!
//! The machine does not wait. Whoever drives it carries out the command
//! that the machine last gave, and reports what came of it as an [`Event`];
//! the machine answers with the effects to bring about at once and with the
//! next command. This module holds the states, the events, the commands,
//! the transition itself, and what holds of every run of it.

use crate::dispatch::{dispatch, effect_views, Dispatched, Effect, EffectView};
use crate::error::{failure_view, SessionError, SessionErrorView};
use crate::protobufs::FromRadio;
use crate::storage::StorageView;
use vstd::prelude::*;

verus! {

/// The spans of time, in seconds, that govern a session.
#[derive(Clone, Copy, Debug, PartialEq, Eq, Structural)]
pub struct Timing {
    /// How long the transport may take to open.
    pub open_timeout: u64,
    /// How long to wait for a frame before the silence is added up.
    pub tick: u64,
    /// How much silence ends the session.
    pub idle_limit: u64,
    /// How long to rest after a failed session.
    pub retry_delay: u64,
}

impl Timing {
    /// Five seconds to open, a tick of ten seconds, five minutes of silence
    /// at most, five seconds of rest.
    pub open spec fn standard() -> Timing {
        Timing { open_timeout: 5, tick: 10, idle_limit: 300, retry_delay: 5 }
    }
}

impl Default for Timing {
    fn default() -> (r: Timing)
        ensures
            r == Timing::standard(),
    {
        Timing { open_timeout: 5, tick: 10, idle_limit: 300, retry_delay: 5 }
    }
}

/// Where a service stands.
#[derive(Debug, PartialEq, Eq)]
pub enum Phase {
    /// Between sessions: at rest, or not yet started.
    Idle,
    /// Waiting for the transport to open.
    Opening,
    /// Waiting for the radio to acknowledge the configuration.
    Configuring,
    /// Waiting for frames; `idle` is the silence added up so far.
    Listening { idle: u64 },
    /// Waiting for the transport to be released. `failure` is why the
    /// session ends, if it failed; `cancelled` says that no other is to
    /// follow.
    Closing { failure: Option<SessionError>, cancelled: bool },
    /// Over for good.
    Terminated,
}

/// The mathematical value of a [`Phase`].
pub enum PhaseView {
    Idle,
    Opening,
    Configuring,
    Listening { idle: u64 },
    Closing { failure: Option<SessionErrorView>, cancelled: bool },
    Terminated,
}

impl View for Phase {
    type V = PhaseView;

    open spec fn view(&self) -> PhaseView {
        match *self {
            Phase::Idle => PhaseView::Idle,
            Phase::Opening => PhaseView::Opening,
            Phase::Configuring => PhaseView::Configuring,
            Phase::Listening { idle } => PhaseView::Listening { idle },
            Phase::Closing { failure, cancelled } => PhaseView::Closing {
                failure: failure_view(failure),
                cancelled,
            },
            Phase::Terminated => PhaseView::Terminated,
        }
    }
}

/// What the caller reports to the service.
#[derive(Debug, PartialEq, Eq)]
pub enum Event {
    /// It is time to open a session: at the start, or when the rest is over.
    Wake,
    /// The transport is open.
    Opened,
    /// The transport did not open; with the transport's words.
    OpenFailed(String),
    /// The radio acknowledged the configuration.
    Configured,
    /// The radio did not acknowledge it; with the transport's words.
    ConfigureFailed(String),
    /// A frame came in.
    Received(FromRadio),
    /// A tick went by without a frame.
    Tick,
    /// The transport is released.
    Closed,
    /// The bridge is asked to stop.
    Cancel,
}

/// What the caller is to do next, and report on when it is done.
#[derive(Debug, PartialEq, Eq)]
pub enum Command {
    /// Open the transport to `device` within `timeout` seconds; then report
    /// `Opened` or `OpenFailed`.
    Open { device: String, timeout: u64 },
    /// Send a fresh session id and await the acknowledgment; then report
    /// `Configured` or `ConfigureFailed`.
    Configure,
    /// Wait for a frame for `tick` seconds; then report `Received` or `Tick`.
    Listen { tick: u64 },
    /// Release the transport; then report `Closed`.
    Close,
    /// Rest for `secs` seconds; then report `Wake`.
    Sleep { secs: u64 },
    /// Nothing more: the service is over.
    Stop,
}

/// The mathematical value of a [`Command`].
pub enum CommandView {
    Open { device: Seq<char>, timeout: u64 },
    Configure,
    Listen { tick: u64 },
    Close,
    Sleep { secs: u64 },
    Stop,
}

impl View for Command {
    type V = CommandView;

    open spec fn view(&self) -> CommandView {
        match *self {
            Command::Open { device, timeout } => CommandView::Open { device: device@, timeout },
            Command::Configure => CommandView::Configure,
            Command::Listen { tick } => CommandView::Listen { tick },
            Command::Close => CommandView::Close,
            Command::Sleep { secs } => CommandView::Sleep { secs },
            Command::Stop => CommandView::Stop,
        }
    }
}

/// The answer of the service to an event.
#[derive(Debug, PartialEq, Eq)]
pub struct Step {
    /// To bring about at once, in this order.
    pub effects: Vec<Effect>,
    /// To carry out then, with `Cancel` reported in its stead as soon as the
    /// bridge is asked to stop.
    pub next: Command,
}

/// The mathematical value of a [`Step`].
pub struct StepView {
    pub effects: Seq<EffectView>,
    pub next: CommandView,
}

impl View for Step {
    type V = StepView;

    open spec fn view(&self) -> StepView {
        StepView { effects: effect_views(self.effects@), next: self.next@ }
    }
}

/// The mathematical value of a service: what it remembers, the radio it is
/// for, its timing, and where it stands.
pub struct ServiceView {
    pub storage: StorageView,
    pub ble_device: Seq<char>,
    pub timing: Timing,
    pub phase: PhaseView,
}

/// Where a phase goes when the bridge is asked to stop. With no transport
/// to release the service is over at once; else the transport is released
/// first, and whatever failure was on record stays on record.
pub open spec fn cancelled_phase(phase: PhaseView) -> PhaseView {
    match phase {
        PhaseView::Configuring | PhaseView::Listening { .. } => PhaseView::Closing {
            failure: None,
            cancelled: true,
        },
        PhaseView::Closing { failure, .. } => PhaseView::Closing { failure, cancelled: true },
        _ => PhaseView::Terminated,
    }
}

/// Where a service goes once a session is over.
pub open spec fn resting_phase(cancelled: bool) -> PhaseView {
    if cancelled {
        PhaseView::Terminated
    } else {
        PhaseView::Idle
    }
}

/// The report of a failure, if there was one.
pub open spec fn report_of(failure: Option<SessionErrorView>) -> Seq<EffectView> {
    match failure {
        Some(error) => seq![EffectView::Report(error)],
        None => Seq::empty(),
    }
}

/// The text that announces a new session with `device`.
pub open spec fn start_notice(device: Seq<char>) -> Seq<char> {
    "Start get events from "@ + device
}

impl ServiceView {
    /// The same service in another phase.
    pub open spec fn at(self, phase: PhaseView) -> ServiceView {
        ServiceView { phase, ..self }
    }

    /// The command that the service waits on in its phase.
    pub open spec fn pending(self) -> CommandView {
        match self.phase {
            PhaseView::Idle => CommandView::Sleep { secs: self.timing.retry_delay },
            PhaseView::Opening => CommandView::Open {
                device: self.ble_device,
                timeout: self.timing.open_timeout,
            },
            PhaseView::Configuring => CommandView::Configure,
            PhaseView::Listening { .. } => CommandView::Listen { tick: self.timing.tick },
            PhaseView::Closing { .. } => CommandView::Close,
            PhaseView::Terminated => CommandView::Stop,
        }
    }

    /// The service after a tick of silence while it listens, `idle` being
    /// the silence so far: the tick is added, and a sum that reaches the
    /// limit ends the session.
    pub open spec fn ticked(self, idle: u64) -> ServiceView {
        if idle + self.timing.tick >= self.timing.idle_limit {
            self.at(
                PhaseView::Closing {
                    failure: Some(SessionErrorView::IdleTimeout(self.timing.idle_limit)),
                    cancelled: false,
                },
            )
        } else {
            self.at(PhaseView::Listening { idle: (idle + self.timing.tick) as u64 })
        }
    }

    /// The service after a frame was dispatched while it listens: the
    /// silence is over, unless the dispatch met a fault, which ends the
    /// session. What the dispatch did to the storage stands either way.
    pub open spec fn heard(self, done: Dispatched) -> ServiceView {
        match done.fault {
            None => ServiceView {
                storage: done.storage,
                phase: PhaseView::Listening { idle: 0 },
                ..self
            },
            Some(error) => ServiceView {
                storage: done.storage,
                phase: PhaseView::Closing {
                    failure: Some(SessionErrorView::Dispatch(error)),
                    cancelled: false,
                },
                ..self
            },
        }
    }

    /// The service after an event. An event that the phase does not wait
    /// for changes nothing.
    pub open spec fn after(self, event: Event, now: u64) -> ServiceView {
        match (self.phase, event) {
            (_, Event::Cancel) => self.at(cancelled_phase(self.phase)),
            (PhaseView::Idle, Event::Wake) => self.at(PhaseView::Opening),
            (PhaseView::Opening, Event::Opened) => self.at(PhaseView::Configuring),
            (PhaseView::Opening, Event::OpenFailed(_)) => self.at(PhaseView::Idle),
            (PhaseView::Configuring, Event::Configured) => self.at(
                PhaseView::Listening { idle: 0 },
            ),
            (PhaseView::Configuring, Event::ConfigureFailed(reason)) => self.at(
                PhaseView::Closing {
                    failure: Some(SessionErrorView::Configure(reason@)),
                    cancelled: false,
                },
            ),
            (PhaseView::Listening { .. }, Event::Received(frame)) => self.heard(
                dispatch(self.storage, frame, now),
            ),
            (PhaseView::Listening { idle }, Event::Tick) => self.ticked(idle),
            (PhaseView::Closing { cancelled, .. }, Event::Closed) => self.at(
                resting_phase(cancelled),
            ),
            _ => self,
        }
    }

    /// The effects that an event asks for.
    pub open spec fn effects(self, event: Event, now: u64) -> Seq<EffectView> {
        match (self.phase, event) {
            (_, Event::Cancel) => Seq::empty(),
            (PhaseView::Idle, Event::Wake) => seq![
                EffectView::Notify(start_notice(self.ble_device)),
            ],
            (PhaseView::Opening, Event::OpenFailed(reason)) => seq![
                EffectView::Report(SessionErrorView::Connect(reason@)),
            ],
            (PhaseView::Listening { .. }, Event::Received(frame)) => dispatch(
                self.storage,
                frame,
                now,
            ).effects,
            (PhaseView::Closing { failure, .. }, Event::Closed) => report_of(failure),
            _ => Seq::empty(),
        }
    }
}

impl ServiceView {
    /// The service after `n` ticks of silence in a row.
    pub open spec fn after_ticks(self, n: nat) -> ServiceView
        decreases n,
    {
        if n == 0 {
            self
        } else {
            self.after_ticks((n - 1) as nat).after(Event::Tick, 0)
        }
    }

    /// The service after a run of events, each at the time given with it.
    pub open spec fn after_all(self, events: Seq<(Event, u64)>) -> ServiceView
        decreases events.len(),
    {
        if events.len() == 0 {
            self
        } else {
            self.after_all(events.drop_last()).after(events.last().0, events.last().1)
        }
    }
}

/// The bridge was asked to stop, and the service is on its way out: it is
/// over, or it releases the transport and knows that no session follows.
pub open spec fn winding_down(phase: PhaseView) -> bool {
    match phase {
        PhaseView::Terminated => true,
        PhaseView::Closing { cancelled, .. } => cancelled,
        _ => false,
    }
}

/// A frame that is dispatched without a fault while the service listens ends
/// the silence:
/// the sum of idle time is back at zero, whatever it was.
pub proof fn lemma_frame_ends_silence(service: ServiceView, from_radio: FromRadio, now: u64)
    requires
        service.phase is Listening,
        dispatch(service.storage, from_radio, now).fault is None,
    ensures
        service.after(Event::Received(from_radio), now).phase == (PhaseView::Listening {
            idle: 0,
        }),
{
}

/// Silence adds up tick by tick. From the start of listening, as long as
/// the ticks together stay under the limit the service listens on, with
/// their sum on record; the tick that reaches the limit ends the session
/// with an idle timeout; and further ticks change nothing, so that one
/// session times out once.
pub proof fn lemma_silence_adds_up(service: ServiceView, n: nat)
    requires
        service.phase == (PhaseView::Listening { idle: 0 }),
        service.timing.tick > 0,
    ensures
        n * service.timing.tick < service.timing.idle_limit ==> service.after_ticks(n)
            == service.at(PhaseView::Listening { idle: (n * service.timing.tick) as u64 }),
        n > 0 && n * service.timing.tick >= service.timing.idle_limit ==> service.after_ticks(n)
            == service.at(
            PhaseView::Closing {
                failure: Some(SessionErrorView::IdleTimeout(service.timing.idle_limit)),
                cancelled: false,
            },
        ),
    decreases n,
{
    let tick: int = service.timing.tick as int;
    assert(service.at(PhaseView::Listening { idle: 0 }) == service);
    if n > 0 {
        lemma_silence_adds_up(service, (n - 1) as nat);
        assert((n - 1) * tick + tick == n * tick) by (nonlinear_arith);
        assert((n - 1) * tick >= 0) by (nonlinear_arith)
            requires
                n >= 1,
                tick > 0,
        ;
        if n == 1 {
            assert(service.after_ticks(0) == service);
        }
    } else {
        assert(0 * tick == 0) by (nonlinear_arith);
    }
}

/// With the standard timing, thirty ticks of ten seconds end a session, and
/// no fewer do.
pub proof fn lemma_standard_idle_timeout(service: ServiceView, n: nat)
    requires
        service.phase == (PhaseView::Listening { idle: 0 }),
        service.timing == Timing::standard(),
    ensures
        n < 30 ==> service.after_ticks(n) == service.at(
            PhaseView::Listening { idle: (10 * n) as u64 },
        ),
        n >= 30 ==> service.after_ticks(n) == service.at(
            PhaseView::Closing {
                failure: Some(SessionErrorView::IdleTimeout(300)),
                cancelled: false,
            },
        ),
{
    lemma_silence_adds_up(service, n);
    assert(n * 10 == 10 * n);
}

/// A tick asks for nothing, in any phase.
pub proof fn lemma_ticks_are_silent(service: ServiceView, now: u64)
    ensures
        service.effects(Event::Tick, now) == Seq::<EffectView>::empty(),
        service.after(Event::Tick, now).storage == service.storage,
{
}

/// Whatever changes the storage asks for it to be written out, as the last
/// of its effects; and only a frame that comes in while the service listens
/// changes the storage.
pub proof fn lemma_changes_are_persisted(service: ServiceView, event: Event, now: u64)
    requires
        service.after(event, now).storage != service.storage,
    ensures
        service.phase is Listening,
        event is Received,
        service.effects(event, now).len() > 0,
        service.effects(event, now).last() == EffectView::Persist,
{
}

/// Nothing is forgotten: no event takes a node out of the directory or a
/// key out of the counters, and no count ever goes down.
pub proof fn lemma_nothing_is_forgotten(service: ServiceView, event: Event, now: u64)
    ensures
        forall|id: u32|
            service.storage.users.contains_key(id) ==> service.after(
                event,
                now,
            ).storage.users.contains_key(id),
        forall|key: Seq<char>|
            service.storage.stats.contains_key(key) ==> service.after(
                event,
                now,
            ).storage.stats.contains_key(key) && service.after(event, now).storage.stats[key].count
                >= service.storage.stats[key].count,
{
}

/// A failure never ends the service: it is reported once, the service
/// rests for the length of the retry delay, and a wake-up opens the next
/// session. This holds for a transport that fails to open, and for a session
/// that fails for whatever reason once its transport is released.
pub proof fn lemma_failures_are_retried(
    service: ServiceView,
    failure: SessionErrorView,
    reason: String,
    now: u64,
)
    ensures
        service.phase is Opening ==> {
            let failed = service.after(Event::OpenFailed(reason), now);
            &&& failed.phase is Idle
            &&& failed.pending() == (CommandView::Sleep { secs: service.timing.retry_delay })
            &&& service.effects(Event::OpenFailed(reason), now) == seq![
                EffectView::Report(SessionErrorView::Connect(reason@)),
            ]
        },
        service.phase == (PhaseView::Closing { failure: Some(failure), cancelled: false }) ==> {
            let closed = service.after(Event::Closed, now);
            &&& closed.phase is Idle
            &&& closed.pending() == (CommandView::Sleep { secs: service.timing.retry_delay })
            &&& service.effects(Event::Closed, now) == seq![EffectView::Report(failure)]
        },
        service.phase is Idle ==> {
            let woken = service.after(Event::Wake, now);
            &&& woken.phase is Opening
            &&& woken.pending() == (CommandView::Open {
                device: service.ble_device,
                timeout: service.timing.open_timeout,
            })
        },
{
}

/// Only a request to stop ends the service: no other event puts a service
/// on its way out, so that no run of failures, however long, is the end.
pub proof fn lemma_only_cancel_ends_the_service(service: ServiceView, events: Seq<(Event, u64)>)
    requires
        !winding_down(service.phase),
        forall|i: int| 0 <= i < events.len() ==> !((#[trigger] events[i]).0 is Cancel),
    ensures
        !winding_down(service.after_all(events).phase),
        !(service.after_all(events).pending() is Stop),
    decreases events.len(),
{
    if events.len() > 0 {
        let front = events.drop_last();
        assert forall|i: int| 0 <= i < front.len() implies !((#[trigger] front[i]).0
            is Cancel) by {
            assert(front[i] == events[i]);
        }
        lemma_only_cancel_ends_the_service(service, front);
        assert(!(events[events.len() - 1].0 is Cancel));
    }
}

/// A request to stop is final. It asks for nothing but the release of the
/// transport: from then on the service is on its way out whatever is
/// reported to it, and every command it gives is `Close` or `Stop`, never
/// again `Open` or `Sleep`. A service that listens is over as soon as the
/// transport is released. To ask twice is to ask once.
pub proof fn lemma_cancel_is_final(service: ServiceView, event: Event, now: u64)
    ensures
        winding_down(service.after(Event::Cancel, now).phase),
        service.effects(Event::Cancel, now) == Seq::<EffectView>::empty(),
        service.after(Event::Cancel, now).storage == service.storage,
        winding_down(service.phase) ==> winding_down(service.after(event, now).phase),
        winding_down(service.phase) ==> service.pending() is Close || service.pending() is Stop,
        service.phase is Listening ==> service.after(Event::Cancel, now).pending() is Close
            && service.after(Event::Cancel, now).after(Event::Closed, now).phase
            is Terminated,
        service.after(Event::Cancel, now).after(Event::Cancel, now) == service.after(
            Event::Cancel,
            now,
        ),
{
}

/// Once the bridge was asked to stop, no run of events brings a new
/// session about.
pub proof fn lemma_no_session_after_cancel(service: ServiceView, events: Seq<(Event, u64)>)
    requires
        winding_down(service.phase),
    ensures
        winding_down(service.after_all(events).phase),
        service.after_all(events).pending() is Close || service.after_all(events).pending()
            is Stop,
        service.after_all(events).storage == service.storage,
    decreases events.len(),
{
    if events.len() > 0 {
        lemma_no_session_after_cancel(service, events.drop_last());
        lemma_cancel_is_final(
            service.after_all(events.drop_last()),
            events.last().0,
            events.last().1,
        );
    }
}

} // verus!
