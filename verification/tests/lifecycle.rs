use mbbs::dispatch::Effect;
use mbbs::error::{DispatchError, SessionError};
use mbbs::protobufs::{Data, FromRadio, MeshPacket, PacketPayload, RadioPayload};
use mbbs::lifecycle::{Command, Event, Phase, Step, Timing};
use mbbs::service::Service;
use mbbs::snapshot::Snapshot;
use mbbs::stats::StatEntry;
use mbbs::storage::Storage;

fn fresh() -> Service {
    Service::new(Storage::new(), "radio".to_string())
}

fn listening() -> Service {
    let mut service = fresh();
    service.run(Event::Wake, 0);
    service.run(Event::Opened, 0);
    service.run(Event::Configured, 0);
    service
}

fn text_frame(from: u32) -> FromRadio {
    FromRadio {
        id: 1,
        payload_variant: Some(RadioPayload::Packet(MeshPacket {
            from,
            to: 0xffff_ffff,
            payload_variant: Some(PacketPayload::Decoded(Data {
                portnum: 1,
                payload: b"hi".to_vec(),
                want_response: false,
                dest: 0,
                source: 0,
                request_id: 0,
                reply_id: 0,
                emoji: 0,
                bitfield: None,
            })),
        })),
    }
}

fn quiet(next: Command) -> Step {
    Step { effects: Vec::new(), next }
}

#[test]
fn standard_timing() {
    assert_eq!(
        Timing::default(),
        Timing { open_timeout: 5, tick: 10, idle_limit: 300, retry_delay: 5 }
    );
}

#[test]
fn a_new_service_is_idle() {
    let service = fresh();
    assert_eq!(service.phase(), &Phase::Idle);
    assert_eq!(service.pending(), Command::Sleep { secs: 5 });
}

#[test]
fn a_session_opens_configures_and_listens() {
    let mut service = fresh();
    let step = service.run(Event::Wake, 0);
    assert_eq!(
        step,
        Step {
            effects: vec![Effect::Notify("Start get events from radio".to_string())],
            next: Command::Open { device: "radio".to_string(), timeout: 5 },
        }
    );
    assert_eq!(service.phase(), &Phase::Opening);
    let step = service.run(Event::Opened, 0);
    assert_eq!(step, quiet(Command::Configure));
    assert_eq!(service.phase(), &Phase::Configuring);
    let step = service.run(Event::Configured, 0);
    assert_eq!(step, quiet(Command::Listen { tick: 10 }));
    assert_eq!(service.phase(), &Phase::Listening { idle: 0 });
}

#[test]
fn thirty_silent_ticks_end_the_session_once() {
    let mut service = listening();
    for n in 1..30u64 {
        let step = service.run(Event::Tick, 0);
        assert_eq!(step, quiet(Command::Listen { tick: 10 }));
        assert_eq!(service.phase(), &Phase::Listening { idle: 10 * n });
    }
    let step = service.run(Event::Tick, 0);
    assert_eq!(step, quiet(Command::Close));
    assert_eq!(
        service.phase(),
        &Phase::Closing { failure: Some(SessionError::IdleTimeout(300)), cancelled: false }
    );
    let step = service.run(Event::Tick, 0);
    assert_eq!(step, quiet(Command::Close));
    assert_eq!(
        service.phase(),
        &Phase::Closing { failure: Some(SessionError::IdleTimeout(300)), cancelled: false }
    );
    let step = service.run(Event::Closed, 0);
    assert_eq!(
        step,
        Step {
            effects: vec![Effect::Report(SessionError::IdleTimeout(300))],
            next: Command::Sleep { secs: 5 },
        }
    );
    assert_eq!(service.phase(), &Phase::Idle);
    let step = service.run(Event::Tick, 0);
    assert_eq!(step, quiet(Command::Sleep { secs: 5 }));
    let step = service.run(Event::Wake, 0);
    assert_eq!(step.next, Command::Open { device: "radio".to_string(), timeout: 5 });
}

#[test]
fn a_frame_puts_the_idle_timeout_off() {
    let mut service = listening();
    for _ in 0..29 {
        service.run(Event::Tick, 0);
    }
    assert_eq!(service.phase(), &Phase::Listening { idle: 290 });
    service.run(Event::Received(text_frame(7)), 1);
    assert_eq!(service.phase(), &Phase::Listening { idle: 0 });
    for _ in 0..29 {
        service.run(Event::Tick, 0);
    }
    assert_eq!(service.phase(), &Phase::Listening { idle: 290 });
    let step = service.run(Event::Tick, 0);
    assert_eq!(step.next, Command::Close);
}

#[test]
fn timing_of_ones_own() {
    let timing = Timing { open_timeout: 1, tick: 7, idle_limit: 20, retry_delay: 2 };
    let mut service = Service::with_timing(Storage::new(), "r".to_string(), timing);
    assert_eq!(service.pending(), Command::Sleep { secs: 2 });
    let step = service.run(Event::Wake, 0);
    assert_eq!(step.next, Command::Open { device: "r".to_string(), timeout: 1 });
    service.run(Event::Opened, 0);
    let step = service.run(Event::Configured, 0);
    assert_eq!(step.next, Command::Listen { tick: 7 });
    service.run(Event::Tick, 0);
    service.run(Event::Tick, 0);
    assert_eq!(service.phase(), &Phase::Listening { idle: 14 });
    service.run(Event::Tick, 0);
    assert_eq!(
        service.phase(),
        &Phase::Closing { failure: Some(SessionError::IdleTimeout(20)), cancelled: false }
    );
}

#[test]
fn extreme_timing_does_not_overflow() {
    let timing =
        Timing { open_timeout: 0, tick: u64::MAX, idle_limit: u64::MAX, retry_delay: 0 };
    let mut service = Service::with_timing(Storage::new(), "r".to_string(), timing);
    service.run(Event::Wake, 0);
    service.run(Event::Opened, 0);
    service.run(Event::Configured, 0);
    service.run(Event::Tick, 0);
    assert_eq!(
        service.phase(),
        &Phase::Closing { failure: Some(SessionError::IdleTimeout(u64::MAX)), cancelled: false }
    );
    let timing = Timing { open_timeout: 0, tick: 0, idle_limit: 0, retry_delay: 0 };
    let mut service = Service::with_timing(Storage::new(), "r".to_string(), timing);
    service.run(Event::Wake, 0);
    service.run(Event::Opened, 0);
    service.run(Event::Configured, 0);
    service.run(Event::Tick, 0);
    assert_eq!(
        service.phase(),
        &Phase::Closing { failure: Some(SessionError::IdleTimeout(0)), cancelled: false }
    );
    let timing = Timing { open_timeout: 0, tick: 0, idle_limit: 1, retry_delay: 0 };
    let mut service = Service::with_timing(Storage::new(), "r".to_string(), timing);
    service.run(Event::Wake, 0);
    service.run(Event::Opened, 0);
    service.run(Event::Configured, 0);
    service.run(Event::Tick, 0);
    assert_eq!(service.phase(), &Phase::Listening { idle: 0 });
}

#[test]
fn a_failed_open_is_reported_and_retried() {
    let mut service = fresh();
    service.run(Event::Wake, 0);
    let step = service.run(Event::OpenFailed("no such device".to_string()), 0);
    assert_eq!(
        step,
        Step {
            effects: vec![Effect::Report(SessionError::Connect("no such device".to_string()))],
            next: Command::Sleep { secs: 5 },
        }
    );
    assert_eq!(service.phase(), &Phase::Idle);
    let step = service.run(Event::Wake, 0);
    assert_eq!(step.next, Command::Open { device: "radio".to_string(), timeout: 5 });
}

#[test]
fn a_failed_configuration_closes_reports_and_retries() {
    let mut service = fresh();
    service.run(Event::Wake, 0);
    service.run(Event::Opened, 0);
    let step = service.run(Event::ConfigureFailed("no answer".to_string()), 0);
    assert_eq!(step, quiet(Command::Close));
    let step = service.run(Event::Closed, 0);
    assert_eq!(
        step,
        Step {
            effects: vec![Effect::Report(SessionError::Configure("no answer".to_string()))],
            next: Command::Sleep { secs: 5 },
        }
    );
    for _ in 0..3 {
        service.run(Event::Wake, 0);
        service.run(Event::Opened, 0);
        service.run(Event::ConfigureFailed("no answer".to_string()), 0);
        let step = service.run(Event::Closed, 0);
        assert_eq!(step.next, Command::Sleep { secs: 5 });
    }
}

#[test]
fn a_failed_dispatch_ends_the_session() {
    let snapshot = Snapshot {
        users: Vec::new(),
        stats: vec![("7:TextMessage".to_string(), StatEntry { count: u32::MAX, last_seen: 5 })],
    };
    let mut service = Service::new(Storage::load(Some(&snapshot)), "radio".to_string());
    service.run(Event::Wake, 0);
    service.run(Event::Opened, 0);
    service.run(Event::Configured, 0);
    let step = service.run(Event::Received(text_frame(7)), 6);
    assert_eq!(
        step,
        Step {
            effects: vec![
                Effect::Archive,
                Effect::Notify("7 : hi (BROADCAST)".to_string()),
            ],
            next: Command::Close,
        }
    );
    assert_eq!(
        service.phase(),
        &Phase::Closing {
            failure: Some(SessionError::Dispatch(DispatchError::CounterFull)),
            cancelled: false,
        }
    );
    let step = service.run(Event::Closed, 0);
    assert_eq!(
        step,
        Step {
            effects: vec![Effect::Report(SessionError::Dispatch(DispatchError::CounterFull))],
            next: Command::Sleep { secs: 5 },
        }
    );
}

#[test]
fn cancel_while_listening_closes_and_stops() {
    let mut service = listening();
    service.run(Event::Tick, 0);
    let step = service.run(Event::Cancel, 0);
    assert_eq!(step, quiet(Command::Close));
    assert_eq!(service.phase(), &Phase::Closing { failure: None, cancelled: true });
    let step = service.run(Event::Closed, 0);
    assert_eq!(step, quiet(Command::Stop));
    assert_eq!(service.phase(), &Phase::Terminated);
}

#[test]
fn cancel_without_a_transport_stops_at_once() {
    let mut service = fresh();
    assert_eq!(service.run(Event::Cancel, 0), quiet(Command::Stop));
    let mut service = fresh();
    service.run(Event::Wake, 0);
    assert_eq!(service.run(Event::Cancel, 0), quiet(Command::Stop));
    assert_eq!(service.phase(), &Phase::Terminated);
}

#[test]
fn cancel_while_configuring_releases_the_transport() {
    let mut service = fresh();
    service.run(Event::Wake, 0);
    service.run(Event::Opened, 0);
    assert_eq!(service.run(Event::Cancel, 0), quiet(Command::Close));
    assert_eq!(service.run(Event::Closed, 0), quiet(Command::Stop));
}

#[test]
fn cancel_during_the_rest_stops() {
    let mut service = fresh();
    service.run(Event::Wake, 0);
    service.run(Event::OpenFailed("x".to_string()), 0);
    assert_eq!(service.phase(), &Phase::Idle);
    assert_eq!(service.run(Event::Cancel, 0), quiet(Command::Stop));
}

#[test]
fn cancel_while_closing_after_a_failure_still_reports_it() {
    let mut service = fresh();
    service.run(Event::Wake, 0);
    service.run(Event::Opened, 0);
    service.run(Event::ConfigureFailed("no answer".to_string()), 0);
    assert_eq!(service.run(Event::Cancel, 0), quiet(Command::Close));
    let step = service.run(Event::Closed, 0);
    assert_eq!(
        step,
        Step {
            effects: vec![Effect::Report(SessionError::Configure("no answer".to_string()))],
            next: Command::Stop,
        }
    );
}

#[test]
fn nothing_revives_a_cancelled_service() {
    let mut service = listening();
    service.run(Event::Cancel, 0);
    let events = || {
        vec![
            Event::Wake,
            Event::Opened,
            Event::OpenFailed("x".to_string()),
            Event::Configured,
            Event::ConfigureFailed("x".to_string()),
            Event::Received(text_frame(7)),
            Event::Tick,
            Event::Cancel,
        ]
    };
    for event in events() {
        assert_eq!(service.run(event, 0), quiet(Command::Close));
    }
    assert_eq!(service.run(Event::Closed, 0), quiet(Command::Stop));
    for event in events() {
        assert_eq!(service.run(event, 0), quiet(Command::Stop));
    }
    assert_eq!(service.run(Event::Closed, 0), quiet(Command::Stop));
    assert_eq!(service.storage().save(), Storage::new().save());
}

#[test]
fn events_out_of_turn_change_nothing() {
    let mut service = fresh();
    for event in [Event::Opened, Event::Configured, Event::Tick, Event::Closed] {
        assert_eq!(service.run(event, 0), quiet(Command::Sleep { secs: 5 }));
        assert_eq!(service.phase(), &Phase::Idle);
    }
    assert_eq!(service.run(Event::Received(text_frame(7)), 0), quiet(Command::Sleep { secs: 5 }));
    assert_eq!(service.storage().stat("7:TextMessage"), None);
    service.run(Event::Wake, 0);
    for event in [Event::Wake, Event::Configured, Event::Tick, Event::Closed] {
        let step = service.run(event, 0);
        assert_eq!(step, quiet(Command::Open { device: "radio".to_string(), timeout: 5 }));
    }
    service.run(Event::Opened, 0);
    for event in [Event::Wake, Event::Opened, Event::Tick, Event::Closed] {
        assert_eq!(service.run(event, 0), quiet(Command::Configure));
    }
    service.run(Event::Configured, 0);
    for event in [Event::Wake, Event::Opened, Event::Configured, Event::Closed] {
        assert_eq!(service.run(event, 0), quiet(Command::Listen { tick: 10 }));
    }
    assert_eq!(
        service.run(Event::OpenFailed("late".to_string()), 0),
        quiet(Command::Listen { tick: 10 })
    );
}

#[test]
fn errors_in_words() {
    assert_eq!(SessionError::Connect("no such device".to_string()).message(), "no such device");
    assert_eq!(SessionError::Configure("no answer".to_string()).message(), "no answer");
    assert_eq!(
        SessionError::IdleTimeout(300).message(),
        "Idle for more than 300s, I'm going to reset"
    );
    assert_eq!(
        SessionError::Dispatch(DispatchError::CounterFull).message(),
        "A usage counter is full"
    );
    assert_eq!(
        SessionError::IdleTimeout(300).notice(),
        "⚠️ Error running service: Idle for more than 300s, I'm going to reset"
    );
    let error = SessionError::Connect("x".to_string());
    assert_eq!(error.clone(), error);
}
