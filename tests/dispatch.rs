use naptime::dispatch::{AckKind, Acknowledgement, WorkerPhase, WorkerState, WorkerStep};
use naptime::message::{
    CAN_SYSTEM_SLEEP, SYSTEM_HAS_POWERED_ON, SYSTEM_WILL_NOT_SLEEP, SYSTEM_WILL_POWER_ON,
    SYSTEM_WILL_SLEEP,
};
use naptime::{EventHandler, SleepQueryResponse};

struct Recorder {
    answer: SleepQueryResponse,
    log: Vec<&'static str>,
}

impl Recorder {
    fn answering(answer: SleepQueryResponse) -> Recorder {
        Recorder { answer, log: Vec::new() }
    }
}

impl EventHandler for Recorder {
    fn sleep_query(&mut self) -> SleepQueryResponse {
        self.log.push("sleep_query");
        self.answer
    }

    fn sleep_failed(&mut self) {
        self.log.push("sleep_failed");
    }

    fn sleep(&mut self) {
        self.log.push("sleep");
    }

    fn wake(&mut self) {
        self.log.push("wake");
    }
}

struct Quiet;

impl EventHandler for Quiet {}

fn running(answer: SleepQueryResponse, port: u32) -> WorkerState<Recorder> {
    let (mut state, _) = WorkerState::new(Recorder::answering(answer), 0x1000);
    assert_eq!(state.registered(port).0.ok(), Some(0x1000));
    state
}

#[test]
fn recorded_scenario_query_sleep_wake() {
    let mut state = running(SleepQueryResponse::Allow, 42);
    let first = state.dispatch(CAN_SYSTEM_SLEEP, 7);
    assert_eq!(
        first,
        Some(Acknowledgement { kind: AckKind::Allow, port: 42, argument: 7 })
    );
    assert_eq!(state.handler().log, vec!["sleep_query"]);
    let second = state.dispatch(SYSTEM_WILL_SLEEP, 8);
    assert_eq!(
        second,
        Some(Acknowledgement { kind: AckKind::Allow, port: 42, argument: 8 })
    );
    assert_eq!(state.handler().log, vec!["sleep_query", "sleep"]);
    let third = state.dispatch(SYSTEM_HAS_POWERED_ON, 9);
    assert_eq!(third, None);
    assert_eq!(state.handler().log, vec!["sleep_query", "sleep", "wake"]);
}

#[test]
fn denied_query_is_cancelled() {
    let mut state = running(SleepQueryResponse::Deny, 0x3107);
    let ack = state.dispatch(CAN_SYSTEM_SLEEP, 0xabcd);
    assert_eq!(
        ack,
        Some(Acknowledgement { kind: AckKind::Cancel, port: 0x3107, argument: 0xabcd })
    );
    assert_eq!(state.handler().log, vec!["sleep_query"]);
}

#[test]
fn allowed_query_is_acknowledged() {
    let mut state = running(SleepQueryResponse::Allow, 0x3107);
    let ack = state.dispatch(CAN_SYSTEM_SLEEP, 0xabcd);
    assert_eq!(
        ack,
        Some(Acknowledgement { kind: AckKind::Allow, port: 0x3107, argument: 0xabcd })
    );
}

#[test]
fn will_sleep_is_acknowledged_even_when_queries_are_denied() {
    let mut state = running(SleepQueryResponse::Deny, 5);
    let ack = state.dispatch(SYSTEM_WILL_SLEEP, 11);
    assert_eq!(ack, Some(Acknowledgement { kind: AckKind::Allow, port: 5, argument: 11 }));
    assert_eq!(state.handler().log, vec!["sleep"]);
}

#[test]
fn one_call_per_message_in_delivery_order() {
    let mut state = running(SleepQueryResponse::Allow, 3);
    let codes = [
        SYSTEM_WILL_NOT_SLEEP,
        SYSTEM_HAS_POWERED_ON,
        CAN_SYSTEM_SLEEP,
        SYSTEM_WILL_POWER_ON,
        0x1234,
        SYSTEM_WILL_SLEEP,
        SYSTEM_WILL_NOT_SLEEP,
    ];
    let mut acks = Vec::new();
    for (i, code) in codes.iter().enumerate() {
        acks.push(state.dispatch(*code, i));
    }
    assert_eq!(
        state.handler().log,
        vec!["sleep_failed", "wake", "sleep_query", "sleep", "sleep_failed"]
    );
    assert_eq!(
        acks,
        vec![
            None,
            None,
            Some(Acknowledgement { kind: AckKind::Allow, port: 3, argument: 2 }),
            None,
            None,
            Some(Acknowledgement { kind: AckKind::Allow, port: 3, argument: 5 }),
            None,
        ]
    );
}

#[test]
fn will_power_on_and_unknown_codes_call_nothing() {
    let mut state = running(SleepQueryResponse::Allow, 3);
    assert_eq!(state.dispatch(SYSTEM_WILL_POWER_ON, 1), None);
    assert_eq!(state.dispatch(0xe000_0999, 2), None);
    assert!(state.handler().log.is_empty());
}

#[test]
fn stopped_worker_ignores_deliveries() {
    let mut state = running(SleepQueryResponse::Allow, 3);
    state.dispatch(SYSTEM_HAS_POWERED_ON, 0);
    state.stop();
    assert_eq!(state.phase(), WorkerPhase::Stopped);
    assert_eq!(state.dispatch(CAN_SYSTEM_SLEEP, 1), None);
    assert_eq!(state.dispatch(SYSTEM_WILL_SLEEP, 2), None);
    assert_eq!(state.dispatch(SYSTEM_HAS_POWERED_ON, 3), None);
    assert_eq!(state.handler().log, vec!["wake"]);
}

#[test]
fn unregistered_worker_ignores_deliveries() {
    let (mut state, _) = WorkerState::new(Recorder::answering(SleepQueryResponse::Allow), 0x1000);
    assert_eq!(state.phase(), WorkerPhase::Registering);
    assert_eq!(state.dispatch(CAN_SYSTEM_SLEEP, 1), None);
    assert!(state.handler().log.is_empty());
}

#[test]
fn registration_failure_stops_the_worker() {
    let (mut state, _) = WorkerState::new(Recorder::answering(SleepQueryResponse::Allow), 0x1000);
    let (report, steps) = state.registered(0);
    assert_eq!(steps, vec![WorkerStep::Release(0x1000), WorkerStep::Report]);
    match report {
        Err(e) => assert_eq!(e.message(), "IORegisterForSystemPower failed. code=00000000"),
        Ok(_) => panic!("registration with a zero connection must fail"),
    }
    assert_eq!(state.phase(), WorkerPhase::Stopped);
    assert_eq!(state.root_port(), 0);
    assert_eq!(state.dispatch(SYSTEM_HAS_POWERED_ON, 1), None);
    assert!(state.into_handler().log.is_empty());
}

#[test]
fn registration_keeps_the_connection() {
    let (mut state, _) = WorkerState::new(Quiet, 0x2000);
    assert_eq!(state.registered(77).0.ok(), Some(0x2000));
    assert_eq!(state.root_port(), 77);
    assert_eq!(state.phase(), WorkerPhase::Running);
}

#[test]
fn default_handler_allows_sleep() {
    let (mut state, _) = WorkerState::new(Quiet, 1);
    assert!(state.registered(9).0.is_ok());
    assert_eq!(
        state.dispatch(CAN_SYSTEM_SLEEP, 4),
        Some(Acknowledgement { kind: AckKind::Allow, port: 9, argument: 4 })
    );
    assert_eq!(state.dispatch(SYSTEM_WILL_NOT_SLEEP, 5), None);
    assert_eq!(state.dispatch(SYSTEM_HAS_POWERED_ON, 6), None);
}

#[test]
fn worker_life_retains_once_and_releases_last() {
    let (mut state, mut steps) = WorkerState::new(Quiet, 0x5000);
    assert_eq!(steps, vec![WorkerStep::Retain(0x5000), WorkerStep::Register]);
    let (report, more) = state.registered(21);
    assert_eq!(report.ok(), Some(0x5000));
    assert_eq!(
        more,
        vec![WorkerStep::Report, WorkerStep::Rendezvous, WorkerStep::AddSource, WorkerStep::Run]
    );
    steps.extend(more);
    let closing = state.stop();
    assert_eq!(
        closing,
        vec![
            WorkerStep::RemoveSource,
            WorkerStep::Deregister,
            WorkerStep::Close(21),
            WorkerStep::DestroyPort,
            WorkerStep::Release(0x5000),
        ]
    );
    steps.extend(closing);
    assert!(state.stop().is_empty());
    let retains = steps.iter().filter(|s| **s == WorkerStep::Retain(0x5000)).count();
    let releases = steps.iter().filter(|s| **s == WorkerStep::Release(0x5000)).count();
    assert_eq!((retains, releases), (1, 1));
    assert_eq!(steps.last(), Some(&WorkerStep::Release(0x5000)));
}

#[test]
fn failed_worker_never_meets_the_owner() {
    let (mut state, _) = WorkerState::new(Quiet, 0x5000);
    let (report, steps) = state.registered(0);
    assert!(report.is_err());
    assert!(!steps.contains(&WorkerStep::Rendezvous));
    assert!(!steps.contains(&WorkerStep::Run));
    assert!(state.stop().is_empty());
}

#[test]
fn default_sleep_query_answers_allow() {
    let mut quiet = Quiet;
    assert_eq!(quiet.sleep_query(), SleepQueryResponse::Allow);
}
