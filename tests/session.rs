use mouse_debounce::debounce::validate;
use mouse_debounce::device::{DeviceEntry, Model};
use mouse_debounce::session::{start, step, Action, Event, Failure, Outcome, State};

fn model_o() -> Vec<DeviceEntry> {
    vec![DeviceEntry { vendor_id: 0x258a, product_id: 0x36 }]
}

fn opened_session(requested: u64) -> State {
    let (s, _) = start(requested);
    let (s, _) = step(s, Event::Privilege { elevated: true });
    let (s, _) = step(s, Event::Enumerated { devices: model_o() });
    let (s, a) = step(s, Event::Opened { opened: Ok(()) });
    assert_eq!(a, Action::SendFeatureReport { report: [0x05, 0x1a, 0, 0, 0, 0] });
    s
}

#[test]
fn no_privilege_skips_quietly() {
    let (s, a) = start(10);
    assert_eq!(a, Action::CheckPrivilege);
    let (s, a) = step(s, Event::Privilege { elevated: false });
    assert_eq!(a, Action::Stop);
    assert_eq!(s, State::Finished { outcome: Outcome::SkippedNoPrivilege });
}

#[test]
fn out_of_range_value_stops_before_enumeration() {
    let (s, _) = start(20);
    let (s, a) = step(s, Event::Privilege { elevated: true });
    assert_eq!(a, Action::Stop);
    assert_eq!(
        s,
        State::Finished { outcome: Outcome::Failed { failure: Failure::OutOfRange { value: 20 } } }
    );
}

#[test]
fn full_run_reads_then_writes() {
    let (s, _) = start(10);
    let (s, a) = step(s, Event::Privilege { elevated: true });
    assert_eq!(a, Action::Enumerate);
    let (s, a) = step(s, Event::Enumerated { devices: model_o() });
    assert_eq!(a, Action::Open { index: 0, model: Model::ModelO });
    let (s, a) = step(s, Event::Opened { opened: Ok(()) });
    assert_eq!(a, Action::SendFeatureReport { report: [0x05, 0x1a, 0x00, 0x00, 0x00, 0x00] });
    let (s, a) = step(s, Event::ProbeSent { ok: true });
    assert_eq!(a, Action::GetFeatureReport { buffer: [0x05, 0x1a, 0x00, 0x00, 0x00, 0x00] });
    let (s, a) = step(s, Event::ReplyReceived { reply: Some(vec![0x05, 0x1a, 0x04, 0, 0, 0]) });
    assert_eq!(a, Action::SendFeatureReport { report: [0x05, 0x1a, 0x05, 0x00, 0x00, 0x00] });
    let (s, a) = step(s, Event::WriteSent { written: Ok(()) });
    assert_eq!(a, Action::Stop);
    assert_eq!(
        s,
        State::Finished {
            outcome: Outcome::Configured { previous: Some(8), applied: validate(10).unwrap() }
        }
    );
}

#[test]
fn no_device_fails_not_found() {
    let (s, _) = start(10);
    let (s, _) = step(s, Event::Privilege { elevated: true });
    let (s, a) = step(s, Event::Enumerated { devices: vec![] });
    assert_eq!(a, Action::Stop);
    assert_eq!(s, State::Finished { outcome: Outcome::Failed { failure: Failure::DeviceNotFound } });
}

#[test]
fn open_failure_carries_message() {
    let (s, _) = start(4);
    let (s, _) = step(s, Event::Privilege { elevated: true });
    let (s, _) = step(s, Event::Enumerated { devices: model_o() });
    let (s, a) = step(s, Event::Opened { opened: Err("busy".to_string()) });
    assert_eq!(a, Action::Stop);
    let failure = Failure::OpenFailed { message: "busy".to_string() };
    assert_eq!(s, State::Finished { outcome: Outcome::Failed { failure } });
}

#[test]
fn failed_probe_still_writes() {
    let s = opened_session(6);
    let (s, a) = step(s, Event::ProbeSent { ok: false });
    assert_eq!(a, Action::SendFeatureReport { report: [0x05, 0x1a, 0x03, 0, 0, 0] });
    let (s, _) = step(s, Event::WriteSent { written: Ok(()) });
    let applied = validate(6).unwrap();
    assert_eq!(s, State::Finished { outcome: Outcome::Configured { previous: None, applied } });
}

#[test]
fn failed_readback_still_writes() {
    let s = opened_session(16);
    let (s, _) = step(s, Event::ProbeSent { ok: true });
    let (s, a) = step(s, Event::ReplyReceived { reply: None });
    assert_eq!(a, Action::SendFeatureReport { report: [0x05, 0x1a, 0x08, 0, 0, 0] });
    let applied = validate(16).unwrap();
    assert_eq!(s, State::Writing { target: applied, previous: None });
}

#[test]
fn short_reply_leaves_previous_unknown() {
    let s = opened_session(2);
    let (s, _) = step(s, Event::ProbeSent { ok: true });
    let (s, _) = step(s, Event::ReplyReceived { reply: Some(vec![0x05]) });
    assert_eq!(s, State::Writing { target: validate(2).unwrap(), previous: None });
}

#[test]
fn write_failure_is_reported() {
    let s = opened_session(12);
    let (s, _) = step(s, Event::ProbeSent { ok: true });
    let (s, _) = step(s, Event::ReplyReceived { reply: Some(vec![0x05, 0x1a, 0x02]) });
    let (s, a) = step(s, Event::WriteSent { written: Err("pipe".to_string()) });
    assert_eq!(a, Action::Stop);
    let failure = Failure::WriteFailed { message: "pipe".to_string() };
    assert_eq!(s, State::Finished { outcome: Outcome::Failed { failure } });
}

#[test]
fn accepts_only_the_expected_event() {
    let (s, _) = start(10);
    assert!(s.accepts(&Event::Privilege { elevated: true }));
    assert!(!s.accepts(&Event::ProbeSent { ok: true }));
    let done = State::Finished { outcome: Outcome::SkippedNoPrivilege };
    assert!(!done.accepts(&Event::WriteSent { written: Ok(()) }));
}
