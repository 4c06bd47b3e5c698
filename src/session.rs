//! One configuration run as a state machine: validate the requested value,
//! find and open the device, read the current value, write the new one.
//!
//! The caller performs each [`Action`] and reports what came of it as an
//! [`Event`]; [`step`] decides what comes next.

use vstd::prelude::*;
use crate::debounce::{encoded, in_range, validate, DebounceTime};
use crate::device::{is_first_supported, is_supported, model_for, resolve, DeviceEntry, Model};
use crate::report::{decode_reply, probe_report, reply_value, report_bytes, write_report, REPORT_LEN};

verus! {

/// Why a run ended without configuring the device.
#[derive(Debug, PartialEq, Eq)]
pub enum Failure {
    /// The requested debounce time is outside the accepted range.
    OutOfRange { value: u64 },
    /// No supported device is attached.
    DeviceNotFound,
    /// The chosen device could not be opened; the transport's message.
    OpenFailed { message: String },
    /// The new value could not be written; the transport's message.
    WriteFailed { message: String },
}

/// How a run ended.
#[derive(Debug, PartialEq, Eq)]
pub enum Outcome {
    /// The new value was written. `previous` is the value read before, or
    /// `None` where it could not be read.
    Configured { previous: Option<u16>, applied: DebounceTime },
    /// The process lacks the privilege to talk to the device; nothing was done.
    SkippedNoPrivilege,
    Failed { failure: Failure },
}

/// Where a run stands.
#[derive(Debug, PartialEq, Eq)]
pub enum State {
    CheckingPrivilege { requested: u64 },
    Enumerating { target: DebounceTime },
    Opening { target: DebounceTime },
    Probing { target: DebounceTime },
    ReadingBack { target: DebounceTime },
    Writing { target: DebounceTime, previous: Option<u16> },
    Finished { outcome: Outcome },
}

/// What the caller reports after performing an action.
#[derive(Debug, PartialEq, Eq)]
pub enum Event {
    /// Whether the process holds elevated privilege.
    Privilege { elevated: bool },
    /// The attached HID devices, in enumeration order.
    Enumerated { devices: Vec<DeviceEntry> },
    /// Whether the chosen device was opened, or the transport's message.
    Opened { opened: Result<(), String> },
    /// Whether the probe report was sent.
    ProbeSent { ok: bool },
    /// The bytes of the reply, or `None` where it could not be received.
    ReplyReceived { reply: Option<Vec<u8>> },
    /// Whether the new value was sent, or the transport's message.
    WriteSent { written: Result<(), String> },
}

/// What the caller is to do next.
#[derive(Debug, PartialEq, Eq)]
pub enum Action {
    CheckPrivilege,
    Enumerate,
    /// Open the device at this position of the enumeration.
    Open { index: usize, model: Model },
    SendFeatureReport { report: [u8; REPORT_LEN] },
    /// Receive a feature report into a buffer that starts as this one.
    GetFeatureReport { buffer: [u8; REPORT_LEN] },
    /// The run is over; the state holds its outcome.
    Stop,
}

/// The state and action that end a run with `outcome`.
pub open spec fn finish(outcome: Outcome) -> (State, Action) {
    (State::Finished { outcome }, Action::Stop)
}

/// `a` sends a feature report with these bytes.
pub open spec fn sends(a: Action, bytes: Seq<u8>) -> bool {
    a matches Action::SendFeatureReport { report } && report@ == bytes
}

/// `a` receives a feature report into a buffer that starts with these bytes.
pub open spec fn receives_into(a: Action, bytes: Seq<u8>) -> bool {
    a matches Action::GetFeatureReport { buffer } && buffer@ == bytes
}

/// The state and action that write `target`, with `previous` read before.
pub open spec fn is_write_step(r: (State, Action), target: DebounceTime, previous: Option<u16>) -> bool {
    &&& r.0 == (State::Writing { target, previous })
    &&& sends(r.1, report_bytes(encoded(target@) as u8))
}

impl State {
    /// Whether `e` answers the action that led to this state.
    pub open spec fn expects(self, e: Event) -> bool {
        match self {
            State::CheckingPrivilege { .. } => e is Privilege,
            State::Enumerating { .. } => e is Enumerated,
            State::Opening { .. } => e is Opened,
            State::Probing { .. } => e is ProbeSent,
            State::ReadingBack { .. } => e is ReplyReceived,
            State::Writing { .. } => e is WriteSent,
            State::Finished { .. } => false,
        }
    }

    /// Tells whether `e` answers the action that led to this state.
    pub fn accepts(&self, e: &Event) -> (r: bool)
        ensures
            r == self.expects(*e),
    {
        match self {
            State::CheckingPrivilege { .. } => matches!(e, Event::Privilege { .. }),
            State::Enumerating { .. } => matches!(e, Event::Enumerated { .. }),
            State::Opening { .. } => matches!(e, Event::Opened { .. }),
            State::Probing { .. } => matches!(e, Event::ProbeSent { .. }),
            State::ReadingBack { .. } => matches!(e, Event::ReplyReceived { .. }),
            State::Writing { .. } => matches!(e, Event::WriteSent { .. }),
            State::Finished { .. } => false,
        }
    }
}

/// The first state and action of a run that is to set `requested`
/// milliseconds: privilege is checked before anything else.
pub fn start(requested: u64) -> (r: (State, Action))
    ensures
        r == (State::CheckingPrivilege { requested }, Action::CheckPrivilege),
{
    (State::CheckingPrivilege { requested }, Action::CheckPrivilege)
}

/// Decides what follows `event` in `state`.
///
/// Privilege is checked first, and without it the run ends at once. The
/// requested value is validated before any device is looked at. A failed
/// readback does not stop the write: it only leaves the previous value
/// unknown.
pub fn step(state: State, event: Event) -> (r: (State, Action))
    requires
        state.expects(event),
    ensures
        state matches State::CheckingPrivilege { requested } ==> {
            &&& event == (Event::Privilege { elevated: false }) ==> r == finish(
                Outcome::SkippedNoPrivilege,
            )
            &&& event == (Event::Privilege { elevated: true }) && !in_range(requested as int)
                ==> r == finish(
                Outcome::Failed { failure: Failure::OutOfRange { value: requested } },
            )
            &&& event == (Event::Privilege { elevated: true }) && in_range(requested as int)
                ==> (r.0 matches State::Enumerating { target } && target@ == requested as int
                && r.1 == Action::Enumerate)
        },
        state matches State::Enumerating { target } ==> event matches Event::Enumerated {
            devices,
        } ==> {
            &&& (forall|i: int| 0 <= i < devices@.len() ==> !is_supported(#[trigger] devices@[i]))
                ==> r == finish(Outcome::Failed { failure: Failure::DeviceNotFound })
            &&& (exists|i: int| 0 <= i < devices@.len() && is_supported(#[trigger] devices@[i]))
                ==> (r.1 matches Action::Open { index, model } && is_first_supported(
                devices@,
                index as int,
            ) && Some(model) == model_for(
                devices@[index as int].vendor_id,
                devices@[index as int].product_id,
            ) && r.0 == (State::Opening { target }))
        },
        state matches State::Opening { target } ==> event matches Event::Opened { opened } ==> {
            &&& opened is Ok ==> r.0 == (State::Probing { target }) && sends(r.1, report_bytes(0))
            &&& opened matches Err(message) ==> r == finish(
                Outcome::Failed { failure: Failure::OpenFailed { message } },
            )
        },
        state matches State::Probing { target } ==> event matches Event::ProbeSent { ok } ==> {
            &&& ok ==> r.0 == (State::ReadingBack { target }) && receives_into(r.1, report_bytes(0))
            &&& !ok ==> is_write_step(r, target, None)
        },
        state matches State::ReadingBack { target } ==> event matches Event::ReplyReceived {
            reply,
        } ==> {
            &&& reply is None ==> is_write_step(r, target, None)
            &&& reply matches Some(bytes) ==> is_write_step(r, target, reply_value(bytes@))
        },
        state matches State::Writing { target, previous } ==> event matches Event::WriteSent {
            written,
        } ==> {
            &&& written is Ok ==> r == finish(Outcome::Configured { previous, applied: target })
            &&& written matches Err(message) ==> r == finish(
                Outcome::Failed { failure: Failure::WriteFailed { message } },
            )
        },
{
    match (state, event) {
        (State::CheckingPrivilege { requested }, Event::Privilege { elevated }) => {
            if !elevated {
                (State::Finished { outcome: Outcome::SkippedNoPrivilege }, Action::Stop)
            } else {
                match validate(requested) {
                    Ok(target) => (State::Enumerating { target }, Action::Enumerate),
                    Err(e) => {
                        let failure = Failure::OutOfRange { value: e.value };
                        (State::Finished { outcome: Outcome::Failed { failure } }, Action::Stop)
                    },
                }
            }
        },
        (State::Enumerating { target }, Event::Enumerated { devices }) => {
            match resolve(&devices) {
                Ok(found) => (
                    State::Opening { target },
                    Action::Open { index: found.index, model: found.model },
                ),
                Err(_) => {
                    let failure = Failure::DeviceNotFound;
                    (State::Finished { outcome: Outcome::Failed { failure } }, Action::Stop)
                },
            }
        },
        (State::Opening { target }, Event::Opened { opened }) => {
            match opened {
                Ok(()) => (State::Probing { target }, Action::SendFeatureReport { report: probe_report() }),
                Err(message) => {
                    let failure = Failure::OpenFailed { message };
                    (State::Finished { outcome: Outcome::Failed { failure } }, Action::Stop)
                },
            }
        },
        (State::Probing { target }, Event::ProbeSent { ok }) => {
            if ok {
                (State::ReadingBack { target }, Action::GetFeatureReport { buffer: probe_report() })
            } else {
                let report = write_report(target);
                (State::Writing { target, previous: None }, Action::SendFeatureReport { report })
            }
        },
        (State::ReadingBack { target }, Event::ReplyReceived { reply }) => {
            let previous = match reply {
                Some(bytes) => decode_reply(bytes.as_slice()),
                None => None,
            };
            let report = write_report(target);
            (State::Writing { target, previous }, Action::SendFeatureReport { report })
        },
        (State::Writing { target, previous }, Event::WriteSent { written }) => {
            let outcome = match written {
                Ok(()) => Outcome::Configured { previous, applied: target },
                Err(message) => Outcome::Failed { failure: Failure::WriteFailed { message } },
            };
            (State::Finished { outcome }, Action::Stop)
        },
        // `expects` rules out every other pairing.
        (state, _) => (state, Action::Stop),
    }
}

} // verus!
