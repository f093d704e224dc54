//! Device events and the outcomes of one read from the event source.

use vstd::prelude::*;
use crate::time::Timestamp;

verus! {

/// Category number of key and button events.
pub const EV_KEY: u16 = 1;

/// Code of the Q key within the key category: the quit key.
pub const KEY_Q: u16 = 16;

/// One event as the device reported it, with the names of its category and
/// code already looked up.
#[derive(Clone, Debug, PartialEq, Eq)]
pub struct DeviceEvent {
    pub time: Timestamp,
    pub event_type: u16,
    pub event_code: u16,
    pub type_label: String,
    pub code_label: String,
    pub value: i32,
}

/// What contracts say of a [`DeviceEvent`]: the same fields, the names as
/// sequences of characters.
pub struct EventView {
    pub time: Timestamp,
    pub event_type: u16,
    pub event_code: u16,
    pub type_label: Seq<char>,
    pub code_label: Seq<char>,
    pub value: i32,
}

impl View for DeviceEvent {
    type V = EventView;

    open spec fn view(&self) -> EventView {
        EventView {
            time: self.time,
            event_type: self.event_type,
            event_code: self.event_code,
            type_label: self.type_label@,
            code_label: self.code_label@,
            value: self.value,
        }
    }
}

impl EventView {
    /// A press of the quit key: neither its release nor its repeat.
    pub open spec fn is_quit_press(self) -> bool {
        self.event_type == EV_KEY && self.event_code == KEY_Q && self.value == 1
    }
}

impl DeviceEvent {
    pub fn is_quit_press(&self) -> (b: bool)
        ensures
            b == self@.is_quit_press(),
    {
        self.event_type == EV_KEY && self.event_code == KEY_Q && self.value == 1
    }
}

/// How the event source describes a read that delivered an event.
#[derive(Clone, Copy, Debug, PartialEq, Eq, Structural)]
pub enum ReadStatus {
    /// An ordinary event.
    Success,
    /// The stream dropped events and wants to be resynchronised.
    Sync,
}

/// The result of asking the event source for its next event.
#[derive(Clone, Debug, PartialEq, Eq)]
pub enum Outcome {
    /// An event arrived.
    Event(DeviceEvent),
    /// The stream signalled a discontinuity; keep polling.
    ResyncNeeded,
    /// Nothing is waiting yet; poll again.
    WouldBlock,
    /// The read failed for good, with this error number.
    Fatal(i32),
}

/// What contracts say of an [`Outcome`].
pub enum OutcomeView {
    Event(EventView),
    ResyncNeeded,
    WouldBlock,
    Fatal(i32),
}

impl View for Outcome {
    type V = OutcomeView;

    open spec fn view(&self) -> OutcomeView {
        match self {
            Outcome::Event(e) => OutcomeView::Event(e@),
            Outcome::ResyncNeeded => OutcomeView::ResyncNeeded,
            Outcome::WouldBlock => OutcomeView::WouldBlock,
            Outcome::Fatal(errno) => OutcomeView::Fatal(*errno),
        }
    }
}

/// The outcome that a delivered event stands for.
pub open spec fn delivered(status: ReadStatus, event: EventView) -> OutcomeView {
    match status {
        ReadStatus::Success => OutcomeView::Event(event),
        ReadStatus::Sync => OutcomeView::ResyncNeeded,
    }
}

/// The outcome that a failed read stands for, where `no_data` is the error
/// number that means "nothing to read yet".
pub open spec fn failed(errno: i32, no_data: i32) -> OutcomeView {
    if errno == no_data {
        OutcomeView::WouldBlock
    } else {
        OutcomeView::Fatal(errno)
    }
}

/// The error number for "nothing to read yet" on Linux and Android.
pub const NO_DATA_LINUX: i32 = 11;

/// The error number for "nothing to read yet" on the BSD family and on
/// Apple's systems.
pub const NO_DATA_BSD: i32 = 35;

/// The error number `nix::errno::Errno::EAGAIN`. It is taken to be one of
/// [`NO_DATA_LINUX`] and [`NO_DATA_BSD`]: the library defines its error
/// numbers for Linux, Android, the BSD family and Apple's systems only, and
/// these are the two values among them. Which of the two it is depends on
/// the platform.
#[verifier::external_body]
fn no_data_errno() -> (errno: i32)
    ensures
        errno == NO_DATA_LINUX || errno == NO_DATA_BSD,
{
    nix::errno::Errno::EAGAIN as i32
}

impl Outcome {
    /// Classifies a read that delivered `event` with `status`.
    pub fn of_event(status: ReadStatus, event: DeviceEvent) -> (o: Outcome)
        ensures
            o@ == delivered(status, event@),
    {
        match status {
            ReadStatus::Success => Outcome::Event(event),
            ReadStatus::Sync => Outcome::ResyncNeeded,
        }
    }

    /// Classifies a read that failed with `errno`, given the error number
    /// that means "nothing to read yet".
    pub fn of_failure(errno: i32, no_data: i32) -> (o: Outcome)
        ensures
            o@ == failed(errno, no_data),
    {
        if errno == no_data {
            Outcome::WouldBlock
        } else {
            Outcome::Fatal(errno)
        }
    }

    /// Classifies the result of one read: the status and event it delivered,
    /// or the error number it failed with. The platform decides which of
    /// [`NO_DATA_LINUX`] and [`NO_DATA_BSD`] means "nothing to read yet";
    /// every other error number is fatal.
    pub fn of_read(result: Result<(ReadStatus, DeviceEvent), i32>) -> (o: Outcome)
        ensures
            result matches Ok((status, event)) ==> o@ == delivered(status, event@),
            result matches Err(errno) ==> (o@ == failed(errno, NO_DATA_LINUX) || o@ == failed(
                errno,
                NO_DATA_BSD,
            )),
            result matches Err(errno) ==> (errno != NO_DATA_LINUX && errno != NO_DATA_BSD ==> o@
                == OutcomeView::Fatal(errno)),
    {
        match result {
            Ok((status, event)) => Outcome::of_event(status, event),
            Err(errno) => Outcome::of_failure(errno, no_data_errno()),
        }
    }
}

} // verus!
