//! One query cycle with the device, as a machine that a driver steps.
//!
//! The session decides; the driver acts. The driver asks for the pending
//! [`Action`], performs it on the serial link, and reports what happened as an
//! [`Event`]. The cycle is a straight line: every step either advances or ends
//! the cycle with an error, and nothing is tried twice.

use vstd::prelude::*;
use crate::error::DeviceError;
use crate::link::{fixed_config, Command, SerialLinkConfig};
use crate::reading::{decode_reply, decoded, CountReading};

verus! {

/// How long the device is given after each command, in milliseconds.
pub const DEFAULT_PAUSE_MILLIS: u64 = 200;

/// Size of the buffer that the reply is read into. Only the reply's two bytes
/// are ever used.
pub const READ_CAPACITY: usize = 1000;

/// Where the cycle stands: the step whose outcome is awaited, or how it ended.
#[derive(Clone, Copy, Debug, PartialEq, Eq, Structural)]
pub enum Phase {
    Opening,
    Terminating,
    Settling,
    Clearing,
    Requesting,
    Flushing,
    Waiting,
    Counting,
    Receiving,
    Done(CountReading),
    Failed(DeviceError),
}

/// What the driver is to do next.
#[derive(Clone, Copy, Debug, PartialEq, Eq)]
pub enum Action {
    /// Open the serial link with this configuration.
    Open(SerialLinkConfig),
    /// Write the command's bytes and report how many were written.
    Send(Command),
    /// Sleep for this long.
    Pause { millis: u64 },
    /// Discard what is buffered in both directions.
    ClearBuffers,
    /// Force buffered output onto the wire.
    Flush,
    /// Ask how many bytes are waiting to be read.
    CountAvailable,
    /// Read into a buffer of this size and report the bytes received.
    Receive { capacity: usize },
    /// The cycle is over.
    Finish(Result<CountReading, DeviceError>),
}

/// What happened when the driver performed the pending action.
#[derive(Clone, Debug, PartialEq, Eq)]
pub enum Event {
    /// The link is open.
    Opened,
    /// A write returned, having taken `written` bytes.
    Sent { written: usize },
    /// The sleep is over.
    Paused,
    /// The buffers are empty.
    Cleared,
    /// Buffered output is on the wire.
    Flushed,
    /// `count` bytes are waiting to be read.
    Available { count: usize },
    /// A read returned these bytes.
    Received { bytes: Vec<u8> },
    /// The action failed; `timed_out` tells a timeout from any other failure.
    Failed { timed_out: bool },
}

impl Phase {
    /// Whether the cycle is over.
    pub open spec fn ended(self) -> bool {
        self is Done || self is Failed
    }

    /// The number of steps that lie behind a phase of a running cycle.
    pub open spec fn rank(self) -> nat {
        match self {
            Phase::Opening => 0,
            Phase::Terminating => 1,
            Phase::Settling => 2,
            Phase::Clearing => 3,
            Phase::Requesting => 4,
            Phase::Flushing => 5,
            Phase::Waiting => 6,
            Phase::Counting => 7,
            Phase::Receiving => 8,
            Phase::Done(_) => 9,
            Phase::Failed(_) => 9,
        }
    }
}

/// The action that a phase waits for.
pub open spec fn pending(phase: Phase, pause_millis: u64) -> Action {
    match phase {
        Phase::Opening => Action::Open(fixed_config()),
        Phase::Terminating => Action::Send(Command::Terminate),
        Phase::Settling => Action::Pause { millis: pause_millis },
        Phase::Clearing => Action::ClearBuffers,
        Phase::Requesting => Action::Send(Command::Query),
        Phase::Flushing => Action::Flush,
        Phase::Waiting => Action::Pause { millis: pause_millis },
        Phase::Counting => Action::CountAvailable,
        Phase::Receiving => Action::Receive { capacity: READ_CAPACITY },
        Phase::Done(reading) => Action::Finish(Ok(reading)),
        Phase::Failed(error) => Action::Finish(Err(error)),
    }
}

/// The phase that follows `phase` when the driver reports `event`.
///
/// Each step has one answer that lets the cycle go on; any other event ends
/// the cycle with that step's error. The terminate command must be written in
/// full, two bytes and no other number; the query command need not be. The
/// flush is passed over however it went. Anything but two bytes waiting is
/// refused before a read is asked for, and a read that returns anything but
/// two bytes is refused before it is decoded. A cycle that is over stays as
/// it ended.
pub open spec fn next_phase(phase: Phase, event: Event) -> Phase {
    match phase {
        Phase::Opening => match event {
            Event::Opened => Phase::Terminating,
            _ => Phase::Failed(DeviceError::PortUnavailable),
        },
        Phase::Terminating => match event {
            Event::Sent { written } => if written == 2 {
                Phase::Settling
            } else {
                Phase::Failed(DeviceError::ShortWrite)
            },
            _ => Phase::Failed(DeviceError::IoFailure),
        },
        Phase::Settling => match event {
            Event::Paused => Phase::Clearing,
            _ => Phase::Failed(DeviceError::IoFailure),
        },
        Phase::Clearing => match event {
            Event::Cleared => Phase::Requesting,
            _ => Phase::Failed(DeviceError::ClearFailed),
        },
        Phase::Requesting => match event {
            Event::Sent { written } => Phase::Flushing,
            _ => Phase::Failed(DeviceError::IoFailure),
        },
        Phase::Flushing => Phase::Waiting,
        Phase::Waiting => match event {
            Event::Paused => Phase::Counting,
            _ => Phase::Failed(DeviceError::IoFailure),
        },
        Phase::Counting => match event {
            Event::Available { count } => if count == 2 {
                Phase::Receiving
            } else {
                Phase::Failed(DeviceError::UnexpectedResponseLength { got: count })
            },
            _ => Phase::Failed(DeviceError::IoFailure),
        },
        Phase::Receiving => match event {
            Event::Received { bytes } => match decoded(bytes@) {
                Ok(reading) => Phase::Done(reading),
                Err(error) => Phase::Failed(error),
            },
            Event::Failed { timed_out } => if timed_out {
                Phase::Failed(DeviceError::Timeout)
            } else {
                Phase::Failed(DeviceError::IoFailure)
            },
            _ => Phase::Failed(DeviceError::IoFailure),
        },
        Phase::Done(reading) => Phase::Done(reading),
        Phase::Failed(error) => Phase::Failed(error),
    }
}

/// The phase reached from `phase` after the driver has reported `events` in
/// turn.
pub open spec fn run(phase: Phase, events: Seq<Event>) -> Phase
    decreases events.len(),
{
    if events.len() == 0 {
        phase
    } else {
        next_phase(run(phase, events.drop_last()), events.last())
    }
}

/// The state of one query cycle.
#[derive(Clone, Copy, Debug, PartialEq, Eq)]
pub struct Session {
    pub phase: Phase,
    pub pause_millis: u64,
}

impl Session {
    /// A cycle about to open the link, with the default pause of 200 ms.
    pub fn new() -> (session: Session)
        ensures
            session.phase == Phase::Opening,
            session.pause_millis == DEFAULT_PAUSE_MILLIS,
    {
        Session { phase: Phase::Opening, pause_millis: DEFAULT_PAUSE_MILLIS }
    }

    /// A cycle about to open the link, which gives the device `pause_millis`
    /// after each command.
    pub fn with_pause(pause_millis: u64) -> (session: Session)
        ensures
            session.phase == Phase::Opening,
            session.pause_millis == pause_millis,
    {
        Session { phase: Phase::Opening, pause_millis }
    }

    /// The action that the driver is to perform now.
    pub fn pending(&self) -> (action: Action)
        ensures
            action == pending(self.phase, self.pause_millis),
    {
        match self.phase {
            Phase::Opening => Action::Open(SerialLinkConfig::fixed()),
            Phase::Terminating => Action::Send(Command::Terminate),
            Phase::Settling => Action::Pause { millis: self.pause_millis },
            Phase::Clearing => Action::ClearBuffers,
            Phase::Requesting => Action::Send(Command::Query),
            Phase::Flushing => Action::Flush,
            Phase::Waiting => Action::Pause { millis: self.pause_millis },
            Phase::Counting => Action::CountAvailable,
            Phase::Receiving => Action::Receive { capacity: READ_CAPACITY },
            Phase::Done(reading) => Action::Finish(Ok(reading)),
            Phase::Failed(error) => Action::Finish(Err(error)),
        }
    }

    /// How the cycle ended, once it has.
    pub fn outcome(&self) -> (outcome: Option<Result<CountReading, DeviceError>>)
        ensures
            outcome == match self.phase {
                Phase::Done(reading) => Some(Ok::<CountReading, DeviceError>(reading)),
                Phase::Failed(error) => Some(Err::<CountReading, DeviceError>(error)),
                _ => None,
            },
    {
        match self.phase {
            Phase::Done(reading) => Some(Ok(reading)),
            Phase::Failed(error) => Some(Err(error)),
            _ => None,
        }
    }

    /// Takes in what happened to the pending action and says what to do next.
    pub fn advance(&mut self, event: Event) -> (action: Action)
        ensures
            final(self).phase == next_phase(old(self).phase, event),
            final(self).pause_millis == old(self).pause_millis,
            action == pending(final(self).phase, final(self).pause_millis),
    {
        let next: Phase = match self.phase {
            Phase::Opening => match event {
                Event::Opened => Phase::Terminating,
                _ => Phase::Failed(DeviceError::PortUnavailable),
            },
            Phase::Terminating => match event {
                Event::Sent { written } => if written == 2 {
                    Phase::Settling
                } else {
                    Phase::Failed(DeviceError::ShortWrite)
                },
                _ => Phase::Failed(DeviceError::IoFailure),
            },
            Phase::Settling => match event {
                Event::Paused => Phase::Clearing,
                _ => Phase::Failed(DeviceError::IoFailure),
            },
            Phase::Clearing => match event {
                Event::Cleared => Phase::Requesting,
                _ => Phase::Failed(DeviceError::ClearFailed),
            },
            Phase::Requesting => match event {
                Event::Sent { written } => Phase::Flushing,
                _ => Phase::Failed(DeviceError::IoFailure),
            },
            Phase::Flushing => Phase::Waiting,
            Phase::Waiting => match event {
                Event::Paused => Phase::Counting,
                _ => Phase::Failed(DeviceError::IoFailure),
            },
            Phase::Counting => match event {
                Event::Available { count } => if count == 2 {
                    Phase::Receiving
                } else {
                    Phase::Failed(DeviceError::UnexpectedResponseLength { got: count })
                },
                _ => Phase::Failed(DeviceError::IoFailure),
            },
            Phase::Receiving => match event {
                Event::Received { bytes } => match decode_reply(bytes.as_slice()) {
                    Ok(reading) => Phase::Done(reading),
                    Err(error) => Phase::Failed(error),
                },
                Event::Failed { timed_out } => if timed_out {
                    Phase::Failed(DeviceError::Timeout)
                } else {
                    Phase::Failed(DeviceError::IoFailure)
                },
                _ => Phase::Failed(DeviceError::IoFailure),
            },
            Phase::Done(reading) => Phase::Done(reading),
            Phase::Failed(error) => Phase::Failed(error),
        };
        self.phase = next;
        self.pending()
    }
}

} // verus!
