use vstd::prelude::*;

verus! {

/// `EVFILT_READ` of Darwin's `<sys/event.h>`: a descriptor has data to read.
pub const EVFILT_READ: i16 = -1;

/// `EVFILT_SIGNAL` of Darwin's `<sys/event.h>`: a signal was delivered.
pub const EVFILT_SIGNAL: i16 = -6;

/// `SIGINT` of `<signal.h>`.
pub const SIGINT: i32 = 2;

/// `SIGTERM` of `<signal.h>`.
pub const SIGTERM: i32 = 15;

/// Whether polling should continue with the next event of a batch or stop.
#[derive(Debug, Clone, Copy, PartialEq, Eq, Structural)]
pub enum PollAction {
    /// Continue processing subsequent events.
    Continue,
    /// Stop processing events and return from polling.
    Stop,
}

/// The fields of a `kevent` that the daemon reads.
#[derive(Debug, Clone, Copy, PartialEq, Eq, Structural)]
pub struct KEvent {
    /// `ident`: the descriptor or signal number the event is about.
    pub ident: usize,
    /// `filter`: the kind of event.
    pub filter: i16,
}

/// What an event asks of the daemon.
#[derive(Debug, Clone, Copy, PartialEq, Eq, Structural)]
pub enum EventKind {
    /// `SIGINT` or `SIGTERM` arrived: stop watching.
    StopSignal,
    /// A signal that was never registered arrived.
    UnknownSignal,
    /// The routing socket has messages to read.
    Readable,
    /// Any other event, which is ignored.
    Ignored,
}

/// The signal number of a signal event, as the C `int` it was registered as.
pub open spec fn spec_signal_number(e: KEvent) -> i32 {
    e.ident as i32
}

/// What event `e` asks of the daemon.
pub open spec fn spec_event_kind(e: KEvent) -> EventKind {
    if e.filter == EVFILT_SIGNAL {
        if spec_signal_number(e) == SIGINT || spec_signal_number(e) == SIGTERM {
            EventKind::StopSignal
        } else {
            EventKind::UnknownSignal
        }
    } else if e.filter == EVFILT_READ {
        EventKind::Readable
    } else {
        EventKind::Ignored
    }
}

/// Classifies event `e`.
pub fn event_kind(e: &KEvent) -> (res: EventKind)
    ensures
        res == spec_event_kind(*e),
{
    if e.filter == EVFILT_SIGNAL {
        let signal = #[verifier::truncate] (e.ident as i32);
        if signal == SIGINT || signal == SIGTERM {
            EventKind::StopSignal
        } else {
            EventKind::UnknownSignal
        }
    } else if e.filter == EVFILT_READ {
        EventKind::Readable
    } else {
        EventKind::Ignored
    }
}

} // verus!
