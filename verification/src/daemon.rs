use vstd::prelude::*;

use crate::awdl_controller::{
    spec_down_flags, spec_is_up, spec_up_flags, AWDLController, ControllerView, IfMsgHeader,
    IoctlRequest, RTM_IFINFO, SIOCGIFFLAGS, SIOCSIFFLAGS,
};
use crate::error::{DaemonError, Error, PosixError};
use crate::event::{event_kind, spec_event_kind, EventKind, KEvent, SIGINT, SIGTERM};

verus! {

/// `EINTR` of `<sys/errno.h>`: a read was interrupted by a signal.
pub const EINTR: i32 = 4;

/// `EAGAIN` of Darwin's `<sys/errno.h>`: a non-blocking read found nothing to read.
pub const EAGAIN: i32 = 35;

/// The messages the daemon logs.
#[derive(Debug, Clone, Copy, PartialEq, Eq, Structural)]
pub enum Message {
    Disabling,
    AlreadyDisabled,
    Watching,
    ReEnabling,
    AlreadyReEnabled,
    RequiresRoot,
    Exiting,
}

/// The text of each message.
pub open spec fn spec_message_text(m: Message) -> Seq<char> {
    match m {
        Message::Disabling => "Disabling awdl0"@,
        Message::AlreadyDisabled => "awdl0 already disabled"@,
        Message::Watching => "Watching for awdl0 interface changes"@,
        Message::ReEnabling => "Re-enabling awdl0"@,
        Message::AlreadyReEnabled => "awdl0 already re-enabled"@,
        Message::RequiresRoot => "AWDLDaemon requires root"@,
        Message::Exiting => "AWDLDaemon exiting"@,
    }
}

impl Message {
    /// The text of the message.
    pub fn text(&self) -> (res: &'static str)
        ensures
            res@ == spec_message_text(*self),
    {
        match self {
            Message::Disabling => "Disabling awdl0",
            Message::AlreadyDisabled => "awdl0 already disabled",
            Message::Watching => "Watching for awdl0 interface changes",
            Message::ReEnabling => "Re-enabling awdl0",
            Message::AlreadyReEnabled => "awdl0 already re-enabled",
            Message::RequiresRoot => "AWDLDaemon requires root",
            Message::Exiting => "AWDLDaemon exiting",
        }
    }

    /// Whether the message is logged as an error; the others are logged as
    /// ordinary messages.
    pub fn is_error(&self) -> (res: bool)
        ensures
            res == (*self == Message::RequiresRoot),
    {
        match self {
            Message::RequiresRoot => true,
            _ => false,
        }
    }
}

/// What the daemon asks its caller to do next.
#[derive(Debug, Clone, Copy, PartialEq, Eq, Structural)]
pub enum Action {
    /// Read the real user id; answer with `Event::Uid`.
    GetUid,
    /// Create the datagram socket that interface ioctls go through.
    OpenIoctlSocket,
    /// Look up the index of the interface named by `interface_name()`;
    /// answer with `Event::Index`.
    LookupIndex,
    /// Perform the interface-flags ioctl on `awdl0`; a flags-reading request
    /// is answered with `Event::Flags`, a flags-writing one with `Event::Done`.
    Ioctl(IoctlRequest),
    /// Create the routing socket.
    OpenRouteSocket,
    /// Make the routing socket non-blocking.
    SetNonBlocking,
    /// Create the kernel event queue.
    CreateKqueue,
    /// Register the routing socket for read events.
    AddReadFd,
    /// Ignore the signal by default and register it with the event queue.
    AddSignal(i32),
    /// Wait for events; answer with `Event::Polled`.
    Poll,
    /// Read one routing message; answer with `Event::Header`,
    /// `Event::ShortRead` or `Event::Failed`.
    ReadMessage,
    /// Log a message; answer with `Event::Done`.
    Log(Message),
    /// Log a failure; answer with `Event::Done`.
    ReportError(Error),
    /// Exit the process with this status.
    Exit(i32),
}

/// The outcome of an action, handed back to the daemon.
pub enum Event {
    /// The action succeeded.
    Done,
    /// The action's system call failed with this `errno` value.
    Failed(i32),
    /// The real user id.
    Uid(u32),
    /// The interface index found (0 when the lookup failed) and the `errno`
    /// value read after the lookup.
    Index { index: u32, errno: i32 },
    /// The flags read by a flags-reading ioctl.
    Flags(i16),
    /// The events that a poll returned, and the `errno` value read after it.
    Polled { events: Vec<KEvent>, errno: i32 },
    /// A whole routing-message header was read.
    Header(IfMsgHeader),
    /// A read returned fewer bytes than a routing-message header.
    ShortRead,
}

/// Which outcome the daemon waits for.
#[derive(Debug, Clone, Copy, PartialEq, Eq, Structural)]
pub enum Phase {
    Start,
    AwaitUid,
    AwaitIoctlSocket,
    AwaitIndex,
    AwaitInitialStatus,
    AwaitInitialDisable,
    AwaitInitialLog,
    AwaitRouteSocket,
    AwaitNonBlocking,
    AwaitKqueue,
    AwaitReadFd,
    AwaitSigint,
    AwaitSigterm,
    AwaitWatchingLog,
    AwaitPoll,
    AwaitRead,
    AwaitLoopDisable,
    AwaitFinalStatus,
    AwaitReenable,
    AwaitLastLog,
    AwaitExitLog,
    Finished,
}

/// Whether the daemon holds an `awdl0` controller in phase `p`.
pub open spec fn spec_has_controller(p: Phase) -> bool {
    match p {
        Phase::Start | Phase::AwaitUid | Phase::AwaitIoctlSocket | Phase::AwaitIndex
        | Phase::AwaitLastLog | Phase::AwaitExitLog | Phase::Finished => false,
        _ => true,
    }
}

/// Whether `e` is an outcome of the action the daemon waits on in phase `p`.
pub open spec fn spec_accepts(p: Phase, e: Event) -> bool {
    match p {
        Phase::Start | Phase::AwaitInitialLog | Phase::AwaitWatchingLog | Phase::AwaitLastLog
        | Phase::AwaitExitLog => e is Done,
        Phase::AwaitUid => e is Uid,
        Phase::AwaitIndex => e is Index,
        Phase::AwaitInitialStatus | Phase::AwaitFinalStatus => e is Flags || e is Failed,
        Phase::AwaitPoll => e is Polled || e is Failed,
        Phase::AwaitRead => e is Header || e is ShortRead || e is Failed,
        Phase::Finished => true,
        _ => e is Done || e is Failed,
    }
}

/// The daemon as plain values: the phase, the controller once there is one,
/// the batch of polled events and the position in it, the flags of the
/// last `awdl0` message read from the current read event, the `errno`
/// value read after the last poll, and the exit status.
pub struct DaemonView {
    pub phase: Phase,
    pub controller: Option<ControllerView>,
    pub batch: Seq<KEvent>,
    pub pos: int,
    pub latest: i32,
    pub poll_errno: i32,
    pub code: i32,
}

impl DaemonView {
    /// The controller, or an unbound one before the index lookup.
    pub open spec fn ctrl(self) -> ControllerView {
        match self.controller {
            Some(c) => c,
            None => ControllerView { index: 0, flags: 0 },
        }
    }

    /// The same daemon in phase `phase`.
    pub open spec fn to(self, phase: Phase) -> DaemonView {
        DaemonView { phase, ..self }
    }

    /// The same daemon with the controller's `ifreq` flags set to `flags`.
    pub open spec fn with_flags(self, flags: i16) -> DaemonView {
        DaemonView {
            controller: Some(ControllerView { index: self.ctrl().index, flags }),
            ..self
        }
    }

    /// The daemon's invariant.
    pub open spec fn wf(self) -> bool {
        &&& spec_has_controller(self.phase) ==> self.controller is Some
        &&& 0 <= self.pos <= self.batch.len()
        &&& (self.phase == Phase::AwaitRead || self.phase == Phase::AwaitLoopDisable) ==> self.pos
            < self.batch.len()
    }
}

/// Whether routing-message header `h` reports on the interface of `c`.
pub open spec fn spec_is_awdl(c: ControllerView, h: IfMsgHeader) -> bool {
    h.msg_type == RTM_IFINFO && h.index as u32 == c.index
}

/// The position of the first event at or after `pos` that is not ignored,
/// or the length of the batch when there is none.
pub open spec fn spec_first_actionable(batch: Seq<KEvent>, pos: int) -> int
    decreases batch.len() - pos,
{
    if pos >= batch.len() {
        batch.len() as int
    } else if spec_event_kind(batch[pos]) != EventKind::Ignored {
        pos
    } else {
        spec_first_actionable(batch, pos + 1)
    }
}

/// Giving up after `errno` on step `d`: report the error, then exit with `errno`.
pub open spec fn spec_fail(s: DaemonView, errno: i32, d: DaemonError) -> (DaemonView, Action) {
    (
        DaemonView { phase: Phase::AwaitLastLog, code: errno, ..s },
        Action::ReportError(Error::spec_with_code(errno, d)),
    )
}

/// Going on to `next` with `action` after success, giving up on step `d`
/// after a failure.
pub open spec fn spec_advance(s: DaemonView, e: Event, next: Phase, action: Action, d: DaemonError) -> (
    DaemonView,
    Action,
) {
    match e {
        Event::Failed(errno) => spec_fail(s, errno, d),
        _ => (s.to(next), action),
    }
}

/// Reading the flags of `awdl0` once a stop signal arrived.
pub open spec fn spec_final_status(s: DaemonView) -> (DaemonView, Action) {
    (
        s.to(Phase::AwaitFinalStatus),
        Action::Ioctl(IoctlRequest { request: SIOCGIFFLAGS, flags: s.ctrl().flags }),
    )
}

/// Handling the polled batch from position `s.pos` on: ignored events are
/// skipped; at the end of the batch the daemon polls again; a stop signal
/// ends the watch; an unknown signal is a failure; a read event starts
/// reading routing messages.
pub open spec fn spec_dispatch(s: DaemonView) -> (DaemonView, Action) {
    let i = spec_first_actionable(s.batch, s.pos);
    let t = DaemonView { pos: i, ..s };
    if i >= s.batch.len() {
        (t.to(Phase::AwaitPoll), Action::Poll)
    } else {
        match spec_event_kind(s.batch[i]) {
            EventKind::StopSignal => spec_final_status(t),
            EventKind::UnknownSignal => spec_fail(t, s.poll_errno, DaemonError::UnknownSignal),
            _ => (DaemonView { phase: Phase::AwaitRead, latest: 0, ..t }, Action::ReadMessage),
        }
    }
}

/// Once no routing message is left to read: when the last `awdl0` message
/// says the interface is up, turn it down; otherwise go on with the batch.
pub open spec fn spec_drained(s: DaemonView) -> (DaemonView, Action) {
    if s.latest & 1i32 != 0 {
        let f = spec_down_flags(s.latest as i16);
        (
            s.with_flags(f).to(Phase::AwaitLoopDisable),
            Action::Ioctl(IoctlRequest { request: SIOCSIFFLAGS, flags: f }),
        )
    } else {
        spec_dispatch(DaemonView { pos: s.pos + 1, ..s })
    }
}

/// The daemon's transition: the state after outcome `e` in state `s`, and
/// the next action.
pub open spec fn spec_step(s: DaemonView, e: Event) -> (DaemonView, Action) {
    match s.phase {
        Phase::Start => (s.to(Phase::AwaitUid), Action::GetUid),
        Phase::AwaitUid => match e {
            Event::Uid(u) => if u == 0 {
                (s.to(Phase::AwaitIoctlSocket), Action::OpenIoctlSocket)
            } else {
                (
                    DaemonView { phase: Phase::AwaitLastLog, code: 1, ..s },
                    Action::Log(Message::RequiresRoot),
                )
            },
            _ => (s, Action::Exit(s.code)),
        },
        Phase::AwaitIoctlSocket => spec_advance(
            s,
            e,
            Phase::AwaitIndex,
            Action::LookupIndex,
            DaemonError::IoctlFDCreation,
        ),
        Phase::AwaitIndex => match e {
            Event::Index { index, errno } => if index == 0 {
                spec_fail(s, errno, DaemonError::IndexLookup)
            } else {
                (
                    DaemonView {
                        phase: Phase::AwaitInitialStatus,
                        controller: Some(ControllerView { index, flags: 0 }),
                        ..s
                    },
                    Action::Ioctl(IoctlRequest { request: SIOCGIFFLAGS, flags: 0 }),
                )
            },
            _ => (s, Action::Exit(s.code)),
        },
        Phase::AwaitInitialStatus => match e {
            Event::Flags(f) => if spec_is_up(f) {
                (
                    s.with_flags(spec_down_flags(f)).to(Phase::AwaitInitialDisable),
                    Action::Ioctl(IoctlRequest { request: SIOCSIFFLAGS, flags: spec_down_flags(f) }),
                )
            } else {
                (s.with_flags(f).to(Phase::AwaitInitialLog), Action::Log(Message::AlreadyDisabled))
            },
            Event::Failed(errno) => spec_fail(s, errno, DaemonError::ControllerStatusStart),
            _ => (s, Action::Exit(s.code)),
        },
        Phase::AwaitInitialDisable => spec_advance(
            s,
            e,
            Phase::AwaitInitialLog,
            Action::Log(Message::Disabling),
            DaemonError::InitialDisable,
        ),
        Phase::AwaitInitialLog => (s.to(Phase::AwaitRouteSocket), Action::OpenRouteSocket),
        Phase::AwaitRouteSocket => spec_advance(
            s,
            e,
            Phase::AwaitNonBlocking,
            Action::SetNonBlocking,
            DaemonError::ReadFDCreation,
        ),
        Phase::AwaitNonBlocking => spec_advance(
            s,
            e,
            Phase::AwaitKqueue,
            Action::CreateKqueue,
            DaemonError::ReadFDNonBlocking,
        ),
        Phase::AwaitKqueue => spec_advance(
            s,
            e,
            Phase::AwaitReadFd,
            Action::AddReadFd,
            DaemonError::KqueueFileDescriptor,
        ),
        Phase::AwaitReadFd => spec_advance(
            s,
            e,
            Phase::AwaitSigint,
            Action::AddSignal(SIGINT),
            DaemonError::AddReadFD,
        ),
        Phase::AwaitSigint => spec_advance(
            s,
            e,
            Phase::AwaitSigterm,
            Action::AddSignal(SIGTERM),
            DaemonError::AddSigint,
        ),
        Phase::AwaitSigterm => spec_advance(
            s,
            e,
            Phase::AwaitWatchingLog,
            Action::Log(Message::Watching),
            DaemonError::AddSigterm,
        ),
        Phase::AwaitWatchingLog => (s.to(Phase::AwaitPoll), Action::Poll),
        Phase::AwaitPoll => match e {
            Event::Polled { events, errno } => spec_dispatch(
                DaemonView { batch: events@, pos: 0, poll_errno: errno, ..s },
            ),
            Event::Failed(errno) => spec_fail(s, errno, DaemonError::Poll),
            _ => (s, Action::Exit(s.code)),
        },
        Phase::AwaitRead => match e {
            Event::Header(h) => (
                DaemonView {
                    latest: if spec_is_awdl(s.ctrl(), h) {
                        h.flags
                    } else {
                        s.latest
                    },
                    ..s
                },
                Action::ReadMessage,
            ),
            Event::ShortRead => (s, Action::ReadMessage),
            Event::Failed(errno) => if errno == EINTR {
                (s, Action::ReadMessage)
            } else if errno == EAGAIN {
                spec_drained(s)
            } else {
                spec_fail(s, errno, DaemonError::Read)
            },
            _ => (s, Action::Exit(s.code)),
        },
        Phase::AwaitLoopDisable => match e {
            Event::Failed(errno) => spec_fail(s, errno, DaemonError::Disable),
            _ => spec_dispatch(DaemonView { pos: s.pos + 1, ..s }),
        },
        Phase::AwaitFinalStatus => match e {
            Event::Flags(f) => if !spec_is_up(f) {
                (
                    s.with_flags(spec_up_flags(f)).to(Phase::AwaitReenable),
                    Action::Ioctl(IoctlRequest { request: SIOCSIFFLAGS, flags: spec_up_flags(f) }),
                )
            } else {
                (
                    DaemonView { phase: Phase::AwaitLastLog, code: 0, ..s.with_flags(f) },
                    Action::Log(Message::AlreadyReEnabled),
                )
            },
            Event::Failed(errno) => spec_fail(s, errno, DaemonError::ControllerStatusEnd),
            _ => (s, Action::Exit(s.code)),
        },
        Phase::AwaitReenable => match e {
            Event::Failed(errno) => spec_fail(s, errno, DaemonError::ReenableOnExit),
            _ => (
                DaemonView { phase: Phase::AwaitLastLog, code: 0, ..s },
                Action::Log(Message::ReEnabling),
            ),
        },
        Phase::AwaitLastLog => (s.to(Phase::AwaitExitLog), Action::Log(Message::Exiting)),
        Phase::AwaitExitLog => (s.to(Phase::Finished), Action::Exit(s.code)),
        Phase::Finished => (s, Action::Exit(s.code)),
    }
}

/// The daemon's decisions: it keeps `awdl0` down from start to exit and
/// brings it back up at exit. Its caller performs each returned action and
/// hands back the outcome.
pub struct Daemon {
    phase: Phase,
    controller: Option<AWDLController>,
    batch: Vec<KEvent>,
    pos: usize,
    latest: i32,
    poll_errno: i32,
    code: i32,
}

impl View for Daemon {
    type V = DaemonView;

    closed spec fn view(&self) -> DaemonView {
        DaemonView {
            phase: self.phase,
            controller: match self.controller {
                Some(c) => Some(c@),
                None => None,
            },
            batch: self.batch@,
            pos: self.pos as int,
            latest: self.latest,
            poll_errno: self.poll_errno,
            code: self.code,
        }
    }
}

impl Daemon {
    /// A daemon that has not started yet.
    pub fn new() -> (res: Daemon)
        ensures
            res@ == (DaemonView {
                phase: Phase::Start,
                controller: None,
                batch: Seq::empty(),
                pos: 0,
                latest: 0,
                poll_errno: 0,
                code: 0,
            }),
            res@.wf(),
    {
        Daemon {
            phase: Phase::Start,
            controller: None,
            batch: Vec::new(),
            pos: 0,
            latest: 0,
            poll_errno: 0,
            code: 0,
        }
    }

    /// The phase the daemon is in.
    pub fn phase(&self) -> (res: Phase)
        ensures
            res == self@.phase,
    {
        self.phase
    }

    /// Whether `event` is an outcome of the action the daemon waits on.
    pub fn accepts(&self, event: &Event) -> (res: bool)
        ensures
            res == spec_accepts(self@.phase, *event),
    {
        match self.phase {
            Phase::Start | Phase::AwaitInitialLog | Phase::AwaitWatchingLog
            | Phase::AwaitLastLog | Phase::AwaitExitLog => match event {
                Event::Done => true,
                _ => false,
            },
            Phase::AwaitUid => match event {
                Event::Uid(_) => true,
                _ => false,
            },
            Phase::AwaitIndex => match event {
                Event::Index { .. } => true,
                _ => false,
            },
            Phase::AwaitInitialStatus | Phase::AwaitFinalStatus => match event {
                Event::Flags(_) | Event::Failed(_) => true,
                _ => false,
            },
            Phase::AwaitPoll => match event {
                Event::Polled { .. } | Event::Failed(_) => true,
                _ => false,
            },
            Phase::AwaitRead => match event {
                Event::Header(_) | Event::ShortRead | Event::Failed(_) => true,
                _ => false,
            },
            Phase::Finished => true,
            _ => match event {
                Event::Done | Event::Failed(_) => true,
                _ => false,
            },
        }
    }

    fn fail(&mut self, errno: i32, d: DaemonError) -> (res: Action)
        ensures
            (final(self)@, res) == spec_fail(old(self)@, errno, d),
    {
        self.phase = Phase::AwaitLastLog;
        self.code = errno;
        Action::ReportError(Error::new(PosixError::from_raw(errno), d))
    }

    fn advance(&mut self, event: Event, next: Phase, action: Action, d: DaemonError) -> (res: Action)
        ensures
            (final(self)@, res) == spec_advance(old(self)@, event, next, action, d),
    {
        match event {
            Event::Failed(errno) => self.fail(errno, d),
            _ => {
                self.phase = next;
                action
            },
        }
    }

    fn final_status(&mut self) -> (res: Action)
        requires
            old(self).controller is Some,
        ensures
            (final(self)@, res) == spec_final_status(old(self)@),
    {
        self.phase = Phase::AwaitFinalStatus;
        let c = self.controller.unwrap();
        Action::Ioctl(c.status_request())
    }

    fn dispatch(&mut self) -> (res: Action)
        requires
            old(self).controller is Some,
            old(self).pos <= old(self).batch.len(),
        ensures
            (final(self)@, res) == spec_dispatch(old(self)@),
            final(self).controller is Some,
            final(self).pos <= final(self).batch.len(),
            (final(self)@.phase == Phase::AwaitRead || final(self)@.phase == Phase::AwaitLoopDisable)
                ==> final(self).pos < final(self).batch.len(),
    {
        let ghost s = self@;
        let len = self.batch.len();
        let mut i = self.pos;
        while i < len && event_kind(&self.batch[i]) == EventKind::Ignored
            invariant
                self@ == s,
                len == self.batch.len(),
                s.pos <= i <= len,
                spec_first_actionable(s.batch, s.pos) == spec_first_actionable(s.batch, i as int),
            decreases len - i,
        {
            i = i + 1;
        }
        self.pos = i;
        if i >= len {
            self.phase = Phase::AwaitPoll;
            return Action::Poll;
        }
        match event_kind(&self.batch[i]) {
            EventKind::StopSignal => self.final_status(),
            EventKind::UnknownSignal => {
                let errno = self.poll_errno;
                self.fail(errno, DaemonError::UnknownSignal)
            },
            _ => {
                self.phase = Phase::AwaitRead;
                self.latest = 0;
                Action::ReadMessage
            },
        }
    }

    fn drained(&mut self) -> (res: Action)
        requires
            old(self).controller is Some,
            old(self).pos < old(self).batch.len(),
        ensures
            (final(self)@, res) == spec_drained(old(self)@),
            final(self).controller is Some,
            final(self).pos <= final(self).batch.len(),
            (final(self)@.phase == Phase::AwaitRead || final(self)@.phase == Phase::AwaitLoopDisable)
                ==> final(self).pos < final(self).batch.len(),
    {
        if self.latest & 1 != 0 {
            let mut c = self.controller.unwrap();
            let flags = #[verifier::truncate] (self.latest as i16);
            let req = c.disable(flags);
            self.controller = Some(c);
            self.phase = Phase::AwaitLoopDisable;
            Action::Ioctl(req)
        } else {
            self.pos = self.pos + 1;
            self.dispatch()
        }
    }

    /// Takes the outcome `event` of the last action and returns the next
    /// action, as `spec_step` says.
    pub fn step(&mut self, event: Event) -> (res: Action)
        requires
            old(self)@.wf(),
            spec_accepts(old(self)@.phase, event),
        ensures
            final(self)@.wf(),
            (final(self)@, res) == spec_step(old(self)@, event),
    {
        match self.phase {
            Phase::Start => {
                self.phase = Phase::AwaitUid;
                Action::GetUid
            },
            Phase::AwaitUid => match event {
                Event::Uid(u) => {
                    if u == 0 {
                        self.phase = Phase::AwaitIoctlSocket;
                        Action::OpenIoctlSocket
                    } else {
                        self.phase = Phase::AwaitLastLog;
                        self.code = 1;
                        Action::Log(Message::RequiresRoot)
                    }
                },
                _ => Action::Exit(self.code),
            },
            Phase::AwaitIoctlSocket => self.advance(
                event,
                Phase::AwaitIndex,
                Action::LookupIndex,
                DaemonError::IoctlFDCreation,
            ),
            Phase::AwaitIndex => match event {
                Event::Index { index, errno } => match AWDLController::new(index, errno) {
                    Ok(c) => {
                        let req = c.status_request();
                        self.controller = Some(c);
                        self.phase = Phase::AwaitInitialStatus;
                        Action::Ioctl(req)
                    },
                    Err(e) => {
                        self.phase = Phase::AwaitLastLog;
                        self.code = errno;
                        Action::ReportError(e)
                    },
                },
                _ => Action::Exit(self.code),
            },
            Phase::AwaitInitialStatus => match event {
                Event::Flags(f) => {
                    let mut c = self.controller.unwrap();
                    match c.current_status(Ok(f)) {
                        Ok((true, current)) => {
                            let req = c.disable(current);
                            self.controller = Some(c);
                            self.phase = Phase::AwaitInitialDisable;
                            Action::Ioctl(req)
                        },
                        _ => {
                            self.controller = Some(c);
                            self.phase = Phase::AwaitInitialLog;
                            Action::Log(Message::AlreadyDisabled)
                        },
                    }
                },
                Event::Failed(errno) => self.fail(errno, DaemonError::ControllerStatusStart),
                _ => Action::Exit(self.code),
            },
            Phase::AwaitInitialDisable => self.advance(
                event,
                Phase::AwaitInitialLog,
                Action::Log(Message::Disabling),
                DaemonError::InitialDisable,
            ),
            Phase::AwaitInitialLog => {
                self.phase = Phase::AwaitRouteSocket;
                Action::OpenRouteSocket
            },
            Phase::AwaitRouteSocket => self.advance(
                event,
                Phase::AwaitNonBlocking,
                Action::SetNonBlocking,
                DaemonError::ReadFDCreation,
            ),
            Phase::AwaitNonBlocking => self.advance(
                event,
                Phase::AwaitKqueue,
                Action::CreateKqueue,
                DaemonError::ReadFDNonBlocking,
            ),
            Phase::AwaitKqueue => self.advance(
                event,
                Phase::AwaitReadFd,
                Action::AddReadFd,
                DaemonError::KqueueFileDescriptor,
            ),
            Phase::AwaitReadFd => self.advance(
                event,
                Phase::AwaitSigint,
                Action::AddSignal(SIGINT),
                DaemonError::AddReadFD,
            ),
            Phase::AwaitSigint => self.advance(
                event,
                Phase::AwaitSigterm,
                Action::AddSignal(SIGTERM),
                DaemonError::AddSigint,
            ),
            Phase::AwaitSigterm => self.advance(
                event,
                Phase::AwaitWatchingLog,
                Action::Log(Message::Watching),
                DaemonError::AddSigterm,
            ),
            Phase::AwaitWatchingLog => {
                self.phase = Phase::AwaitPoll;
                Action::Poll
            },
            Phase::AwaitPoll => match event {
                Event::Polled { events, errno } => {
                    self.batch = events;
                    self.pos = 0;
                    self.poll_errno = errno;
                    self.dispatch()
                },
                Event::Failed(errno) => self.fail(errno, DaemonError::Poll),
                _ => Action::Exit(self.code),
            },
            Phase::AwaitRead => match event {
                Event::Header(h) => {
                    let c = self.controller.unwrap();
                    if c.is_awdl(&h) {
                        self.latest = h.flags;
                    }
                    Action::ReadMessage
                },
                Event::ShortRead => Action::ReadMessage,
                Event::Failed(errno) => {
                    if errno == EINTR {
                        Action::ReadMessage
                    } else if errno == EAGAIN {
                        self.drained()
                    } else {
                        self.fail(errno, DaemonError::Read)
                    }
                },
                _ => Action::Exit(self.code),
            },
            Phase::AwaitLoopDisable => match event {
                Event::Failed(errno) => self.fail(errno, DaemonError::Disable),
                _ => {
                    assert(self.pos < self.batch.len());
                    self.pos = self.pos + 1;
                    self.dispatch()
                },
            },
            Phase::AwaitFinalStatus => match event {
                Event::Flags(f) => {
                    let mut c = self.controller.unwrap();
                    match c.current_status(Ok(f)) {
                        Ok((false, current)) => {
                            let req = c.enable(current);
                            self.controller = Some(c);
                            self.phase = Phase::AwaitReenable;
                            Action::Ioctl(req)
                        },
                        _ => {
                            self.controller = Some(c);
                            self.phase = Phase::AwaitLastLog;
                            self.code = 0;
                            Action::Log(Message::AlreadyReEnabled)
                        },
                    }
                },
                Event::Failed(errno) => self.fail(errno, DaemonError::ControllerStatusEnd),
                _ => Action::Exit(self.code),
            },
            Phase::AwaitReenable => match event {
                Event::Failed(errno) => self.fail(errno, DaemonError::ReenableOnExit),
                _ => {
                    self.phase = Phase::AwaitLastLog;
                    self.code = 0;
                    Action::Log(Message::ReEnabling)
                },
            },
            Phase::AwaitLastLog => {
                self.phase = Phase::AwaitExitLog;
                Action::Log(Message::Exiting)
            },
            Phase::AwaitExitLog => {
                self.phase = Phase::Finished;
                Action::Exit(self.code)
            },
            Phase::Finished => Action::Exit(self.code),
        }
    }
}

} // verus!
