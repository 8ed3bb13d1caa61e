use awdl_disabler::awdl_controller::{IfMsgHeader, IoctlRequest, RTM_IFINFO, SIOCGIFFLAGS, SIOCSIFFLAGS};
use awdl_disabler::daemon::{Action, Daemon, Event, Message, Phase, EAGAIN, EINTR};
use awdl_disabler::error::{DaemonError, Error, PosixError};
use awdl_disabler::event::{KEvent, EVFILT_READ, EVFILT_SIGNAL, SIGINT, SIGTERM};

const INDEX: u32 = 9;

fn feed(d: &mut Daemon, e: Event) -> Action {
    assert!(d.accepts(&e));
    d.step(e)
}

fn err(code: i32, step: DaemonError) -> Action {
    Action::ReportError(Error::new(PosixError::from_raw(code), step))
}

fn get(flags: i16) -> Action {
    Action::Ioctl(IoctlRequest { request: SIOCGIFFLAGS, flags })
}

fn set(flags: i16) -> Action {
    Action::Ioctl(IoctlRequest { request: SIOCSIFFLAGS, flags })
}

fn awdl_header(flags: i32) -> Event {
    Event::Header(IfMsgHeader { msg_type: RTM_IFINFO, index: INDEX as u16, flags })
}

fn signal(sig: i32) -> KEvent {
    KEvent { ident: sig as usize, filter: EVFILT_SIGNAL }
}

fn readable() -> KEvent {
    KEvent { ident: 5, filter: EVFILT_READ }
}

/// Runs the daemon up to its first poll, with `awdl0` found with `flags`.
fn start_watching(flags: i16) -> Daemon {
    let mut d = Daemon::new();
    assert_eq!(feed(&mut d, Event::Done), Action::GetUid);
    assert_eq!(feed(&mut d, Event::Uid(0)), Action::OpenIoctlSocket);
    assert_eq!(feed(&mut d, Event::Done), Action::LookupIndex);
    assert_eq!(feed(&mut d, Event::Index { index: INDEX, errno: 0 }), get(0));
    if flags & 1 != 0 {
        assert_eq!(feed(&mut d, Event::Flags(flags)), set(flags & !1));
        assert_eq!(feed(&mut d, Event::Done), Action::Log(Message::Disabling));
    } else {
        assert_eq!(feed(&mut d, Event::Flags(flags)), Action::Log(Message::AlreadyDisabled));
    }
    assert_eq!(feed(&mut d, Event::Done), Action::OpenRouteSocket);
    assert_eq!(feed(&mut d, Event::Done), Action::SetNonBlocking);
    assert_eq!(feed(&mut d, Event::Done), Action::CreateKqueue);
    assert_eq!(feed(&mut d, Event::Done), Action::AddReadFd);
    assert_eq!(feed(&mut d, Event::Done), Action::AddSignal(SIGINT));
    assert_eq!(feed(&mut d, Event::Done), Action::AddSignal(SIGTERM));
    assert_eq!(feed(&mut d, Event::Done), Action::Log(Message::Watching));
    assert_eq!(feed(&mut d, Event::Done), Action::Poll);
    assert_eq!(d.phase(), Phase::AwaitPoll);
    d
}

fn finish(d: &mut Daemon, code: i32) {
    assert_eq!(feed(d, Event::Done), Action::Log(Message::Exiting));
    assert_eq!(feed(d, Event::Done), Action::Exit(code));
    assert_eq!(d.phase(), Phase::Finished);
    assert_eq!(feed(d, Event::Done), Action::Exit(code));
}

#[test]
fn non_root_exits_with_one() {
    let mut d = Daemon::new();
    assert_eq!(feed(&mut d, Event::Done), Action::GetUid);
    assert_eq!(feed(&mut d, Event::Uid(501)), Action::Log(Message::RequiresRoot));
    finish(&mut d, 1);
}

#[test]
fn full_run_disables_and_restores() {
    let found = 0x8863u16 as i16;
    let mut d = start_watching(found);
    // awdl0 comes back up; the daemon turns it down again.
    let batch = vec![readable()];
    assert_eq!(feed(&mut d, Event::Polled { events: batch, errno: 0 }), Action::ReadMessage);
    assert_eq!(feed(&mut d, awdl_header(0x8863)), Action::ReadMessage);
    assert_eq!(feed(&mut d, Event::Failed(EAGAIN)), set(0x8862u16 as i16));
    assert_eq!(feed(&mut d, Event::Done), Action::Poll);
    // SIGTERM: check and restore.
    let batch = vec![signal(SIGTERM)];
    assert_eq!(feed(&mut d, Event::Polled { events: batch, errno: 0 }), get(0x8862u16 as i16));
    assert_eq!(feed(&mut d, Event::Flags(0x8862u16 as i16)), set(found));
    assert_eq!(feed(&mut d, Event::Done), Action::Log(Message::ReEnabling));
    finish(&mut d, 0);
}

#[test]
fn already_down_at_start_and_up_at_exit() {
    let mut d = start_watching(0x0842);
    let batch = vec![signal(SIGINT)];
    assert_eq!(feed(&mut d, Event::Polled { events: batch, errno: 0 }), get(0x0842));
    assert_eq!(feed(&mut d, Event::Flags(0x0843)), Action::Log(Message::AlreadyReEnabled));
    finish(&mut d, 0);
}

#[test]
fn setup_failures_report_their_step() {
    let steps = [
        DaemonError::ReadFDCreation,
        DaemonError::ReadFDNonBlocking,
        DaemonError::KqueueFileDescriptor,
        DaemonError::AddReadFD,
        DaemonError::AddSigint,
        DaemonError::AddSigterm,
    ];
    for (k, step) in steps.iter().enumerate() {
        let mut d = Daemon::new();
        feed(&mut d, Event::Done);
        feed(&mut d, Event::Uid(0));
        feed(&mut d, Event::Done);
        feed(&mut d, Event::Index { index: INDEX, errno: 0 });
        feed(&mut d, Event::Flags(0));
        feed(&mut d, Event::Done);
        for _ in 0..k {
            feed(&mut d, Event::Done);
        }
        assert_eq!(feed(&mut d, Event::Failed(24)), err(24, *step));
        finish(&mut d, 24);
    }
}

#[test]
fn controller_failures_report_their_step() {
    let mut d = Daemon::new();
    feed(&mut d, Event::Done);
    feed(&mut d, Event::Uid(0));
    assert_eq!(feed(&mut d, Event::Failed(13)), err(13, DaemonError::IoctlFDCreation));
    finish(&mut d, 13);

    let mut d = Daemon::new();
    feed(&mut d, Event::Done);
    feed(&mut d, Event::Uid(0));
    feed(&mut d, Event::Done);
    assert_eq!(feed(&mut d, Event::Index { index: 0, errno: 6 }), err(6, DaemonError::IndexLookup));
    finish(&mut d, 6);

    let mut d = Daemon::new();
    feed(&mut d, Event::Done);
    feed(&mut d, Event::Uid(0));
    feed(&mut d, Event::Done);
    feed(&mut d, Event::Index { index: INDEX, errno: 0 });
    assert_eq!(feed(&mut d, Event::Failed(6)), err(6, DaemonError::ControllerStatusStart));
    finish(&mut d, 6);

    let mut d = Daemon::new();
    feed(&mut d, Event::Done);
    feed(&mut d, Event::Uid(0));
    feed(&mut d, Event::Done);
    feed(&mut d, Event::Index { index: INDEX, errno: 0 });
    feed(&mut d, Event::Flags(0x43));
    assert_eq!(feed(&mut d, Event::Failed(1)), err(1, DaemonError::InitialDisable));
    finish(&mut d, 1);
}

#[test]
fn exit_check_failures() {
    let mut d = start_watching(0);
    feed(&mut d, Event::Polled { events: vec![signal(SIGINT)], errno: 0 });
    assert_eq!(feed(&mut d, Event::Failed(6)), err(6, DaemonError::ControllerStatusEnd));
    finish(&mut d, 6);

    let mut d = start_watching(0);
    feed(&mut d, Event::Polled { events: vec![signal(SIGINT)], errno: 0 });
    feed(&mut d, Event::Flags(0));
    assert_eq!(feed(&mut d, Event::Failed(1)), err(1, DaemonError::ReenableOnExit));
    finish(&mut d, 1);
}

#[test]
fn poll_failure() {
    let mut d = start_watching(0);
    assert_eq!(feed(&mut d, Event::Failed(9)), err(9, DaemonError::Poll));
    finish(&mut d, 9);
}

#[test]
fn unknown_signal_is_a_failure() {
    let mut d = start_watching(0);
    let batch = vec![signal(1), signal(SIGINT)];
    assert_eq!(
        feed(&mut d, Event::Polled { events: batch, errno: 3 }),
        err(3, DaemonError::UnknownSignal)
    );
    finish(&mut d, 3);
}

#[test]
fn other_events_are_ignored() {
    let mut d = start_watching(0);
    let batch = vec![KEvent { ident: 4, filter: -2 }, KEvent { ident: 4, filter: -5 }];
    assert_eq!(feed(&mut d, Event::Polled { events: batch, errno: 0 }), Action::Poll);
    assert_eq!(feed(&mut d, Event::Polled { events: vec![], errno: 0 }), Action::Poll);
    let batch = vec![KEvent { ident: 4, filter: -2 }, signal(SIGINT)];
    assert_eq!(feed(&mut d, Event::Polled { events: batch, errno: 0 }), get(0));
}

#[test]
fn reads_retry_skip_and_fail() {
    let mut d = start_watching(0);
    feed(&mut d, Event::Polled { events: vec![readable()], errno: 0 });
    assert_eq!(feed(&mut d, Event::Failed(EINTR)), Action::ReadMessage);
    assert_eq!(feed(&mut d, Event::ShortRead), Action::ReadMessage);
    assert_eq!(feed(&mut d, Event::Failed(5)), err(5, DaemonError::Read));
    finish(&mut d, 5);
}

#[test]
fn last_awdl_message_decides() {
    let mut d = start_watching(0);
    let batch = vec![readable(), signal(SIGINT)];
    feed(&mut d, Event::Polled { events: batch, errno: 0 });
    // up, then down: the last message says down, nothing to do.
    assert_eq!(feed(&mut d, awdl_header(0x43)), Action::ReadMessage);
    assert_eq!(feed(&mut d, awdl_header(0x42)), Action::ReadMessage);
    // a message about another interface, or of another kind, does not count.
    let other = Event::Header(IfMsgHeader { msg_type: RTM_IFINFO, index: 3, flags: 0x43 });
    assert_eq!(feed(&mut d, other), Action::ReadMessage);
    let other = Event::Header(IfMsgHeader { msg_type: 0xc, index: INDEX as u16, flags: 0x43 });
    assert_eq!(feed(&mut d, other), Action::ReadMessage);
    // nothing left: go on to the signal after the read event.
    assert_eq!(feed(&mut d, Event::Failed(EAGAIN)), get(0));
}

#[test]
fn disable_failure_in_loop() {
    let mut d = start_watching(0);
    feed(&mut d, Event::Polled { events: vec![readable()], errno: 0 });
    feed(&mut d, awdl_header(0x43));
    assert_eq!(feed(&mut d, Event::Failed(EAGAIN)), set(0x42));
    assert_eq!(feed(&mut d, Event::Failed(16)), err(16, DaemonError::Disable));
    finish(&mut d, 16);
}

#[test]
fn read_events_start_afresh() {
    let mut d = start_watching(0);
    let batch = vec![readable(), readable()];
    feed(&mut d, Event::Polled { events: batch, errno: 0 });
    feed(&mut d, awdl_header(0x43));
    assert_eq!(feed(&mut d, Event::Failed(EAGAIN)), set(0x42));
    assert_eq!(feed(&mut d, Event::Done), Action::ReadMessage);
    // the second read event finds no awdl0 message: nothing to disable.
    assert_eq!(feed(&mut d, Event::Failed(EAGAIN)), Action::Poll);
}

#[test]
fn flags_beyond_sixteen_bits_are_truncated() {
    let mut d = start_watching(0);
    feed(&mut d, Event::Polled { events: vec![readable()], errno: 0 });
    feed(&mut d, awdl_header(0x1_0043));
    assert_eq!(feed(&mut d, Event::Failed(EAGAIN)), set(0x42));
}

#[test]
fn accepts_only_outcomes_of_the_pending_action() {
    let mut d = Daemon::new();
    assert!(d.accepts(&Event::Done));
    assert!(!d.accepts(&Event::Uid(0)));
    d.step(Event::Done);
    assert!(d.accepts(&Event::Uid(0)));
    assert!(!d.accepts(&Event::Done));
    assert!(!d.accepts(&Event::Failed(1)));
}

#[test]
fn message_texts() {
    assert_eq!(Message::Disabling.text(), "Disabling awdl0");
    assert_eq!(Message::AlreadyDisabled.text(), "awdl0 already disabled");
    assert_eq!(Message::Watching.text(), "Watching for awdl0 interface changes");
    assert_eq!(Message::ReEnabling.text(), "Re-enabling awdl0");
    assert_eq!(Message::AlreadyReEnabled.text(), "awdl0 already re-enabled");
    assert_eq!(Message::RequiresRoot.text(), "AWDLDaemon requires root");
    assert_eq!(Message::Exiting.text(), "AWDLDaemon exiting");
    assert!(Message::RequiresRoot.is_error());
    assert!(!Message::Exiting.is_error());
}
