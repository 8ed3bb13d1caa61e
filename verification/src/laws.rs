use vstd::prelude::*;

use crate::awdl_controller::{
    lemma_down_flags, lemma_down_up_round_trip, lemma_up_flags, spec_down_flags, spec_is_up,
    spec_up_flags, IfMsgHeader, IoctlRequest, SIOCGIFFLAGS, SIOCSIFFLAGS,
};
use crate::daemon::{
    spec_accepts, spec_first_actionable, spec_is_awdl, spec_step, Action, DaemonView, Event,
    Message, Phase, EAGAIN, EINTR,
};
use crate::error::Error;
use crate::event::{spec_event_kind, EventKind, KEvent};

verus! {

/// The state after the outcomes `es`, handed to the daemon one after the
/// other from state `s`.
pub open spec fn spec_run(s: DaemonView, es: Seq<Event>) -> DaemonView
    decreases es.len(),
{
    if es.len() == 0 {
        s
    } else {
        spec_step(spec_run(s, es.drop_last()), es.last()).0
    }
}

/// The flags of the last message in `es` that is a routing-message header
/// about the interface of `s`, or `init` when there is none.
pub open spec fn spec_last_awdl_flags(s: DaemonView, es: Seq<Event>, init: i32) -> i32
    decreases es.len(),
{
    if es.len() == 0 {
        init
    } else {
        match es.last() {
            Event::Header(h) => if spec_is_awdl(s.ctrl(), h) {
                h.flags
            } else {
                spec_last_awdl_flags(s, es.drop_last(), init)
            },
            _ => spec_last_awdl_flags(s, es.drop_last(), init),
        }
    }
}

/// Whether `e` is the outcome of a read that leaves more to read: a
/// message header, a short read, or an interrupted read.
pub open spec fn spec_is_pending_read(e: Event) -> bool {
    e is Header || e is ShortRead || e == Event::Failed(EINTR)
}

/// A daemon started by a user other than root logs that it needs root, logs
/// that it exits, and exits with status 1.
pub proof fn law_requires_root(s: DaemonView, uid: u32)
    requires
        s.phase == Phase::Start,
        uid != 0,
    ensures
        spec_step(s, Event::Done).1 == Action::GetUid,
        ({
            let s1 = spec_step(s, Event::Done).0;
            let s2 = spec_step(s1, Event::Uid(uid)).0;
            let s3 = spec_step(s2, Event::Done).0;
            &&& spec_step(s1, Event::Uid(uid)).1 == Action::Log(Message::RequiresRoot)
            &&& spec_step(s2, Event::Done).1 == Action::Log(Message::Exiting)
            &&& spec_step(s3, Event::Done).1 == Action::Exit(1)
        }),
{
}

/// Whenever the daemon reports a failure, it next logs that it exits and
/// then exits with the failure's `errno` value as its status.
pub proof fn law_failure_exits_with_errno(s: DaemonView, e: Event)
    requires
        s.wf(),
        spec_accepts(s.phase, e),
        spec_step(s, e).1 is ReportError,
    ensures
        ({
            let err = spec_step(s, e).1->ReportError_0;
            let s1 = spec_step(s, e).0;
            let s2 = spec_step(s1, Event::Done).0;
            &&& spec_step(s1, Event::Done).1 == Action::Log(Message::Exiting)
            &&& spec_step(s2, Event::Done).1 == Action::Exit(
                err.spec_posix_error().spec_code(),
            )
        }),
{
    broadcast use Error::lemma_with_code;

}

/// While the daemon runs, every flags-writing request it makes turns `awdl0`
/// down, and leaves the controller holding the flags written; the one
/// request that turns it up is the one made once a stop signal arrived.
pub proof fn law_only_down_while_running(s: DaemonView, e: Event)
    requires
        s.wf(),
        spec_accepts(s.phase, e),
        spec_step(s, e).1 is Ioctl,
        spec_step(s, e).1->Ioctl_0.request == SIOCSIFFLAGS,
    ensures
        spec_is_up(spec_step(s, e).1->Ioctl_0.flags) <==> s.phase == Phase::AwaitFinalStatus,
        spec_step(s, e).0.ctrl().flags == spec_step(s, e).1->Ioctl_0.flags,
{
    match e {
        Event::Flags(f) => {
            lemma_down_flags(f);
            lemma_up_flags(f);
        },
        _ => {},
    }
    lemma_down_flags(s.latest as i16);
    if s.phase == Phase::AwaitLoopDisable || s.phase == Phase::AwaitPoll {
        let s1 = match e {
            Event::Polled { events, errno } => DaemonView {
                batch: events@,
                pos: 0,
                poll_errno: errno,
                ..s
            },
            _ => DaemonView { pos: s.pos + 1, ..s },
        };
        lemma_dispatch_never_writes(s1);
    }
}

/// Handling a batch never writes the interface's flags: it polls, reads,
/// reads the flags, or reports a failure.
pub proof fn lemma_dispatch_never_writes(s: DaemonView)
    ensures
        !(crate::daemon::spec_dispatch(s).1 is Ioctl) || crate::daemon::spec_dispatch(s).1->Ioctl_0.request
            == SIOCGIFFLAGS,
{
}

/// What the daemon restores at exit is what it found at start: when `awdl0`
/// was up with flags `found`, the daemon turned it down to
/// `spec_down_flags(found)`; finding those flags at the exit check, it
/// writes back exactly `found`.
pub proof fn law_exit_restores_found_flags(s: DaemonView, found: i16)
    requires
        s.phase == Phase::AwaitFinalStatus,
        spec_is_up(found),
    ensures
        spec_step(s, Event::Flags(spec_down_flags(found))).1 == Action::Ioctl(
            IoctlRequest { request: SIOCSIFFLAGS, flags: found },
        ),
{
    lemma_down_flags(found);
    lemma_down_up_round_trip(found);
}

/// Events other than signals and reads are ignored: a polled batch made
/// only of them leads straight to the next poll.
pub proof fn law_ignored_events_poll_again(s: DaemonView, events: Vec<KEvent>, errno: i32)
    requires
        s.phase == Phase::AwaitPoll,
        forall|i: int|
            0 <= i < events@.len() ==> spec_event_kind(#[trigger] events@[i]) == EventKind::Ignored,
    ensures
        spec_step(s, Event::Polled { events, errno }).1 == Action::Poll,
        spec_step(s, Event::Polled { events, errno }).0.phase == Phase::AwaitPoll,
{
    lemma_all_ignored(events@, 0);
}

/// In a batch whose events from `pos` on are all ignored, no event at or
/// after `pos` needs handling.
pub proof fn lemma_all_ignored(batch: Seq<KEvent>, pos: int)
    requires
        0 <= pos <= batch.len(),
        forall|i: int| pos <= i < batch.len() ==> spec_event_kind(#[trigger] batch[i]) == EventKind::Ignored,
    ensures
        spec_first_actionable(batch, pos) == batch.len(),
    decreases batch.len() - pos,
{
    if pos < batch.len() {
        lemma_all_ignored(batch, pos + 1);
    }
}

/// A stop signal ends the watch, whatever follows it in its batch: the
/// daemon goes on to read the flags of `awdl0` for the exit check.
pub proof fn law_stop_signal_ends_watch(s: DaemonView, events: Vec<KEvent>, errno: i32)
    requires
        s.phase == Phase::AwaitPoll,
        events@.len() > 0,
        spec_event_kind(events@[0]) == EventKind::StopSignal,
    ensures
        spec_step(s, Event::Polled { events, errno }).0.phase == Phase::AwaitFinalStatus,
        spec_step(s, Event::Polled { events, errno }).1 == Action::Ioctl(
            IoctlRequest { request: SIOCGIFFLAGS, flags: s.ctrl().flags },
        ),
{
}

/// Reading routing messages: after any run of message headers, short reads
/// and interrupted reads, the daemon keeps reading, and remembers the flags
/// of the last message about `awdl0`, or 0 when none came; the rest of its
/// state is unchanged.
pub proof fn law_drain_remembers_last_awdl_flags(s: DaemonView, es: Seq<Event>)
    requires
        s.wf(),
        s.phase == Phase::AwaitRead,
        forall|i: int| 0 <= i < es.len() ==> spec_is_pending_read(#[trigger] es[i]),
    ensures
        spec_run(s, es) == (DaemonView { latest: spec_last_awdl_flags(s, es, s.latest), ..s }),
        es.len() > 0 ==> spec_step(spec_run(s, es.drop_last()), es.last()).1 == Action::ReadMessage,
    decreases es.len(),
{
    if es.len() > 0 {
        let prefix = es.drop_last();
        assert forall|i: int| 0 <= i < prefix.len() implies spec_is_pending_read(
            #[trigger] prefix[i],
        ) by {
            assert(prefix[i] == es[i]);
        }
        law_drain_remembers_last_awdl_flags(s, prefix);
        assert(spec_is_pending_read(es[es.len() - 1]));
    }
}

/// Once nothing is left to read, the daemon turns `awdl0` down when the last
/// message about it said that it is up, keeping its other flags.
pub proof fn law_drain_turns_awdl_down(s: DaemonView)
    requires
        s.wf(),
        s.phase == Phase::AwaitRead,
        s.latest & 1i32 != 0,
    ensures
        spec_step(s, Event::Failed(EAGAIN)).1 == Action::Ioctl(
            IoctlRequest { request: SIOCSIFFLAGS, flags: spec_down_flags(s.latest as i16) },
        ),
        !spec_is_up(spec_down_flags(s.latest as i16)),
        spec_step(s, Event::Failed(EAGAIN)).0.phase == Phase::AwaitLoopDisable,
{
    lemma_down_flags(s.latest as i16);
}

/// Stopping the daemon brings `awdl0` back up: after a stop signal, when the
/// exit check finds the interface down with flags `f`, the daemon writes `f`
/// with the up bit set, logs that it re-enabled `awdl0`, logs that it exits,
/// and exits with status 0.
pub proof fn law_stop_reenables_and_exits_cleanly(
    s: DaemonView,
    events: Vec<KEvent>,
    errno: i32,
    f: i16,
)
    requires
        s.phase == Phase::AwaitPoll,
        events@.len() > 0,
        spec_event_kind(events@[0]) == EventKind::StopSignal,
        !spec_is_up(f),
    ensures
        ({
            let s1 = spec_step(s, Event::Polled { events, errno }).0;
            let s2 = spec_step(s1, Event::Flags(f)).0;
            let s3 = spec_step(s2, Event::Done).0;
            let s4 = spec_step(s3, Event::Done).0;
            &&& spec_step(s1, Event::Flags(f)).1 == Action::Ioctl(
                IoctlRequest { request: SIOCSIFFLAGS, flags: spec_up_flags(f) },
            )
            &&& spec_is_up(spec_up_flags(f))
            &&& spec_step(s2, Event::Done).1 == Action::Log(Message::ReEnabling)
            &&& spec_step(s3, Event::Done).1 == Action::Log(Message::Exiting)
            &&& spec_step(s4, Event::Done).1 == Action::Exit(0)
        }),
{
    lemma_up_flags(f);
}

/// Starting the daemon turns `awdl0` down when it is up, keeping its other
/// flags, and leaves it alone when it is already down.
pub proof fn law_start_turns_awdl_down(s: DaemonView, f: i16)
    requires
        s.phase == Phase::AwaitInitialStatus,
    ensures
        spec_is_up(f) ==> spec_step(s, Event::Flags(f)).1 == Action::Ioctl(
            IoctlRequest { request: SIOCSIFFLAGS, flags: spec_down_flags(f) },
        ),
        !spec_is_up(f) ==> spec_step(s, Event::Flags(f)).1 == Action::Log(
            Message::AlreadyDisabled,
        ),
        !spec_is_up(spec_down_flags(f)),
        spec_down_flags(f) & !crate::awdl_controller::IFF_UP == f & !crate::awdl_controller::IFF_UP,
{
    lemma_down_flags(f);
}

/// The up bit (bit 0) alone says whether the interface is up; turning it
/// down clears bit 0 and keeps every other bit; turning it up sets bit 0
/// and keeps every other bit. This holds for every flags value, whatever
/// its other bits.
pub proof fn law_up_bit_alone_decides(f: i16)
    ensures
        spec_is_up(f) <==> (f & 1i16) == 1i16,
        spec_down_flags(f) & 1i16 == 0i16,
        spec_down_flags(f) | 1i16 == f | 1i16,
        spec_up_flags(f) & 1i16 == 1i16,
        spec_up_flags(f) & !1i16 == f & !1i16,
        (f & 1i16) == 1i16 ==> spec_down_flags(f) == f - 1,
        (f & 1i16) == 0i16 ==> spec_down_flags(f) == f && spec_up_flags(f) == f + 1,
{
    assert((f & 1i16 != 0i16) <==> (f & 1i16) == 1i16) by (bit_vector);
    assert((f & !1i16) & 1i16 == 0i16) by (bit_vector);
    assert((f & !1i16) | 1i16 == f | 1i16) by (bit_vector);
    assert((f | 1i16) & 1i16 == 1i16) by (bit_vector);
    assert((f | 1i16) & !1i16 == f & !1i16) by (bit_vector);
    assert((f & 1i16) == 1i16 ==> (f & !1i16) == f - 1) by (bit_vector);
    assert((f & 1i16) == 0i16 ==> (f & !1i16) == f && (f | 1i16) == f + 1) by (bit_vector);
}

/// At start the up bit alone decides: flags `f` with bit 0 set are written
/// back with bit 0 cleared (request `0x8020_6910`); flags with bit 0 clear
/// are left alone.
pub proof fn law_start_decides_by_up_bit(s: DaemonView, f: i16)
    requires
        s.phase == Phase::AwaitInitialStatus,
    ensures
        (f & 1i16) == 1i16 ==> spec_step(s, Event::Flags(f)).1 == Action::Ioctl(
            IoctlRequest { request: 0x8020_6910u64, flags: (f - 1) as i16 },
        ),
        (f & 1i16) == 0i16 ==> spec_step(s, Event::Flags(f)).1 == Action::Log(
            Message::AlreadyDisabled,
        ),
{
    law_up_bit_alone_decides(f);
}

/// At the exit check the up bit alone decides: flags `f` with bit 0 clear
/// are written back with bit 0 set (request `0x8020_6910`); flags with
/// bit 0 set are left alone and the daemon goes on to exit with status 0.
pub proof fn law_exit_decides_by_up_bit(s: DaemonView, f: i16)
    requires
        s.phase == Phase::AwaitFinalStatus,
    ensures
        (f & 1i16) == 0i16 ==> spec_step(s, Event::Flags(f)).1 == Action::Ioctl(
            IoctlRequest { request: 0x8020_6910u64, flags: (f + 1) as i16 },
        ),
        (f & 1i16) == 1i16 ==> spec_step(s, Event::Flags(f)).1 == Action::Log(
            Message::AlreadyReEnabled,
        ) && spec_step(s, Event::Flags(f)).0.code == 0,
{
    law_up_bit_alone_decides(f);
}

/// While reading routing messages, only an interface-status message
/// (type `0xe`, `RTM_IFINFO`) about the controller's interface index counts:
/// it makes its flags the remembered ones; every other header (another
/// message type, another interface) changes nothing. The daemon reads on
/// in either case.
pub proof fn law_only_ifinfo_about_awdl_counts(s: DaemonView, h: IfMsgHeader)
    requires
        s.wf(),
        s.phase == Phase::AwaitRead,
    ensures
        spec_step(s, Event::Header(h)).1 == Action::ReadMessage,
        (h.msg_type == 0xeu8 && h.index as u32 == s.ctrl().index) ==> spec_step(
            s,
            Event::Header(h),
        ).0 == (DaemonView { latest: h.flags, ..s }),
        (h.msg_type != 0xeu8 || h.index as u32 != s.ctrl().index) ==> spec_step(
            s,
            Event::Header(h),
        ).0 == s,
{
}

/// When reading ends (`EAGAIN`, 35) and the remembered flags have bit 0
/// clear, nothing is written and the daemon goes on with the next event of
/// the same batch: at the end of the batch it polls again; a stop signal
/// (filter `-6`, signal 2 or 15) next in the batch starts the exit check
/// (request `0xc020_6911`); a read event (filter `-1`) next starts reading
/// again.
pub proof fn law_drain_goes_on_with_batch(s: DaemonView)
    requires
        s.wf(),
        s.phase == Phase::AwaitRead,
        s.latest & 1i32 == 0i32,
    ensures
        spec_step(s, Event::Failed(35)) == crate::daemon::spec_dispatch(
            DaemonView { pos: s.pos + 1, ..s },
        ),
        s.pos + 1 == s.batch.len() ==> spec_step(s, Event::Failed(35)).0.phase == Phase::AwaitPoll
            && spec_step(s, Event::Failed(35)).1 == Action::Poll,
        (s.pos + 1 < s.batch.len() && s.batch[s.pos + 1].filter == -6i16 && (
        s.batch[s.pos + 1].ident as i32 == 2i32 || s.batch[s.pos + 1].ident as i32 == 15i32))
            ==> spec_step(s, Event::Failed(35)).0.phase == Phase::AwaitFinalStatus && spec_step(
            s,
            Event::Failed(35),
        ).1 == Action::Ioctl(IoctlRequest { request: 0xc020_6911u64, flags: s.ctrl().flags }),
        (s.pos + 1 < s.batch.len() && s.batch[s.pos + 1].filter == -1i16) ==> spec_step(
            s,
            Event::Failed(35),
        ).0.phase == Phase::AwaitRead && spec_step(s, Event::Failed(35)).0.pos == s.pos + 1
            && spec_step(s, Event::Failed(35)).1 == Action::ReadMessage,
{
    if s.pos + 1 < s.batch.len() {
        law_event_kind(s.batch[s.pos + 1]);
    }
}

/// Finding `awdl0`: any nonzero index is success, whatever `errno` holds
/// (a successful lookup leaves `errno` as it was): the daemon keeps the
/// index and reads the interface's flags (request `0xc020_6911`). An index
/// of 0 is the one failure: it is reported with `errno` and the daemon then
/// exits with `errno` as its status.
pub proof fn law_index_lookup(s: DaemonView, index: u32, errno: i32)
    requires
        s.phase == Phase::AwaitIndex,
    ensures
        index != 0 ==> spec_step(s, Event::Index { index, errno }).0.phase
            == Phase::AwaitInitialStatus && spec_step(s, Event::Index { index, errno }).0.ctrl().index
            == index && spec_step(s, Event::Index { index, errno }).1 == Action::Ioctl(
            IoctlRequest { request: 0xc020_6911u64, flags: 0 },
        ),
        index == 0 ==> spec_step(s, Event::Index { index, errno }).0.phase == Phase::AwaitLastLog
            && spec_step(s, Event::Index { index, errno }).0.code == errno && spec_step(
            s,
            Event::Index { index, errno },
        ).1 is ReportError && spec_step(s, Event::Index { index, errno }).1->ReportError_0.spec_posix_error().spec_code()
            == errno && spec_step(s, Event::Index { index, errno }).1->ReportError_0.spec_daemon_error()
            == crate::error::DaemonError::IndexLookup,
{
    broadcast use Error::lemma_with_code;

}

/// Classifying kernel events, by filter alone for every `ident`: a read
/// event (filter `-1`) is readable whatever descriptor it names; a signal
/// event (filter `-6`) stops the watch exactly for signals 2 (`SIGINT`) and
/// 15 (`SIGTERM`) and is an unknown signal otherwise; every other filter is
/// ignored.
pub proof fn law_event_kind(e: KEvent)
    ensures
        e.filter == -1i16 ==> spec_event_kind(e) == EventKind::Readable,
        e.filter == -6i16 ==> (spec_event_kind(e) == EventKind::StopSignal <==> (e.ident as i32
            == 2i32 || e.ident as i32 == 15i32)),
        e.filter == -6i16 ==> (spec_event_kind(e) == EventKind::StopSignal || spec_event_kind(e)
            == EventKind::UnknownSignal),
        (e.filter != -1i16 && e.filter != -6i16) ==> spec_event_kind(e) == EventKind::Ignored,
{
}

/// A batch that starts with a read event (filter `-1`, any descriptor) makes
/// the daemon read routing messages, starting afresh with no remembered
/// flags.
pub proof fn law_read_event_starts_reading(s: DaemonView, events: Vec<KEvent>, errno: i32)
    requires
        s.phase == Phase::AwaitPoll,
        events@.len() > 0,
        events@[0].filter == -1i16,
    ensures
        spec_step(s, Event::Polled { events, errno }).1 == Action::ReadMessage,
        spec_step(s, Event::Polled { events, errno }).0.phase == Phase::AwaitRead,
        spec_step(s, Event::Polled { events, errno }).0.pos == 0,
        spec_step(s, Event::Polled { events, errno }).0.latest == 0,
{
    law_event_kind(events@[0]);
}

} // verus!
