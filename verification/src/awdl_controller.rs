use vstd::prelude::*;

use crate::error::{DaemonError, Error, PosixError};

verus! {

/// `IFF_UP` of `<net/if.h>`: the interface is up.
pub const IFF_UP: i16 = 0x1;

/// `RTM_IFINFO` of Darwin's `<net/route.h>`: a routing message that reports a
/// change in interface status.
pub const RTM_IFINFO: u8 = 0xe;

/// `SIOCGIFFLAGS`: the ioctl request that reads an interface's flags.
pub const SIOCGIFFLAGS: u64 = 0xc020_6911;

/// `SIOCSIFFLAGS`: the ioctl request that writes an interface's flags.
pub const SIOCSIFFLAGS: u64 = 0x8020_6910;

/// Whether interface flags `flags` say that the interface is up.
pub open spec fn spec_is_up(flags: i16) -> bool {
    flags & IFF_UP != 0
}

/// The flags `flags` with the up bit cleared.
pub open spec fn spec_down_flags(flags: i16) -> i16 {
    flags & !IFF_UP
}

/// The flags `flags` with the up bit set.
pub open spec fn spec_up_flags(flags: i16) -> i16 {
    flags | IFF_UP
}

/// The name `awdl0` as the NUL-padded 16-byte field of an `ifreq`.
pub open spec fn spec_interface_name() -> Seq<u8> {
    seq![
        0x61u8, 0x77u8, 0x64u8, 0x6cu8, 0x30u8, 0u8, 0u8, 0u8,
        0u8, 0u8, 0u8, 0u8, 0u8, 0u8, 0u8, 0u8,
    ]
}

/// Returns the interface name `awdl0` as the NUL-padded name field of an `ifreq`.
pub fn interface_name() -> (res: [u8; 16])
    ensures
        res@ == spec_interface_name(),
{
    [0x61, 0x77, 0x64, 0x6c, 0x30, 0, 0, 0, 0, 0, 0, 0, 0, 0, 0, 0]
}

/// Clearing the up bit yields flags of an interface that is down, and keeps
/// every other bit.
pub proof fn lemma_down_flags(flags: i16)
    ensures
        !spec_is_up(spec_down_flags(flags)),
        spec_down_flags(flags) & !IFF_UP == flags & !IFF_UP,
{
    assert((flags & !1i16) & 1i16 == 0i16) by (bit_vector);
    assert((flags & !1i16) & !1i16 == flags & !1i16) by (bit_vector);
}

/// Setting the up bit yields flags of an interface that is up, and keeps
/// every other bit.
pub proof fn lemma_up_flags(flags: i16)
    ensures
        spec_is_up(spec_up_flags(flags)),
        spec_up_flags(flags) & !IFF_UP == flags & !IFF_UP,
{
    assert((flags | 1i16) & 1i16 != 0i16) by (bit_vector);
    assert((flags | 1i16) & !1i16 == flags & !1i16) by (bit_vector);
}

/// Turning an interface that was up down and back up restores its flags
/// exactly; turning one that was down up and back down does too.
pub proof fn lemma_down_up_round_trip(flags: i16)
    ensures
        spec_is_up(flags) ==> spec_up_flags(spec_down_flags(flags)) == flags,
        !spec_is_up(flags) ==> spec_down_flags(spec_up_flags(flags)) == flags,
{
    assert((flags & 1i16) != 0i16 ==> ((flags & !1i16) | 1i16) == flags) by (bit_vector);
    assert((flags & 1i16) == 0i16 ==> ((flags | 1i16) & !1i16) == flags) by (bit_vector);
}

/// Clearing and setting the up bit are each idempotent, and each undoes
/// the other's effect on the up bit alone.
pub proof fn lemma_flags_idempotent(flags: i16)
    ensures
        spec_down_flags(spec_down_flags(flags)) == spec_down_flags(flags),
        spec_up_flags(spec_up_flags(flags)) == spec_up_flags(flags),
        spec_down_flags(spec_up_flags(flags)) == spec_down_flags(flags),
        spec_up_flags(spec_down_flags(flags)) == spec_up_flags(flags),
{
    assert((flags & !1i16) & !1i16 == flags & !1i16) by (bit_vector);
    assert((flags | 1i16) | 1i16 == flags | 1i16) by (bit_vector);
    assert((flags | 1i16) & !1i16 == flags & !1i16) by (bit_vector);
    assert((flags & !1i16) | 1i16 == flags | 1i16) by (bit_vector);
}

/// The fields of a routing-socket interface message (`if_msghdr`) that the
/// daemon reads.
#[derive(Debug, Clone, Copy, PartialEq, Eq, Structural)]
pub struct IfMsgHeader {
    /// `ifm_type`: the kind of routing message.
    pub msg_type: u8,
    /// `ifm_index`: the index of the interface the message is about.
    pub index: u16,
    /// `ifm_flags`: the interface's flags.
    pub flags: i32,
}

/// An interface-flags ioctl to perform on `awdl0`: the request code and the
/// flags held in the `ifreq` handed to it.
#[derive(Debug, Clone, Copy, PartialEq, Eq, Structural)]
pub struct IoctlRequest {
    pub request: u64,
    pub flags: i16,
}

/// The state of the `awdl0` controller: the interface index and the flags
/// field of the `ifreq` that its ioctls read and write.
#[derive(Clone, Copy)]
pub struct AWDLController {
    index: u32,
    flags: i16,
}

/// The controller as plain values.
pub struct ControllerView {
    pub index: u32,
    pub flags: i16,
}

impl View for AWDLController {
    type V = ControllerView;

    closed spec fn view(&self) -> ControllerView {
        ControllerView { index: self.index, flags: self.flags }
    }
}

impl AWDLController {
    /// Makes a controller for the interface with index `index`, as returned
    /// by the interface-name lookup; `errno` is the `errno` value read after
    /// that lookup. An index of 0 means the lookup failed.
    pub fn new(index: u32, errno: i32) -> (res: Result<AWDLController, Error>)
        ensures
            index == 0 <==> res is Err,
            res matches Err(e) ==> e == Error::spec_with_code(errno, DaemonError::IndexLookup),
            res matches Ok(c) ==> c@ == (ControllerView { index, flags: 0 }),
    {
        if index == 0 {
            return Err(Error::new(PosixError::from_raw(errno), DaemonError::IndexLookup));
        }
        Ok(AWDLController { index, flags: 0 })
    }

    /// The index of `awdl0`.
    pub fn index(&self) -> (res: u32)
        ensures
            res == self@.index,
    {
        self.index
    }

    /// The flags field of the controller's `ifreq`.
    pub fn flags(&self) -> (res: i16)
        ensures
            res == self@.flags,
    {
        self.flags
    }

    /// The ioctl that reads the interface's flags into the `ifreq`.
    pub fn status_request(&self) -> (res: IoctlRequest)
        ensures
            res == (IoctlRequest { request: SIOCGIFFLAGS, flags: self@.flags }),
    {
        IoctlRequest { request: SIOCGIFFLAGS, flags: self.flags }
    }

    /// Takes the outcome of the flags-reading ioctl: on success the `ifreq`
    /// holds the flags read, and the result says whether the interface is up
    /// and gives the flags; on failure the error is handed back and the
    /// `ifreq` is unchanged.
    pub fn current_status(&mut self, outcome: Result<i16, PosixError>) -> (res: Result<
        (bool, i16),
        PosixError,
    >)
        ensures
            final(self)@.index == old(self)@.index,
            match outcome {
                Ok(f) => {
                    &&& res == Ok::<(bool, i16), PosixError>((spec_is_up(f), f))
                    &&& final(self)@.flags == f
                },
                Err(e) => {
                    &&& res == Err::<(bool, i16), PosixError>(e)
                    &&& final(self)@.flags == old(self)@.flags
                },
            },
    {
        match outcome {
            Ok(f) => {
                self.flags = f;
                let is_up = (f & IFF_UP) != 0;
                Ok((is_up, f))
            },
            Err(e) => Err(e),
        }
    }

    /// Writes `flags` with the up bit cleared into the `ifreq`, and returns
    /// the ioctl that hands them to the interface.
    pub fn disable(&mut self, flags: i16) -> (res: IoctlRequest)
        ensures
            final(self)@.index == old(self)@.index,
            final(self)@.flags == spec_down_flags(flags),
            res == (IoctlRequest { request: SIOCSIFFLAGS, flags: spec_down_flags(flags) }),
    {
        self.set_flags(flags & !IFF_UP);
        IoctlRequest { request: SIOCSIFFLAGS, flags: self.get_flags() }
    }

    /// Writes `flags` with the up bit set into the `ifreq`, and returns the
    /// ioctl that hands them to the interface.
    pub fn enable(&mut self, flags: i16) -> (res: IoctlRequest)
        ensures
            final(self)@.index == old(self)@.index,
            final(self)@.flags == spec_up_flags(flags),
            res == (IoctlRequest { request: SIOCSIFFLAGS, flags: spec_up_flags(flags) }),
    {
        self.set_flags(flags | IFF_UP);
        IoctlRequest { request: SIOCSIFFLAGS, flags: self.get_flags() }
    }

    /// Whether a routing message reports a change in the status of `awdl0`.
    pub fn is_awdl(&self, header: &IfMsgHeader) -> (res: bool)
        ensures
            res == (header.msg_type == RTM_IFINFO && header.index as u32 == self@.index),
    {
        header.msg_type == RTM_IFINFO && header.index as u32 == self.index
    }

    fn get_flags(&self) -> (res: i16)
        ensures
            res == self@.flags,
    {
        self.flags
    }

    fn set_flags(&mut self, new_flags: i16)
        ensures
            final(self)@.index == old(self)@.index,
            final(self)@.flags == new_flags,
    {
        self.flags = new_flags;
    }
}

} // verus!
