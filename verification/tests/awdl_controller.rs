use awdl_disabler::awdl_controller::{
    interface_name, AWDLController, IfMsgHeader, IoctlRequest, IFF_UP, RTM_IFINFO, SIOCGIFFLAGS,
    SIOCSIFFLAGS,
};
use awdl_disabler::error::{DaemonError, PosixError};

#[test]
fn interface_name_is_awdl0() {
    let name = interface_name();
    assert_eq!(&name[..6], b"awdl0\0");
    assert!(name[5..].iter().all(|b| *b == 0));
}

#[test]
fn new_fails_on_index_zero() {
    match AWDLController::new(0, 6) {
        Err(e) => {
            assert_eq!(e.daemon_error(), DaemonError::IndexLookup);
            assert_eq!(e.posix_error().code(), 6);
        }
        Ok(_) => panic!("index 0 must fail"),
    }
}

#[test]
fn new_keeps_index() {
    let c = AWDLController::new(12, 0).ok().unwrap();
    assert_eq!(c.index(), 12);
    assert_eq!(c.flags(), 0);
    assert_eq!(c.status_request(), IoctlRequest { request: SIOCGIFFLAGS, flags: 0 });
}

#[test]
fn current_status_reports_up_bit() {
    let mut c = AWDLController::new(12, 0).ok().unwrap();
    assert_eq!(c.current_status(Ok(0x8843u16 as i16)), Ok((true, 0x8843u16 as i16)));
    assert_eq!(c.flags(), 0x8843u16 as i16);
    assert_eq!(c.current_status(Ok(0x0842)), Ok((false, 0x0842)));
    assert_eq!(c.flags(), 0x0842);
}

#[test]
fn current_status_passes_failure_on() {
    let mut c = AWDLController::new(12, 0).ok().unwrap();
    c.current_status(Ok(0x43)).unwrap();
    let e = PosixError::from_raw(6);
    assert_eq!(c.current_status(Err(e)), Err(e));
    assert_eq!(c.flags(), 0x43);
}

#[test]
fn disable_clears_only_the_up_bit() {
    let mut c = AWDLController::new(12, 0).ok().unwrap();
    let req = c.disable(0x8843u16 as i16);
    assert_eq!(req, IoctlRequest { request: SIOCSIFFLAGS, flags: 0x8842u16 as i16 });
    assert_eq!(c.flags(), 0x8842u16 as i16);
    assert_eq!(c.disable(0x0842).flags, 0x0842);
}

#[test]
fn enable_sets_only_the_up_bit() {
    let mut c = AWDLController::new(12, 0).ok().unwrap();
    let req = c.enable(0x0842);
    assert_eq!(req, IoctlRequest { request: SIOCSIFFLAGS, flags: 0x0843 });
    assert_eq!(c.flags(), 0x0843);
    assert_eq!(c.enable(-1).flags, -1);
    assert_eq!(c.index(), 12);
}

#[test]
fn enable_after_disable_restores_up_flags() {
    let mut c = AWDLController::new(12, 0).ok().unwrap();
    let found = 0x8863u16 as i16;
    let down = c.disable(found).flags;
    assert_eq!(down & IFF_UP, 0);
    assert_eq!(c.enable(down).flags, found);
}

#[test]
fn is_awdl_needs_ifinfo_and_index() {
    let c = AWDLController::new(12, 0).ok().unwrap();
    assert!(c.is_awdl(&IfMsgHeader { msg_type: RTM_IFINFO, index: 12, flags: 1 }));
    assert!(!c.is_awdl(&IfMsgHeader { msg_type: RTM_IFINFO, index: 13, flags: 1 }));
    assert!(!c.is_awdl(&IfMsgHeader { msg_type: 0x1, index: 12, flags: 1 }));
}

#[test]
fn ioctl_request_codes() {
    assert_eq!(SIOCGIFFLAGS, 0xc020_6911);
    assert_eq!(SIOCSIFFLAGS, 0x8020_6910);
    assert_eq!(IFF_UP, 1);
    assert_eq!(RTM_IFINFO, 0xe);
}

#[test]
fn disable_and_enable_are_idempotent() {
    let mut c = AWDLController::new(12, 0).ok().unwrap();
    for flags in [0i16, 1, 0x42, 0x43, -1, i16::MIN] {
        let once = c.disable(flags).flags;
        assert_eq!(c.disable(once).flags, once);
        let up = c.enable(flags).flags;
        assert_eq!(c.enable(up).flags, up);
        assert_eq!(c.disable(up).flags, once);
        assert_eq!(c.enable(once).flags, up);
        assert_eq!(once & !IFF_UP, flags & !IFF_UP);
        assert_eq!(up & !IFF_UP, flags & !IFF_UP);
    }
}
