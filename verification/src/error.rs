use vstd::prelude::*;

verus! {

/// An `errno` value reported by a failed system call.
#[derive(Debug, Clone, Copy, PartialEq, Eq, Structural)]
pub struct PosixError {
    inner: i32,
}

impl PosixError {
    /// Wraps a raw `errno` value.
    pub fn from_raw(code: i32) -> (res: PosixError)
        ensures
            res == PosixError::spec_from_raw(code),
            res.spec_code() == code,
    {
        PosixError { inner: code }
    }

    /// The error that holds `code`.
    pub closed spec fn spec_from_raw(code: i32) -> PosixError {
        PosixError { inner: code }
    }

    /// The raw `errno` value.
    pub closed spec fn spec_code(self) -> i32 {
        self.inner
    }

    /// An error is determined by its code, and holds the code it was made from.
    pub proof fn lemma_code_round_trip(code: i32, e: PosixError)
        ensures
            PosixError::spec_from_raw(code).spec_code() == code,
            PosixError::spec_from_raw(e.spec_code()) == e,
    {
    }

    /// Returns the raw `errno` value.
    pub fn code(&self) -> (res: i32)
        ensures
            res == self.spec_code(),
    {
        self.inner
    }
}

/// What went wrong in the daemon, one variant per step that can fail.
#[derive(Debug, Clone, Copy, PartialEq, Eq, Structural)]
pub enum DaemonError {
    IoctlFDCreation,
    IndexLookup,
    ReadFDCreation,
    ReadFDNonBlocking,
    KqueueFileDescriptor,
    AddReadFD,
    AddSigint,
    AddSigterm,
    Poll,
    Read,
    Disable,
    ControllerStatusStart,
    ControllerStatusEnd,
    InitialDisable,
    ReenableOnExit,
    UnknownSignal,
    UnknownEvent,
}

/// The text logged for each daemon error.
pub open spec fn spec_message(d: DaemonError) -> Seq<char> {
    match d {
        DaemonError::IoctlFDCreation => "Failed to create the ioctl file descriptor"@,
        DaemonError::IndexLookup => "Failed to lookup the index for awdl0"@,
        DaemonError::ReadFDCreation => "Failed to create the read file descriptor"@,
        DaemonError::ReadFDNonBlocking => "Failed to set read file descriptor to be non-blocking"@,
        DaemonError::KqueueFileDescriptor => "Failed to initialize kqueue"@,
        DaemonError::AddReadFD => "Failed to register for read events"@,
        DaemonError::AddSigint => "Failed to register SIGINT"@,
        DaemonError::AddSigterm => "Failed to register SIGTERM"@,
        DaemonError::Poll => "Error during polling"@,
        DaemonError::Read => "Failed to read route message"@,
        DaemonError::Disable => "Failed to disable awdl0"@,
        DaemonError::ControllerStatusStart => "Initial check for awdl0 status failed"@,
        DaemonError::ControllerStatusEnd => "Failed to check awdl0 status during exit"@,
        DaemonError::InitialDisable => "Error when first disabling awdl0"@,
        DaemonError::ReenableOnExit => "Error when re-enabling awdl0"@,
        DaemonError::UnknownSignal => "Received an event for an unknown signal"@,
        DaemonError::UnknownEvent => "Received an unknown event"@,
    }
}

/// Whether an `errno` value accompanies the daemon error: every error but
/// the two that no failed system call causes.
pub open spec fn spec_has_errno(d: DaemonError) -> bool {
    d != DaemonError::UnknownSignal && d != DaemonError::UnknownEvent
}

impl DaemonError {
    /// The text logged for this error.
    pub fn message(&self) -> (res: &'static str)
        ensures
            res@ == spec_message(*self),
    {
        match self {
            DaemonError::IoctlFDCreation => "Failed to create the ioctl file descriptor",
            DaemonError::IndexLookup => "Failed to lookup the index for awdl0",
            DaemonError::ReadFDCreation => "Failed to create the read file descriptor",
            DaemonError::ReadFDNonBlocking => "Failed to set read file descriptor to be non-blocking",
            DaemonError::KqueueFileDescriptor => "Failed to initialize kqueue",
            DaemonError::AddReadFD => "Failed to register for read events",
            DaemonError::AddSigint => "Failed to register SIGINT",
            DaemonError::AddSigterm => "Failed to register SIGTERM",
            DaemonError::Poll => "Error during polling",
            DaemonError::Read => "Failed to read route message",
            DaemonError::Disable => "Failed to disable awdl0",
            DaemonError::ControllerStatusStart => "Initial check for awdl0 status failed",
            DaemonError::ControllerStatusEnd => "Failed to check awdl0 status during exit",
            DaemonError::InitialDisable => "Error when first disabling awdl0",
            DaemonError::ReenableOnExit => "Error when re-enabling awdl0",
            DaemonError::UnknownSignal => "Received an event for an unknown signal",
            DaemonError::UnknownEvent => "Received an unknown event",
        }
    }
}

/// A failed step of the daemon together with the `errno` value read after it.
#[derive(Debug, Clone, Copy, PartialEq, Eq, Structural)]
pub struct Error {
    posix_error: PosixError,
    daemon_error: DaemonError,
}

impl Error {
    /// The error made of `posix_error` and `daemon_error`.
    pub closed spec fn spec_new(posix_error: PosixError, daemon_error: DaemonError) -> Error {
        Error { posix_error, daemon_error }
    }

    /// The `errno` part of the error.
    pub closed spec fn spec_posix_error(self) -> PosixError {
        self.posix_error
    }

    /// The step that failed.
    pub closed spec fn spec_daemon_error(self) -> DaemonError {
        self.daemon_error
    }

    /// The error built from `errno` value `code` and the failed step `d`.
    pub open spec fn spec_with_code(code: i32, d: DaemonError) -> Error {
        Error::spec_new(PosixError::spec_from_raw(code), d)
    }

    /// An error gives back the parts it was made of, and is determined by them.
    pub proof fn lemma_parts(p: PosixError, d: DaemonError, e: Error)
        ensures
            Error::spec_new(p, d).spec_posix_error() == p,
            Error::spec_new(p, d).spec_daemon_error() == d,
            Error::spec_new(e.spec_posix_error(), e.spec_daemon_error()) == e,
    {
    }

    /// An error built from a code and a step gives back both.
    pub broadcast proof fn lemma_with_code(code: i32, d: DaemonError)
        ensures
            #[trigger] Error::spec_with_code(code, d).spec_posix_error().spec_code() == code,
            Error::spec_with_code(code, d).spec_daemon_error() == d,
    {
    }

    /// Pairs an `errno` value with the step that failed.
    pub fn new(posix_error: PosixError, daemon_error: DaemonError) -> (res: Error)
        ensures
            res == Error::spec_new(posix_error, daemon_error),
            res.spec_posix_error() == posix_error,
            res.spec_daemon_error() == daemon_error,
    {
        Error { posix_error, daemon_error }
    }

    /// The `errno` part of the error.
    pub fn posix_error(&self) -> (res: PosixError)
        ensures
            res == self.spec_posix_error(),
    {
        self.posix_error
    }

    /// The step that failed.
    pub fn daemon_error(&self) -> (res: DaemonError)
        ensures
            res == self.spec_daemon_error(),
    {
        self.daemon_error
    }
}

/// What is logged for an error: its text, and the `errno` value where one
/// belongs to it.
pub struct ErrorLogEntry {
    pub message: &'static str,
    pub errno: Option<i32>,
}

/// Decides what is logged for `error`: the text of its step, with its
/// `errno` value unless the step is one that no system call made fail.
pub fn error_log_entry(error: &Error) -> (res: ErrorLogEntry)
    ensures
        res.message@ == spec_message(error.spec_daemon_error()),
        res.errno == (if spec_has_errno(error.spec_daemon_error()) {
            Some(error.spec_posix_error().spec_code())
        } else {
            None::<i32>
        }),
{
    let d = error.daemon_error();
    let message = d.message();
    let errno = match d {
        DaemonError::UnknownSignal | DaemonError::UnknownEvent => None,
        _ => Some(error.posix_error().code()),
    };
    ErrorLogEntry { message, errno }
}

} // verus!
