//! Ring entries as plain values: what is submitted, what completes, and the
//! tokens that tell completions apart.

use vstd::prelude::*;

verus! {

/// Token of a cancellation request.
pub const CANCEL_USERDATA: u64 = 0xffff_ffff_ffff_ffff;

/// Token of the timeout that bounds a park.
pub const TIMEOUT_USERDATA: u64 = 0xffff_ffff_ffff_fffe;

/// Token of the read that lets another thread end a park.
pub const EVENTFD_USERDATA: u64 = 0xffff_ffff_ffff_fffd;

/// Token of the readiness poller.
pub const POLLER_USERDATA: u64 = 0xffff_ffff_ffff_fffc;

/// The lowest token that does not name an operation.
pub const MIN_REVERSED_USERDATA: u64 = 0xffff_ffff_ffff_fffc;

/// The optional parts of the driver.
#[derive(Clone, Copy, Debug, PartialEq, Eq, Structural)]
pub struct Features {
    /// Other threads may wake this one.
    pub sync: bool,
    /// A readiness poller is attached to the ring.
    pub poll_io: bool,
    /// Dropping an operation in flight cancels it.
    pub async_cancel: bool,
    /// Whether a failed submission is to be tried again is told by the kind of its
    /// error, not by its error number.
    pub unstable: bool,
}

/// A failed system call, by its error number where it has one.
#[derive(Clone, Copy, Debug, PartialEq, Eq, Structural)]
pub struct OsError {
    pub code: Option<i32>,
}

/// The kind of a failed submission, as far as the driver tells kinds apart.
#[derive(Clone, Copy, Debug, PartialEq, Eq, Structural)]
pub enum FailureKind {
    /// A resource is busy.
    ResourceBusy,
    /// None of the kinds that have a name.
    Other,
    /// Any other kind.
    Unrelated,
}

/// A failed submission.
#[derive(Clone, Copy, Debug, PartialEq, Eq, Structural)]
pub struct SubmitError {
    pub error: OsError,
    pub kind: FailureKind,
}

/// A span of time as the ring takes it.
#[derive(Clone, Copy, Debug, PartialEq, Eq, Structural)]
pub struct Timespec {
    pub sec: u64,
    pub nsec: u32,
}

/// A completion queue entry.
#[derive(Clone, Copy, Debug, PartialEq, Eq, Structural)]
pub struct Cqe {
    pub user_data: u64,
    pub result: i32,
    pub flags: u32,
}

/// A submission queue entry, by what it asks for.
#[derive(Clone, Copy, Debug, PartialEq, Eq, Structural)]
pub enum Sqe {
    /// Read the eight bytes of the wake-up eventfd.
    ReadEventfd,
    /// Wait for the readiness poller.
    PollPoller,
    /// Complete after a while.
    Timeout(Timespec),
    /// Cancel the operation with this token.
    AsyncCancel(u64),
    /// Run the operation with this index.
    Operation(usize),
}

impl Sqe {
    /// The token the entry's completion carries.
    pub open spec fn token(self) -> u64 {
        match self {
            Sqe::ReadEventfd => EVENTFD_USERDATA,
            Sqe::PollPoller => POLLER_USERDATA,
            Sqe::Timeout(_) => TIMEOUT_USERDATA,
            Sqe::AsyncCancel(_) => CANCEL_USERDATA,
            Sqe::Operation(index) => index as u64,
        }
    }

    /// The token to put on the entry.
    pub fn user_data(&self) -> (token: u64)
        ensures
            token == self.token(),
            match *self {
                Sqe::AsyncCancel(_) => token == 0xffff_ffff_ffff_ffff,
                Sqe::Timeout(_) => token == 0xffff_ffff_ffff_fffe,
                Sqe::ReadEventfd => token == 0xffff_ffff_ffff_fffd,
                Sqe::PollPoller => token == 0xffff_ffff_ffff_fffc,
                Sqe::Operation(index) => token == index,
            },
    {
        match self {
            Sqe::ReadEventfd => EVENTFD_USERDATA,
            Sqe::PollPoller => POLLER_USERDATA,
            Sqe::Timeout(_) => TIMEOUT_USERDATA,
            Sqe::AsyncCancel(_) => CANCEL_USERDATA,
            Sqe::Operation(index) => *index as u64,
        }
    }
}

/// The fill level of the submission queue at some moment.
#[derive(Clone, Copy, Debug, PartialEq, Eq, Structural)]
pub struct SqLevel {
    pub len: usize,
    pub capacity: usize,
}

impl SqLevel {
    /// Whether `need` more entries would overflow the queue.
    pub open spec fn lacks(self, need: nat) -> bool {
        self.len + need > self.capacity
    }

    /// Whether the queue is full.
    pub fn is_full(&self) -> (b: bool)
        ensures
            b == (self.len == self.capacity),
    {
        self.len == self.capacity
    }
}

/// What a completion's result number says: a count, or the error it negates.
pub open spec fn outcome_of(result: i32) -> Result<u32, OsError> {
    if result >= 0 {
        Ok(result as u32)
    } else {
        Err(OsError { code: Some((-result) as i32) })
    }
}

/// Splits a completion's result number into success and error.
pub fn resultify(cqe: &Cqe) -> (r: Result<u32, OsError>)
    requires
        cqe.result > i32::MIN,
    ensures
        r == outcome_of(cqe.result),
        cqe.result >= 0 <==> r is Ok,
        r matches Ok(count) ==> count == cqe.result,
        r matches Err(e) ==> (e.code matches Some(code) && code == -cqe.result),
{
    let res: i32 = cqe.result;
    if res >= 0 {
        Ok(res as u32)
    } else {
        Err(OsError { code: Some(-res) })
    }
}

} // verus!
