//! The error numbers the driver acts on.

use vstd::prelude::*;

use crate::uring::entry::OsError;

verus! {

/// Reads `libc::EAGAIN`, which is 11 on every Linux target.
#[verifier::external_body]
fn libc_eagain() -> (code: i32)
    ensures
        code == 11,
{
    libc::EAGAIN
}

/// Reads `libc::EBUSY`, which is 16 on every Linux target.
#[verifier::external_body]
fn libc_ebusy() -> (code: i32)
    ensures
        code == 16,
{
    libc::EBUSY
}

/// Reads `libc::ETIME`, which is 73 on SPARC targets and 62 on
/// every other Linux target.
#[verifier::external_body]
fn libc_etime() -> (code: i32)
    ensures
        code == 62 || code == 73,
{
    libc::ETIME
}

/// The platform's error numbers.
#[derive(Clone, Copy, Debug, PartialEq, Eq, Structural)]
pub struct Errnos {
    /// Try again.
    pub again: i32,
    /// Device or resource busy.
    pub busy: i32,
    /// Timer expired.
    pub time: i32,
}

impl Errnos {
    /// The error numbers of the platform this was built for.
    pub fn native() -> (e: Errnos)
        ensures
            e.again == 11,
            e.busy == 16,
            e.time == 62 || e.time == 73,
    {
        Errnos { again: libc_eagain(), busy: libc_ebusy(), time: libc_etime() }
    }

    /// Whether `e` says that the ring could not take the submission just now.
    pub open spec fn says_retry(self, e: OsError) -> bool {
        e.code == Some(self.again) || e.code == Some(self.busy)
    }

    /// Whether `e` says that a bounded wait ran out.
    pub open spec fn says_expired(self, e: OsError) -> bool {
        e.code == Some(self.time)
    }

    /// Whether `e` says that the ring could not take the submission just now.
    pub fn is_retry(&self, e: &OsError) -> (b: bool)
        ensures
            b == self.says_retry(*e),
            b <==> (e.code matches Some(code) && (code == self.again || code == self.busy)),
    {
        match e.code {
            Some(code) => code == self.again || code == self.busy,
            None => false,
        }
    }

    /// Whether `e` says that a bounded wait ran out.
    pub fn is_expired(&self, e: &OsError) -> (b: bool)
        ensures
            b == self.says_expired(*e),
            b <==> (e.code matches Some(code) && code == self.time),
    {
        match e.code {
            Some(code) => code == self.time,
            None => false,
        }
    }
}

} // verus!
