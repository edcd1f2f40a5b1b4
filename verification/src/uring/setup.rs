//! How the ring is built.
//!
//! The modern setup flags cut the kernel's cost per completion on a busy
//! thread-per-core reactor: one suppresses the interrupt that would force-run
//! completion work, the other lets the kernel skip submitter locking. Kernels that
//! lack them refuse to build such a ring, so a refusal is answered by building a
//! plain one.

use vstd::prelude::*;

use crate::text::{is_truthy, truthy};
use crate::uring::entry::OsError;

verus! {

/// The setup flags of a ring.
#[derive(Clone, Copy, Debug, PartialEq, Eq, Structural)]
pub struct SetupFlags {
    /// Exactly one thread submits.
    pub single_issuer: bool,
    /// Completion work waits for the next entry into the kernel.
    pub coop_taskrun: bool,
}

/// What the building of a ring waits for.
#[derive(Clone, Copy, Debug, PartialEq, Eq)]
pub enum BuildDo {
    /// Build a ring with these flags on top of what the caller's builder sets.
    Build(SetupFlags),
    /// Note, for the whole process, that the fallback was reported.
    MarkWarned,
    /// Report that the flagged build failed and a plain one follows.
    Warn(OsError),
    /// The last ring built is the one to use, or building has failed.
    Return(Result<(), OsError>),
}

/// What an action brought.
#[derive(Clone, Copy, Debug, PartialEq, Eq)]
pub enum BuildSeen {
    /// The outcome of a build.
    Built(Result<(), OsError>),
    /// Whether the fallback had been reported before.
    WarnedBefore(bool),
    /// The action was carried out.
    Ack,
}

/// Where the building of a ring stands.
#[derive(Clone, Copy, Debug, PartialEq, Eq)]
pub enum BuildPhase {
    /// Building with the modern flags.
    Modern,
    /// That failed; is it news?
    Refused(OsError),
    /// It is.
    Warning(OsError),
    /// Building without them.
    Vanilla,
    /// Done.
    Over(Result<(), OsError>),
}

/// No flags.
pub open spec fn vanilla_flags() -> SetupFlags {
    SetupFlags { single_issuer: false, coop_taskrun: false }
}

/// The modern flags.
pub open spec fn modern_flags() -> SetupFlags {
    SetupFlags { single_issuer: true, coop_taskrun: true }
}

impl BuildPhase {
    /// Where building begins.
    pub open spec fn first(modern: bool) -> BuildPhase {
        if modern {
            BuildPhase::Modern
        } else {
            BuildPhase::Vanilla
        }
    }

    /// The one action building waits for.
    pub open spec fn action(self) -> BuildDo {
        match self {
            BuildPhase::Modern => BuildDo::Build(modern_flags()),
            BuildPhase::Refused(_) => BuildDo::MarkWarned,
            BuildPhase::Warning(e) => BuildDo::Warn(e),
            BuildPhase::Vanilla => BuildDo::Build(vanilla_flags()),
            BuildPhase::Over(outcome) => BuildDo::Return(outcome),
        }
    }

    /// Where building goes on seeing `seen`.
    pub open spec fn next(self, seen: BuildSeen) -> BuildPhase {
        match (self, seen) {
            (BuildPhase::Modern, BuildSeen::Built(Ok(_))) => BuildPhase::Over(Ok(())),
            (BuildPhase::Modern, BuildSeen::Built(Err(e))) => BuildPhase::Refused(e),
            (BuildPhase::Refused(e), BuildSeen::WarnedBefore(before)) => if before {
                BuildPhase::Vanilla
            } else {
                BuildPhase::Warning(e)
            },
            (BuildPhase::Warning(_), _) => BuildPhase::Vanilla,
            (BuildPhase::Vanilla, BuildSeen::Built(outcome)) => BuildPhase::Over(outcome),
            _ => self,
        }
    }
}

/// Whether `seen` is a possible answer to `action`.
pub open spec fn build_answers(action: BuildDo, seen: BuildSeen) -> bool {
    match action {
        BuildDo::Build(_) => seen is Built,
        BuildDo::MarkWarned => seen is WarnedBefore,
        BuildDo::Warn(_) => seen is Ack,
        BuildDo::Return(_) => false,
    }
}

/// Whether a setting asks for the modern flags: its text turns it on. Any other
/// text, an empty one, or no setting at all leaves them off.
pub fn modern_flags_requested(value: Option<&str>) -> (b: bool)
    ensures
        b == match value {
            Some(v) => truthy(v@),
            None => false,
        },
{
    match value {
        Some(v) => is_truthy(v),
        None => false,
    }
}

/// A ring being built.
#[derive(Debug)]
pub struct RingBuild {
    phase: BuildPhase,
}

/// Begins to build a ring, with the modern flags where the setting asks for them.
pub fn build_uring(setting: Option<&str>) -> (build: RingBuild)
    ensures
        build.spec_phase() == BuildPhase::first(
            match setting {
                Some(v) => truthy(v@),
                None => false,
            },
        ),
{
    if modern_flags_requested(setting) {
        RingBuild { phase: BuildPhase::Modern }
    } else {
        RingBuild { phase: BuildPhase::Vanilla }
    }
}

impl RingBuild {
    pub closed spec fn spec_phase(&self) -> BuildPhase {
        self.phase
    }

    /// The one action building waits for.
    pub fn action(&self) -> (action: BuildDo)
        ensures
            action == self.spec_phase().action(),
    {
        match self.phase {
            BuildPhase::Modern => BuildDo::Build(
                SetupFlags { single_issuer: true, coop_taskrun: true },
            ),
            BuildPhase::Refused(_) => BuildDo::MarkWarned,
            BuildPhase::Warning(e) => BuildDo::Warn(e),
            BuildPhase::Vanilla => BuildDo::Build(
                SetupFlags { single_issuer: false, coop_taskrun: false },
            ),
            BuildPhase::Over(outcome) => BuildDo::Return(outcome),
        }
    }

    /// Tells what the action brought, and gives the next action.
    pub fn advance(&mut self, seen: BuildSeen) -> (action: BuildDo)
        requires
            build_answers(old(self).spec_phase().action(), seen),
        ensures
            final(self).spec_phase() == old(self).spec_phase().next(seen),
            action == final(self).spec_phase().action(),
    {
        self.phase = match seen {
            BuildSeen::Built(built) => match (self.phase, built) {
                (BuildPhase::Modern, Ok(_)) => BuildPhase::Over(Ok(())),
                (BuildPhase::Modern, Err(e)) => BuildPhase::Refused(e),
                _ => BuildPhase::Over(built),
            },
            BuildSeen::WarnedBefore(before) => match self.phase {
                BuildPhase::Refused(e) => if before {
                    BuildPhase::Vanilla
                } else {
                    BuildPhase::Warning(e)
                },
                other => other,
            },
            BuildSeen::Ack => BuildPhase::Vanilla,
        };
        self.action()
    }
}

/// A ring that is asked for with the modern flags comes out with them where the
/// kernel takes them, and plain where it does not. Either way building fails only
/// if a plain ring cannot be built, and a refusal is reported only if it was not
/// reported before.
pub proof fn law_refused_flags_fall_back(
    flagged: Result<(), OsError>,
    warned_before: bool,
    bare: Result<(), OsError>,
)
    ensures
        ({
            let begun = BuildPhase::first(true);
            let tried = begun.next(BuildSeen::Built(flagged));
            &&& begun.action() == BuildDo::Build(modern_flags())
            &&& flagged is Ok ==> tried.action() == BuildDo::Return(Ok(()))
            &&& flagged matches Err(e) ==> {
                let marked = tried.next(BuildSeen::WarnedBefore(warned_before));
                let retried = if warned_before {
                    marked
                } else {
                    marked.next(BuildSeen::Ack)
                };
                &&& tried.action() == BuildDo::MarkWarned
                &&& !warned_before ==> marked.action() == BuildDo::Warn(e)
                &&& retried.action() == BuildDo::Build(vanilla_flags())
                &&& retried.next(BuildSeen::Built(bare)).action() == BuildDo::Return(bare)
            }
        }),
{
}

/// A ring that is not asked for with the modern flags is built plain, in one
/// attempt, and what that attempt brings is the result.
pub proof fn law_flags_off_builds_plain(bare: Result<(), OsError>)
    ensures
        BuildPhase::first(false).action() == BuildDo::Build(vanilla_flags()),
        BuildPhase::first(false).next(BuildSeen::Built(bare)).action() == BuildDo::Return(bare),
{
}

} // verus!
