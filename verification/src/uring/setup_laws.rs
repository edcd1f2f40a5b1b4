//! What holds of all the rings that a process builds.

use vstd::prelude::*;

use crate::uring::entry::OsError;
use crate::uring::setup::{build_answers, modern_flags, BuildDo, BuildPhase, BuildSeen, SetupFlags};

verus! {

/// One exchange of a build with the host.
pub struct BuildMoment {
    /// Which build it is.
    pub build: int,
    /// What its action brought.
    pub seen: BuildSeen,
}

/// The builds of one process, on whatever threads, with their exchanges in the
/// order in which these happen.
pub struct ProcessBuilds {
    /// Whether each build is asked for with the modern flags.
    pub modern: Seq<bool>,
    pub moments: Seq<BuildMoment>,
}

impl ProcessBuilds {
    /// Where a build stands after `k` exchanges.
    pub open spec fn phase(self, build: int, k: int) -> BuildPhase
        decreases k,
    {
        if k <= 0 {
            BuildPhase::first(self.modern[build])
        } else if self.moments[k - 1].build == build {
            self.phase(build, k - 1).next(self.moments[k - 1].seen)
        } else {
            self.phase(build, k - 1)
        }
    }

    /// The action that exchange `k` answers.
    pub open spec fn action(self, k: int) -> BuildDo {
        self.phase(self.moments[k].build, k).action()
    }

    pub open spec fn seen(self, k: int) -> BuildSeen {
        self.moments[k].seen
    }

    /// The process-wide note after `k` exchanges: whether the fallback was
    /// reported. It is off at first, and asking for it sets it.
    pub open spec fn noted(self, k: int) -> bool
        decreases k,
    {
        k > 0 && (self.noted(k - 1) || self.action(k - 1) is MarkWarned)
    }

    /// How many of the first `k` exchanges report the fallback.
    pub open spec fn reports(self, k: int) -> nat
        decreases k,
    {
        if k <= 0 {
            0
        } else {
            self.reports(k - 1) + if self.action(k - 1) is Warn { 1nat } else { 0nat }
        }
    }

    /// Whether exchange `k` is a refusal of the modern flags, with the error `e`.
    pub open spec fn refuses(self, k: int, e: OsError) -> bool {
        &&& self.action(k) == BuildDo::Build(modern_flags())
        &&& self.seen(k) == BuildSeen::Built(Err(e))
    }

    /// Whether the host answered every action, and told every build that asked
    /// what the process-wide note said at that moment.
    pub open spec fn valid(self) -> bool {
        forall|k: int|
            0 <= k < self.moments.len() ==> {
                &&& 0 <= (#[trigger] self.moments[k]).build < self.modern.len()
                &&& build_answers(self.action(k), self.seen(k))
                &&& self.action(k) is MarkWarned ==> self.seen(k) == BuildSeen::WarnedBefore(
                    self.noted(k),
                )
            }
    }

    /// Whether every build is over after `k` exchanges.
    pub open spec fn all_over(self, k: int) -> bool {
        forall|build: int|
            0 <= build < self.modern.len() ==> #[trigger] self.phase(build, k) is Over
    }
}

/// Whether a build of the process is about to report the fallback.
spec fn about_to_report(builds: ProcessBuilds, k: int) -> bool {
    exists|build: int|
        0 <= build < builds.modern.len() && #[trigger] builds.phase(build, k) is Warning
}

/// At any moment at most one build has reported the fallback or is about to, and
/// one has or is if the process-wide note is set.
spec fn one_reporter(builds: ProcessBuilds, k: int) -> bool {
    &&& builds.reports(k) <= 1
    &&& builds.noted(k) == (builds.reports(k) == 1 || about_to_report(builds, k))
    &&& builds.reports(k) == 1 ==> !about_to_report(builds, k)
    &&& forall|one: int, other: int|
        0 <= one < builds.modern.len() && 0 <= other < builds.modern.len()
            && #[trigger] builds.phase(one, k) is Warning && #[trigger] builds.phase(
            other,
            k,
        ) is Warning ==> one == other
}

proof fn lemma_one_reporter(builds: ProcessBuilds, k: int)
    requires
        builds.valid(),
        0 <= k <= builds.moments.len(),
    ensures
        one_reporter(builds, k),
    decreases k,
{
    if k > 0 {
        let before = k - 1;
        lemma_one_reporter(builds, before);
        let actor = builds.moments[before].build;
        assert(build_answers(builds.action(before), builds.seen(before)));
        assert forall|build: int| build != actor implies #[trigger] builds.phase(build, k)
            == builds.phase(build, before) by {}
        let was = builds.phase(actor, before);
        let is = builds.phase(actor, k);
        assert(is == was.next(builds.seen(before)));
        if was is Warning {
            assert(about_to_report(builds, before));
            assert forall|build: int| 0 <= build < builds.modern.len() implies !(
            #[trigger] builds.phase(build, k) is Warning) by {
                assert(!(builds.phase(build, before) is Warning) || build == actor);
            }
        } else if is is Warning {
            assert(was is Refused);
            assert(!builds.noted(before));
            assert forall|build: int| 0 <= build < builds.modern.len() && build
                != actor implies !(#[trigger] builds.phase(build, k) is Warning) by {
                assert(!(builds.phase(build, before) is Warning));
            }
        } else {
            assert forall|build: int| 0 <= build < builds.modern.len() implies (
            #[trigger] builds.phase(build, k) is Warning) == (builds.phase(build, before)
                is Warning) by {}
            if about_to_report(builds, before) {
                let build = choose|build: int|
                    0 <= build < builds.modern.len() && #[trigger] builds.phase(build, before)
                        is Warning;
                assert(builds.phase(build, k) is Warning);
            }
            if about_to_report(builds, k) {
                let build = choose|build: int|
                    0 <= build < builds.modern.len() && #[trigger] builds.phase(build, k)
                        is Warning;
                assert(builds.phase(build, before) is Warning);
            }
        }
    } else {
        assert(!about_to_report(builds, k));
    }
}

/// A build that has been refused and has not gone on to build plainly was refused
/// by one of its own exchanges.
proof fn lemma_refusal_is_its_own(builds: ProcessBuilds, build: int, e: OsError, k: int)
    requires
        builds.valid(),
        0 <= k <= builds.moments.len(),
        0 <= build < builds.modern.len(),
        builds.phase(build, k) == BuildPhase::Refused(e) || builds.phase(build, k)
            == BuildPhase::Warning(e),
    ensures
        exists|m: int|
            0 <= m < k && builds.moments[m].build == build && #[trigger] builds.refuses(m, e),
    decreases k,
{
    assert(k > 0);
    let before = k - 1;
    assert(builds.moments[before].build == build ==> build_answers(
        builds.action(before),
        builds.seen(before),
    ));
    if builds.phase(build, before) == BuildPhase::Modern {
        assert(builds.refuses(before, e));
    } else {
        lemma_refusal_is_its_own(builds, build, e, before);
    }
}

/// A refusal is noted, or its build is about to have it noted.
proof fn lemma_refusal_is_noted(builds: ProcessBuilds, m: int, e: OsError, k: int)
    requires
        builds.valid(),
        0 <= m < k <= builds.moments.len(),
        builds.refuses(m, e),
    ensures
        builds.noted(k) || builds.phase(builds.moments[m].build, k) == BuildPhase::Refused(e),
    decreases k,
{
    let before = k - 1;
    assert(build_answers(builds.action(before), builds.seen(before)));
    if m < before {
        lemma_refusal_is_noted(builds, m, e, before);
    }
}

/// The note is set only after a refusal.
proof fn lemma_note_has_a_cause(builds: ProcessBuilds, k: int)
    requires
        builds.valid(),
        0 <= k <= builds.moments.len(),
        builds.noted(k),
    ensures
        exists|m: int, e: OsError| 0 <= m < k && #[trigger] builds.refuses(m, e),
    decreases k,
{
    let before = k - 1;
    if builds.noted(before) {
        lemma_note_has_a_cause(builds, before);
    } else {
        let actor = builds.moments[before].build;
        assert(builds.action(before) is MarkWarned);
        if let BuildPhase::Refused(e) = builds.phase(actor, before) {
            lemma_refusal_is_its_own(builds, actor, e, before);
        }
    }
}

/// However many rings a process builds, on whatever threads, the fallback is never
/// reported twice; and once all of them are over it has been reported exactly once
/// if the flags were refused at all, and not otherwise.
pub proof fn law_fallback_is_reported_once(builds: ProcessBuilds)
    requires
        builds.valid(),
    ensures
        builds.reports(builds.moments.len() as int) <= 1,
        builds.all_over(builds.moments.len() as int) ==> (builds.reports(
            builds.moments.len() as int,
        ) == 1 <==> exists|m: int, e: OsError|
            0 <= m < builds.moments.len() && #[trigger] builds.refuses(m, e)),
{
    let end = builds.moments.len() as int;
    lemma_one_reporter(builds, end);
    if builds.all_over(end) {
        assert(!about_to_report(builds, end));
        if builds.noted(end) {
            lemma_note_has_a_cause(builds, end);
        }
        if exists|m: int, e: OsError| 0 <= m < end && #[trigger] builds.refuses(m, e) {
            let (m, e) = choose|m: int, e: OsError|
                0 <= m < end && #[trigger] builds.refuses(m, e);
            lemma_refusal_is_noted(builds, m, e, end);
            assert(builds.phase(builds.moments[m].build, end) is Over);
        }
    }
}

/// What is reported is a refusal that the reporting build itself met with.
pub proof fn law_reporter_was_refused(builds: ProcessBuilds, k: int, e: OsError)
    requires
        builds.valid(),
        0 <= k < builds.moments.len(),
        builds.action(k) == BuildDo::Warn(e),
    ensures
        exists|m: int|
            0 <= m < k && builds.moments[m].build == builds.moments[k].build
                && #[trigger] builds.refuses(m, e),
{
    lemma_refusal_is_its_own(builds, builds.moments[k].build, e, k);
}

/// A build that is asked for with the modern flags tries both of them together
/// first; once they are refused, and in a build that is not asked for with them,
/// none is set. A build is over after one that succeeded, and after a plain one in
/// any case.
pub proof fn law_flags_are_all_or_none(built: Result<(), OsError>, before: bool, e: OsError)
    ensures
        BuildPhase::first(true).action() == BuildDo::Build(
            (SetupFlags { single_issuer: true, coop_taskrun: true }),
        ),
        BuildPhase::first(false).action() == BuildDo::Build(
            (SetupFlags { single_issuer: false, coop_taskrun: false }),
        ),
        BuildPhase::first(true).next(BuildSeen::Built(built)).action() == match built {
            Ok(_) => BuildDo::Return(Ok(())),
            Err(_) => BuildDo::MarkWarned,
        },
        BuildPhase::first(false).next(BuildSeen::Built(built)).action() == BuildDo::Return(built),
        ({
            let refused = BuildPhase::first(true).next(BuildSeen::Built(Err(e)));
            let marked = refused.next(BuildSeen::WarnedBefore(before));
            let plain = if before {
                marked
            } else {
                marked.next(BuildSeen::Ack)
            };
            &&& !before ==> marked.action() == BuildDo::Warn(e)
            &&& plain.action() == BuildDo::Build(
                (SetupFlags { single_issuer: false, coop_taskrun: false }),
            )
            &&& plain.next(BuildSeen::Built(built)).action() == BuildDo::Return(built)
        }),
{
}

} // verus!
