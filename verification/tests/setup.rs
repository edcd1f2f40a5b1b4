use std::io;

use io_uring::IoUring;
use monoio::uring::entry::OsError;
use monoio::uring::setup::{
    build_uring, modern_flags_requested, BuildDo, BuildSeen, SetupFlags,
};

/// Builds a ring as the setting asks.
fn build(setting: Option<&str>, entries: u32) -> io::Result<IoUring> {
    let urb = IoUring::builder();
    let mut building = build_uring(setting);
    let mut last: Option<io::Result<IoUring>> = None;
    let mut action = building.action();
    loop {
        let seen = match action {
            BuildDo::Build(flags) => {
                let mut b = urb.clone();
                if flags.single_issuer {
                    b.setup_single_issuer();
                }
                if flags.coop_taskrun {
                    b.setup_coop_taskrun();
                }
                let built = b.build(entries);
                let outcome = match &built {
                    Ok(_) => Ok(()),
                    Err(e) => Err(OsError { code: e.raw_os_error() }),
                };
                last = Some(built);
                BuildSeen::Built(outcome)
            }
            BuildDo::MarkWarned => BuildSeen::WarnedBefore(true),
            BuildDo::Warn(_) => BuildSeen::Ack,
            BuildDo::Return(_) => return last.expect("a ring was built or refused"),
        };
        action = building.advance(seen);
    }
}

#[test]
fn modern_flags_requested_parses_truthy_and_falsy() {
    for v in ["1", "true", "TRUE", "Yes", "on", " on "] {
        assert!(modern_flags_requested(Some(v)), "{v:?} should be truthy");
    }
    for v in ["0", "false", "no", "off", "", "garbage"] {
        assert!(!modern_flags_requested(Some(v)), "{v:?} should be falsy");
    }
    assert!(!modern_flags_requested(None), "unset should default off");
}

#[test]
fn build_uring_vanilla_succeeds() {
    build(Some("0"), 256).expect("vanilla io_uring build must succeed");
}

#[test]
fn build_uring_modern_builds_or_falls_back() {
    build(Some("1"), 256)
        .expect("build_uring with modern flags must succeed or fall back, never error");
}

const EINVAL: OsError = OsError { code: Some(22) };
const ENOMEM: OsError = OsError { code: Some(12) };
const MODERN: SetupFlags = SetupFlags { single_issuer: true, coop_taskrun: true };
const VANILLA: SetupFlags = SetupFlags { single_issuer: false, coop_taskrun: false };

#[test]
fn supported_flags_build_at_once() {
    let mut b = build_uring(Some("yes"));
    assert_eq!(b.action(), BuildDo::Build(MODERN));
    assert_eq!(b.advance(BuildSeen::Built(Ok(()))), BuildDo::Return(Ok(())));
}

#[test]
fn refused_flags_are_reported_once_and_dropped() {
    let mut b = build_uring(Some("on"));
    assert_eq!(b.advance(BuildSeen::Built(Err(EINVAL))), BuildDo::MarkWarned);
    assert_eq!(b.advance(BuildSeen::WarnedBefore(false)), BuildDo::Warn(EINVAL));
    assert_eq!(b.advance(BuildSeen::Ack), BuildDo::Build(VANILLA));
    assert_eq!(b.advance(BuildSeen::Built(Ok(()))), BuildDo::Return(Ok(())));

    let mut b = build_uring(Some("on"));
    assert_eq!(b.advance(BuildSeen::Built(Err(EINVAL))), BuildDo::MarkWarned);
    assert_eq!(b.advance(BuildSeen::WarnedBefore(true)), BuildDo::Build(VANILLA));
    assert_eq!(b.advance(BuildSeen::Built(Err(ENOMEM))), BuildDo::Return(Err(ENOMEM)));
}

#[test]
fn plain_ring_is_built_in_one_attempt() {
    for setting in [None, Some("0"), Some("")] {
        let mut b = build_uring(setting);
        assert_eq!(b.action(), BuildDo::Build(VANILLA));
        assert_eq!(b.advance(BuildSeen::Built(Err(ENOMEM))), BuildDo::Return(Err(ENOMEM)));
    }
}

#[test]
fn interleaved_refusals_are_reported_once() {
    let mut first = build_uring(Some("1"));
    let mut second = build_uring(Some("1"));
    let mut noted = false;
    let mut reports = 0;
    assert_eq!(first.advance(BuildSeen::Built(Err(EINVAL))), BuildDo::MarkWarned);
    assert_eq!(second.advance(BuildSeen::Built(Err(EINVAL))), BuildDo::MarkWarned);
    for build in [&mut second, &mut first] {
        let before = std::mem::replace(&mut noted, true);
        if build.advance(BuildSeen::WarnedBefore(before)) == BuildDo::Warn(EINVAL) {
            reports += 1;
            build.advance(BuildSeen::Ack);
        }
        assert_eq!(build.action(), BuildDo::Build(VANILLA));
    }
    assert_eq!(reports, 1);
}
