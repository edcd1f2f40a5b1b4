use std::time::{Duration, Instant};

use monoio::reactor_park::{reactor_parked_nanos, ParkScope, ReactorPark};

fn spend(span: Duration) {
    let start = Instant::now();
    while start.elapsed() < span {
        std::hint::spin_loop();
    }
}

/// Measures the spending of `span`.
fn measure(park: &mut ReactorPark, span: Duration) {
    let clock = Instant::now();
    let scope = ParkScope::new(clock.elapsed().as_nanos());
    spend(span);
    scope.close(clock.elapsed().as_nanos(), park);
}

#[test]
fn parked_nanos_starts_at_zero() {
    let park = ReactorPark::new();
    assert_eq!(reactor_parked_nanos(&park), 0);
}

#[test]
fn park_scope_accumulates_elapsed() {
    let mut park = ReactorPark::new();
    assert_eq!(reactor_parked_nanos(&park), 0);
    let before = reactor_parked_nanos(&park);
    measure(&mut park, Duration::from_millis(5));
    let after = reactor_parked_nanos(&park);
    assert!(
        after > before,
        "parked_nanos must increase after a park scope (before={before}, after={after})"
    );
    // 5ms == 5_000_000ns; assert we recorded at least a couple ms (not a no-op).
    assert!(
        after - before >= 2_000_000,
        "expected >= ~2ms recorded for a 5ms sleep, got {}ns",
        after - before
    );
}

#[test]
fn park_scope_accumulates_monotonically_across_parks() {
    let mut park = ReactorPark::new();
    measure(&mut park, Duration::from_millis(2));
    let one = reactor_parked_nanos(&park);
    measure(&mut park, Duration::from_millis(2));
    let two = reactor_parked_nanos(&park);
    assert!(
        two > one,
        "counter is monotonic across successive parks (one={one}, two={two})"
    );
}

#[test]
fn parks_add_up() {
    let mut park = ReactorPark::new();
    park.accumulate(1_500);
    park.accumulate(0);
    park.accumulate(2_500);
    assert_eq!(reactor_parked_nanos(&park), 4_000);
}

#[test]
fn counter_holds_at_the_largest_value() {
    let mut park = ReactorPark::new();
    park.accumulate(u64::MAX as u128 - 1);
    assert_eq!(reactor_parked_nanos(&park), u64::MAX - 1);
    park.accumulate(10);
    assert_eq!(reactor_parked_nanos(&park), u64::MAX);
    park.accumulate(10);
    assert_eq!(reactor_parked_nanos(&park), u64::MAX);
}

#[test]
fn readings_beyond_64_bits_keep_their_low_half() {
    let mut park = ReactorPark::new();
    park.accumulate((1u128 << 64) + 7);
    assert_eq!(reactor_parked_nanos(&park), 7);
}

#[test]
fn counter_grows_only_with_time() {
    let mut park = ReactorPark::new();
    park.accumulate(7);
    let before = reactor_parked_nanos(&park);
    assert_eq!(reactor_parked_nanos(&park), before);
    park.accumulate(0);
    assert_eq!(reactor_parked_nanos(&park), before);
    park.accumulate(2_000_000);
    assert_eq!(reactor_parked_nanos(&park), before + 2_000_000);
}

#[test]
fn scope_adds_the_time_since_it_was_opened() {
    let mut park = ReactorPark::new();
    ParkScope::new(1_000).close(1_750, &mut park);
    assert_eq!(reactor_parked_nanos(&park), 750);
    // No time passed.
    ParkScope::new(2_000).close(2_000, &mut park);
    assert_eq!(reactor_parked_nanos(&park), 750);
    // A clock that runs back adds nothing.
    ParkScope::new(3_000).close(2_999, &mut park);
    assert_eq!(reactor_parked_nanos(&park), 750);
    ParkScope::new(0).close(u128::from(u64::MAX), &mut park);
    assert_eq!(reactor_parked_nanos(&park), u64::MAX);
}
