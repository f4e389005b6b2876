use axvisor_api::time::{
    current_time, current_time_nanos, nanos_to_time, ticks_to_time, time_to_nanos, time_to_ticks,
    CancelToken, Nanos, Ticks, TimeIf, TimeValue,
};
use core::time::Duration;
use std::sync::atomic::{AtomicU64, Ordering};
use std::sync::Arc;

struct TenNanosPerTick;

impl TimeIf for TenNanosPerTick {
    fn current_ticks() -> Ticks {
        42
    }

    fn ticks_to_nanos(ticks: Ticks) -> Nanos {
        ticks * 10
    }

    fn nanos_to_ticks(nanos: Nanos) -> Ticks {
        nanos / 10
    }

    fn register_timer<F: FnOnce(TimeValue) + Send + 'static>(
        deadline: TimeValue,
        callback: Box<F>,
    ) -> CancelToken {
        callback(deadline);
        7
    }

    fn cancel_timer(_token: CancelToken) {}
}

#[test]
fn current_time_nanos_converts_the_current_ticks() {
    assert_eq!(current_time_nanos::<TenNanosPerTick>(), 420);
}

#[test]
fn current_time_is_the_duration_of_the_current_nanos() {
    assert_eq!(current_time::<TenNanosPerTick>(), Duration::from_nanos(420));
}

#[test]
fn ticks_to_time_converts_through_nanos() {
    assert_eq!(ticks_to_time::<TenNanosPerTick>(150), Duration::new(0, 1_500));
    assert_eq!(
        ticks_to_time::<TenNanosPerTick>(200_000_000),
        Duration::new(2, 0)
    );
}

#[test]
fn time_to_ticks_converts_through_nanos() {
    assert_eq!(time_to_ticks::<TenNanosPerTick>(Duration::new(3, 70)), 300_000_007);
}

#[test]
fn nanos_to_time_is_the_duration_of_that_many_nanoseconds() {
    assert_eq!(nanos_to_time(0), Duration::ZERO);
    assert_eq!(nanos_to_time(1_500_000_000), Duration::new(1, 500_000_000));
    assert_eq!(
        nanos_to_time(u64::MAX),
        Duration::new(18_446_744_073, 709_551_615)
    );
}

#[test]
fn time_to_nanos_counts_all_nanoseconds() {
    assert_eq!(time_to_nanos(Duration::ZERO), 0);
    assert_eq!(time_to_nanos(Duration::new(2, 5)), 2_000_000_005);
    assert_eq!(
        time_to_nanos(Duration::new(18_446_744_073, 709_551_615)),
        u64::MAX
    );
}

#[test]
fn time_to_nanos_keeps_the_low_64_bits_of_a_long_time() {
    assert_eq!(time_to_nanos(Duration::new(18_446_744_073, 709_551_616)), 0);
    assert_eq!(time_to_nanos(Duration::new(18_446_744_074, 0)), 290_448_384);
}

#[test]
fn time_to_ticks_converts_the_low_64_bits_of_a_long_time() {
    assert_eq!(
        time_to_ticks::<TenNanosPerTick>(Duration::new(18_446_744_074, 0)),
        29_044_838
    );
}

#[test]
fn a_registered_callback_receives_the_time() {
    let seen = Arc::new(AtomicU64::new(0));
    let sink = seen.clone();
    let token = TenNanosPerTick::register_timer(
        Duration::from_nanos(77),
        Box::new(move |at: TimeValue| sink.store(at.as_nanos() as u64, Ordering::SeqCst)),
    );
    assert_eq!(token, 7);
    assert_eq!(seen.load(Ordering::SeqCst), 77);
    TenNanosPerTick::cancel_timer(token);
}
