//! Time and timers.
//!
//! The host supplies the operations of [`TimeIf`]; the functions below combine
//! them. The implementation is chosen by the type parameter, so the choice is
//! made when the program is built and costs nothing when it runs.

use core::time::Duration;
use vstd::prelude::*;

verus! {

/// A point in time, or a span of it.
pub type TimeValue = Duration;

/// A count of nanoseconds.
pub type Nanos = u64;

/// A value of the hardware's tick counter.
pub type Ticks = u64;

/// Names a registered timer, to cancel it.
pub type CancelToken = usize;

/// The nanoseconds that a duration holds in all.
pub uninterp spec fn duration_nanos(duration: Duration) -> nat;

/// `Duration::from_nanos`: the duration of that many nanoseconds.
pub assume_specification[ Duration::from_nanos ](nanos: u64) -> (duration: Duration)
    ensures
        duration_nanos(duration) == nanos,
;

/// `Duration::as_nanos`: the total number of nanoseconds that the duration
/// holds.
pub assume_specification[ Duration::as_nanos ](duration: &Duration) -> (nanos: u128)
    ensures
        nanos == duration_nanos(*duration),
;

/// The operations on time that the host supplies.
pub trait TimeIf {
    /// The tick counter's value now.
    fn current_ticks() -> Ticks;

    /// Converts a tick count to nanoseconds.
    fn ticks_to_nanos(ticks: Ticks) -> Nanos;

    /// Converts nanoseconds to a tick count.
    fn nanos_to_ticks(nanos: Nanos) -> Ticks;

    /// Registers a timer that calls `callback` at `deadline` with the time at
    /// which it fired.
    fn register_timer<F: FnOnce(TimeValue) + Send + 'static>(
        deadline: TimeValue,
        callback: Box<F>,
    ) -> CancelToken;

    /// Cancels a timer that has not fired yet.
    fn cancel_timer(token: CancelToken);
}

/// The low 64 bits of a count of nanoseconds.
pub open spec fn low_nanos(nanos: nat) -> Nanos {
    (nanos % 0x1_0000_0000_0000_0000) as Nanos
}

/// The duration of `nanos` nanoseconds.
pub fn nanos_to_time(nanos: Nanos) -> (time: TimeValue)
    ensures
        duration_nanos(time) == nanos,
{
    Duration::from_nanos(nanos)
}

/// The nanoseconds of `time`, cut to their low 64 bits.
pub fn time_to_nanos(time: TimeValue) -> (nanos: Nanos)
    ensures
        nanos == low_nanos(duration_nanos(time)),
{
    let total: u128 = time.as_nanos();
    let low: u64 = #[verifier::truncate] (total as u64);
    assert(low == total % 0x1_0000_0000_0000_0000) by (bit_vector)
        requires
            low == total as u64,
    ;
    low
}

/// The time now, in nanoseconds: what the host makes of the tick count that it
/// reports.
pub fn current_time_nanos<I: TimeIf>() -> (nanos: Nanos)
    ensures
        exists|ticks: Ticks|
            call_ensures(I::current_ticks, (), ticks) && call_ensures(
                I::ticks_to_nanos,
                (ticks,),
                nanos,
            ),
{
    let ticks: Ticks = I::current_ticks();
    let nanos: Nanos = I::ticks_to_nanos(ticks);
    assert(call_ensures(I::current_ticks, (), ticks) && call_ensures(
        I::ticks_to_nanos,
        (ticks,),
        nanos,
    ));
    nanos
}

/// The time now: the duration of [`current_time_nanos`].
pub fn current_time<I: TimeIf>() -> (time: TimeValue)
    ensures
        exists|ticks: Ticks, nanos: Nanos|
            call_ensures(I::current_ticks, (), ticks) && call_ensures(
                I::ticks_to_nanos,
                (ticks,),
                nanos,
            ) && duration_nanos(time) == nanos,
{
    let nanos: Nanos = current_time_nanos::<I>();
    let time = nanos_to_time(nanos);
    proof {
        let ticks = choose|ticks: Ticks|
            call_ensures(I::current_ticks, (), ticks) && call_ensures(
                I::ticks_to_nanos,
                (ticks,),
                nanos,
            );
        assert(call_ensures(I::current_ticks, (), ticks) && call_ensures(
            I::ticks_to_nanos,
            (ticks,),
            nanos,
        ) && duration_nanos(time) == nanos);
    }
    time
}

/// Converts a tick count to a time: the duration of the nanoseconds that the
/// host makes of `ticks`.
pub fn ticks_to_time<I: TimeIf>(ticks: Ticks) -> (time: TimeValue)
    ensures
        exists|nanos: Nanos|
            call_ensures(I::ticks_to_nanos, (ticks,), nanos) && duration_nanos(time) == nanos,
{
    let nanos: Nanos = I::ticks_to_nanos(ticks);
    let time = nanos_to_time(nanos);
    assert(call_ensures(I::ticks_to_nanos, (ticks,), nanos) && duration_nanos(time) == nanos);
    time
}

/// Converts a time to a tick count: what the host makes of the low 64 bits of
/// the time's nanoseconds.
pub fn time_to_ticks<I: TimeIf>(time: TimeValue) -> (ticks: Ticks)
    ensures
        call_ensures(I::nanos_to_ticks, (low_nanos(duration_nanos(time)),), ticks),
{
    let nanos: Nanos = time_to_nanos(time);
    I::nanos_to_ticks(nanos)
}

} // verus!
