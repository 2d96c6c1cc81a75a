use vstd::prelude::*;

verus! {

/// A source of the current time, counted in whole ticks since some fixed
/// origin. The tick unit is the clock's choice; `SystemTimeClock` uses
/// seconds since the Unix epoch. Injecting the clock keeps time-dependent
/// logic deterministically testable.
pub trait Clock {
    /// The current time in ticks. Nothing is promised of the value: a wall
    /// clock may move backward, and two calls may return different values.
    fn now(&self) -> u64;
}

#[verifier::external_type_specification]
#[verifier::external_body]
pub struct ExSystemTime(std::time::SystemTime);

/// Relies on std::time::SystemTime::now: reads the wall clock, which is not
/// monotonic and may be adjusted at any moment, so nothing holds of the value.
#[verifier::external_body]
fn system_time_now() -> std::time::SystemTime {
    std::time::SystemTime::now()
}

/// Relies on std::time::SystemTime::duration_since: the span from the Unix
/// epoch to `t`, or nothing when `t` lies before the epoch.
#[verifier::external_body]
fn time_since_epoch(t: std::time::SystemTime) -> Option<core::time::Duration> {
    match t.duration_since(std::time::UNIX_EPOCH) {
        Ok(d) => Some(d),
        Err(_) => None,
    }
}

/// Relies on core::time::Duration::as_secs: the whole-second part of the
/// span. The value depends on its argument alone, but the argument here
/// always comes from the wall clock, so no caller needs more than a value.
#[verifier::external_body]
fn duration_secs(d: &core::time::Duration) -> u64 {
    d.as_secs()
}

/// The production clock: whole seconds of the system wall clock since the
/// Unix epoch, or 0 for a clock set before the epoch.
pub struct SystemTimeClock;

impl Clock for SystemTimeClock {
    fn now(&self) -> u64 {
        let t = system_time_now();
        match time_since_epoch(t) {
            Some(d) => duration_secs(&d),
            None => 0,
        }
    }
}

} // verus!
