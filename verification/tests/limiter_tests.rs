use mavlink_debugger::limiter::FPSLimiter;

const SECOND: u64 = 1_000_000;
const MILLI: u64 = 1_000;

#[test]
fn test_allowed() {
    let mut fps_limiter = FPSLimiter::default(100);
    let time = 10 * SECOND;
    // first call is allowed
    assert!(fps_limiter.check_allowed(time));
    // next calls are not allowed until time is passed
    let next_call_at = time + 5 * MILLI;
    assert!(!fps_limiter.check_allowed(next_call_at));
    // next call is allowed when time is passed
    assert!(fps_limiter.check_allowed(time + 11 * MILLI));
}

#[test]
fn period_is_second_over_fps() {
    let limiter = FPSLimiter::default(5);
    assert_eq!(limiter.refresh_rate, 200_000);
    let limiter = FPSLimiter::default(100);
    assert_eq!(limiter.refresh_rate, 10_000);
}

#[test]
fn boundary_is_strict() {
    let mut limiter = FPSLimiter::default(100);
    let t0 = 42 * SECOND;
    assert!(limiter.check_allowed(t0));
    // exactly at the stored schedule: refused
    assert!(!limiter.check_allowed(t0 + 10 * MILLI));
    // one tick past it: permitted
    assert!(limiter.check_allowed(t0 + 10 * MILLI + 1));
}

#[test]
fn no_catch_up_bursts() {
    let mut limiter = FPSLimiter::default(100);
    let t0 = 7 * SECOND;
    assert!(limiter.check_allowed(t0));
    // a long quiet period passes; the next success reschedules relative to
    // the call time, so a call one tick later is refused again
    let late = t0 + 5 * SECOND;
    assert!(limiter.check_allowed(late));
    assert!(!limiter.check_allowed(late + 1));
    assert!(limiter.check_allowed(late + 10 * MILLI + 1));
}

#[test]
fn failed_calls_leave_schedule_untouched() {
    let mut limiter = FPSLimiter::default(100);
    let t0 = 3 * SECOND;
    assert!(limiter.check_allowed(t0));
    assert!(!limiter.check_allowed(t0 + 1));
    assert!(!limiter.check_allowed(t0 + 2));
    // still the original schedule: strictly past t0 + period succeeds
    assert!(limiter.check_allowed(t0 + 10 * MILLI + 1));
}
