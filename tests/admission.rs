use clawdbot_server::admission::{build_rate_limiter, Admission};
use clawdbot_server::error::AppError;
use clawdbot_server::routes::{admission_result, rate_limit_gate};

#[test]
fn burst_then_denial_then_refill() {
    let mut limiter = build_rate_limiter(3);
    assert_eq!(limiter.per_second(), 3);
    for _ in 0..3 {
        assert_eq!(limiter.check(1), Admission::Allow);
    }
    assert_eq!(limiter.check(1), Admission::Deny);
    assert_eq!(limiter.check(2), Admission::Allow);
    let start = std::time::Instant::now();
    while start.elapsed() < std::time::Duration::from_millis(1_050) {}
    assert_eq!(limiter.check(1), Admission::Allow);
}

#[test]
fn zero_rate_is_raised_to_one() {
    let mut limiter = build_rate_limiter(0);
    assert_eq!(limiter.per_second(), 1);
    assert!(rate_limit_gate(&mut limiter, 9).is_ok());
    assert!(matches!(rate_limit_gate(&mut limiter, 9), Err(AppError::RateLimited)));
}

#[test]
fn admission_decision_maps_to_result() {
    assert!(admission_result(Admission::Allow).is_ok());
    assert!(matches!(admission_result(Admission::Deny), Err(AppError::RateLimited)));
}

#[test]
fn denial_of_one_key_leaves_others() {
    let mut limiter = build_rate_limiter(1);
    assert_eq!(limiter.check(5), Admission::Allow);
    assert_eq!(limiter.check(5), Admission::Deny);
    assert_eq!(limiter.check(6), Admission::Allow);
    assert_eq!(limiter.check(6), Admission::Deny);
}
