use vss_ffi::{RemoteError, RemoteErrorKind, RetryPolicy, RetryState, RetryStep, VssError};

/// Runs the retry loop against an operation that always fails with `make_error`,
/// and returns the number of attempts and the error that surfaced.
fn run_failing(policy: &RetryPolicy, make_error: fn() -> RemoteError) -> (u32, VssError) {
    let mut state = RetryState::initial();
    let mut attempts: u32 = 0;
    loop {
        attempts += 1;
        let err = make_error();
        match policy.on_failure(&state, &err) {
            RetryStep::Wait { next, .. } => state = next,
            RetryStep::GiveUp => return (attempts, vss_ffi::convert_error(err)),
        }
    }
}

#[test]
fn default_policy_settings() {
    let p = RetryPolicy::default_policy();
    assert_eq!(p.initial_delay_us, 10_000);
    assert_eq!(p.max_attempts, 10);
    assert_eq!(p.max_total_delay_us, 15_000_000);
    assert_eq!(p.max_jitter_us, 10_000);
    assert!(p.is_non_retryable(RemoteErrorKind::NoSuchKey));
    assert!(p.is_non_retryable(RemoteErrorKind::InvalidRequest));
    assert!(p.is_non_retryable(RemoteErrorKind::Conflict));
    assert!(!p.is_non_retryable(RemoteErrorKind::InternalServer));
    assert!(!p.is_non_retryable(RemoteErrorKind::Internal));
    assert!(!p.is_non_retryable(RemoteErrorKind::Auth));
}

#[test]
fn backoff_doubles_plus_base() {
    let p = RetryPolicy::default_policy();
    let k = RemoteErrorKind::InternalServer;
    assert_eq!(p.next_delay(1, 0, k, 0), Some(10_000));
    assert_eq!(p.next_delay(2, 0, k, 0), Some(30_000));
    assert_eq!(p.next_delay(3, 0, k, 0), Some(70_000));
    assert_eq!(p.next_delay(4, 0, k, 7), Some(150_007));
}

#[test]
fn attempt_cap_stops_retries() {
    let p = RetryPolicy::default_policy();
    assert_eq!(p.next_delay(9, 0, RemoteErrorKind::InternalServer, 0), Some(5_110_000));
    assert_eq!(p.next_delay(10, 0, RemoteErrorKind::InternalServer, 0), None);
}

#[test]
fn delay_budget_stops_retries() {
    let p = RetryPolicy::default_policy();
    // 14.99 s already waited: the next 10 ms backoff still fits, 30 ms does not.
    assert_eq!(p.next_delay(1, 14_990_000, RemoteErrorKind::Internal, 3), Some(10_003));
    assert_eq!(p.next_delay(2, 14_990_000, RemoteErrorKind::Internal, 3), None);
    assert_eq!(p.next_delay(1, 20_000_000, RemoteErrorKind::Internal, 0), None);
}

#[test]
fn non_retryable_errors_short_circuit() {
    let p = RetryPolicy::default_policy();
    assert_eq!(p.next_delay(1, 0, RemoteErrorKind::Conflict, 0), None);
    assert_eq!(p.next_delay(1, 0, RemoteErrorKind::NoSuchKey, 0), None);
    assert_eq!(p.next_delay(1, 0, RemoteErrorKind::InvalidRequest, 0), None);
}

#[test]
fn conflict_is_attempted_once_and_surfaces_as_store_error() {
    let p = RetryPolicy::default_policy();
    let (attempts, err) = run_failing(&p, || RemoteError::Conflict("version".to_string()));
    assert_eq!(attempts, 1);
    assert!(matches!(err, VssError::StoreError { .. }));
}

#[test]
fn transient_errors_exhaust_three_attempts() {
    let p = RetryPolicy::default_policy().with_max_attempts(3);
    let (attempts, err) = run_failing(&p, || RemoteError::InternalServer("busy".to_string()));
    assert_eq!(attempts, 3);
    assert!(matches!(err, VssError::NetworkError { .. }));
}

#[test]
fn default_policy_gives_ten_attempts_to_transient_errors() {
    let p = RetryPolicy::default_policy();
    let (attempts, _) = run_failing(&p, || RemoteError::InternalServer("busy".to_string()));
    assert_eq!(attempts, 10);
}

#[test]
fn step_accumulates_delay() {
    let p = RetryPolicy::default_policy();
    let s0 = RetryState::initial();
    let s1 = match p.step(&s0, RemoteErrorKind::InternalServer, 5) {
        RetryStep::Wait { delay_us, next } => {
            assert_eq!(delay_us, 10_005);
            next
        }
        RetryStep::GiveUp => panic!("first transient failure must be retried"),
    };
    assert_eq!(s1, RetryState { attempts_made: 1, accumulated_delay_us: 10_005 });
    match p.step(&s1, RemoteErrorKind::InternalServer, 0) {
        RetryStep::Wait { delay_us, next } => {
            assert_eq!(delay_us, 30_000);
            assert_eq!(next, RetryState { attempts_made: 2, accumulated_delay_us: 40_005 });
        }
        RetryStep::GiveUp => panic!("second transient failure must be retried"),
    }
}

#[test]
fn jitter_stays_below_its_bound() {
    let p = RetryPolicy::default_policy();
    for _ in 0..200 {
        assert!(p.draw_jitter() < 10_000);
    }
    let q = RetryPolicy { max_jitter_us: 0, ..RetryPolicy::default_policy() };
    assert_eq!(q.draw_jitter(), 0);
}

#[test]
fn jittered_delay_is_within_bounds() {
    let p = RetryPolicy::default_policy();
    let err = RemoteError::InternalServer(String::new());
    for _ in 0..50 {
        match p.on_failure(&RetryState::initial(), &err) {
            RetryStep::Wait { delay_us, .. } => assert!((10_000..20_000).contains(&delay_us)),
            RetryStep::GiveUp => panic!("first transient failure must be retried"),
        }
    }
}

#[test]
fn huge_backoff_does_not_overflow() {
    let p = RetryPolicy {
        initial_delay_us: u64::MAX,
        max_attempts: u32::MAX,
        max_total_delay_us: u64::MAX,
        max_jitter_us: 0,
        non_retryable: vec![],
    };
    assert_eq!(p.next_delay(1, 0, RemoteErrorKind::Internal, 0), Some(u64::MAX));
    assert_eq!(p.next_delay(1, 0, RemoteErrorKind::Internal, 1), Some(u64::MAX));
    assert_eq!(p.next_delay(2, 0, RemoteErrorKind::Internal, 0), None);
    assert_eq!(p.next_delay(1000, 0, RemoteErrorKind::Internal, 0), None);
}
