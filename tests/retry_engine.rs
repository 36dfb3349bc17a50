use summoner_tracker::retry::{
    after_failure, calculate_delay, extended_retry_config, is_retryable_error, parse_retry_after,
    quick_retry_config, retry_after_text_ms, standard_retry_config, ConnectionErrorType, RetryConfig, RetryError,
    RetryStep,
};

const ALL_KINDS: [ConnectionErrorType; 6] = [
    ConnectionErrorType::Network,
    ConnectionErrorType::RateLimit,
    ConnectionErrorType::ServerError,
    ConnectionErrorType::NotFound,
    ConnectionErrorType::Unauthorized,
    ConnectionErrorType::Unknown,
];

/// Drives the engine over a scripted run: `outcomes[j]` is the result of call `j`.
/// Returns the final result and the number of calls made.
fn drive(
    config: &RetryConfig,
    outcomes: &[Result<u32, ConnectionErrorType>],
) -> (Result<u32, RetryError>, u32, Vec<u64>) {
    let mut calls = 0u32;
    let mut waits = Vec::new();
    for attempt in 0..config.max_attempts {
        calls += 1;
        match outcomes[attempt as usize] {
            Ok(v) => return (Ok(v), calls, waits),
            Err(kind) => match after_failure(config, attempt, kind, format!("failure {}", attempt), None) {
                RetryStep::Wait { delay_ms } => waits.push(delay_ms),
                RetryStep::GiveUp(e) => return (Err(e), calls, waits),
            },
        }
    }
    unreachable!("the engine gives up on its last attempt")
}

#[test]
fn retryability_table() {
    let expected = [true, true, true, false, false, true];
    for (kind, want) in ALL_KINDS.iter().zip(expected.iter()) {
        assert_eq!(is_retryable_error(kind), *want, "{:?}", kind);
    }
}

#[test]
fn status_classification() {
    assert_eq!(ConnectionErrorType::from_status(None), ConnectionErrorType::Network);
    assert_eq!(ConnectionErrorType::from_status(Some(429)), ConnectionErrorType::RateLimit);
    assert_eq!(ConnectionErrorType::from_status(Some(404)), ConnectionErrorType::NotFound);
    assert_eq!(ConnectionErrorType::from_status(Some(401)), ConnectionErrorType::Unauthorized);
    assert_eq!(ConnectionErrorType::from_status(Some(403)), ConnectionErrorType::Unauthorized);
    assert_eq!(ConnectionErrorType::from_status(Some(500)), ConnectionErrorType::ServerError);
    assert_eq!(ConnectionErrorType::from_status(Some(599)), ConnectionErrorType::ServerError);
    assert_eq!(ConnectionErrorType::from_status(Some(600)), ConnectionErrorType::Unknown);
    assert_eq!(ConnectionErrorType::from_status(Some(400)), ConnectionErrorType::Unknown);
    assert_eq!(ConnectionErrorType::from_status(Some(499)), ConnectionErrorType::Unknown);
}

#[test]
fn succeeds_after_k_failures() {
    let config = extended_retry_config();
    for k in 0..config.max_attempts as usize {
        let mut outcomes: Vec<Result<u32, ConnectionErrorType>> = vec![Err(ConnectionErrorType::Network); k];
        outcomes.push(Ok(7));
        outcomes.resize(config.max_attempts as usize, Ok(0));
        let (result, calls, waits) = drive(&config, &outcomes);
        assert_eq!(result.unwrap(), 7);
        assert_eq!(calls, k as u32 + 1);
        assert_eq!(waits.len(), k);
    }
}

#[test]
fn non_retryable_stops_after_one_call() {
    for config in [quick_retry_config(), standard_retry_config(), extended_retry_config()] {
        for kind in [ConnectionErrorType::NotFound, ConnectionErrorType::Unauthorized] {
            let outcomes = vec![Err(kind); config.max_attempts as usize];
            let (result, calls, waits) = drive(&config, &outcomes);
            let e = result.unwrap_err();
            assert_eq!(calls, 1);
            assert!(waits.is_empty());
            assert_eq!(e.error_type, kind);
            assert_eq!(e.attempts_made, 1);
            assert!(!e.is_retryable);
            assert_eq!(e.last_error, "failure 0");
        }
    }
}

#[test]
fn exhaustion_reports_every_attempt() {
    let config = standard_retry_config();
    let outcomes = vec![Err(ConnectionErrorType::ServerError); 3];
    let (result, calls, waits) = drive(&config, &outcomes);
    let e = result.unwrap_err();
    assert_eq!(calls, 3);
    assert_eq!(waits, vec![500, 1000]);
    assert_eq!(e.attempts_made, 3);
    assert!(e.is_retryable);
    assert_eq!(e.error_type, ConnectionErrorType::ServerError);
    assert_eq!(e.last_error, "failure 2");
}

#[test]
fn preset_values() {
    let q = quick_retry_config();
    assert_eq!((q.max_attempts, q.base_delay_ms, q.max_delay_ms, q.backoff_num, q.backoff_den), (3, 200, 5000, 3, 2));
    let s = standard_retry_config();
    assert_eq!((s.max_attempts, s.base_delay_ms, s.max_delay_ms, s.backoff_num, s.backoff_den), (3, 500, 30000, 2, 1));
    let d = RetryConfig::default();
    assert_eq!((d.max_attempts, d.base_delay_ms, d.max_delay_ms, d.backoff_num, d.backoff_den), (3, 500, 30000, 2, 1));
    let e = extended_retry_config();
    assert_eq!((e.max_attempts, e.base_delay_ms, e.max_delay_ms, e.backoff_num, e.backoff_den), (5, 1000, 60000, 2, 1));
}

#[test]
fn preset_delays_first_three_attempts() {
    let quick = quick_retry_config();
    assert_eq!([0, 1, 2].map(|i| calculate_delay(i, &quick)), [200, 300, 450]);
    let standard = standard_retry_config();
    assert_eq!([0, 1, 2].map(|i| calculate_delay(i, &standard)), [500, 1000, 2000]);
    let extended = extended_retry_config();
    assert_eq!([0, 1, 2].map(|i| calculate_delay(i, &extended)), [1000, 2000, 4000]);
}

#[test]
fn delay_is_capped() {
    let standard = standard_retry_config();
    assert_eq!(calculate_delay(5, &standard), 16000);
    assert_eq!(calculate_delay(6, &standard), 30000);
    assert_eq!(calculate_delay(40, &standard), 30000);
    assert_eq!(calculate_delay(u32::MAX, &standard), 30000);
    let quick = quick_retry_config();
    assert_eq!(calculate_delay(7, &quick), 3417);
    assert_eq!(calculate_delay(8, &quick), 5000);
    let small = RetryConfig { max_attempts: 3, base_delay_ms: 1, max_delay_ms: 100, backoff_num: 3, backoff_den: 2 };
    assert_eq!([0, 1, 2, 3].map(|i| calculate_delay(i, &small)), [1, 1, 2, 3]);
    assert_eq!(calculate_delay(4, &quick), 1012);
    assert_eq!(calculate_delay(6, &quick), 2278);
    let zero = RetryConfig { max_attempts: 3, base_delay_ms: 0, max_delay_ms: 100, backoff_num: 2, backoff_den: 1 };
    assert_eq!(calculate_delay(2, &zero), 0);
    let above = RetryConfig { max_attempts: 3, base_delay_ms: 9000, max_delay_ms: 5000, backoff_num: 2, backoff_den: 1 };
    assert_eq!(calculate_delay(0, &above), 5000);
}

#[test]
fn rate_limit_hint_is_preferred() {
    let config = standard_retry_config();
    match after_failure(&config, 0, ConnectionErrorType::RateLimit, String::from("429"), Some(7000)) {
        RetryStep::Wait { delay_ms } => assert_eq!(delay_ms, 7000),
        other => panic!("unexpected {:?}", other),
    }
    match after_failure(&config, 1, ConnectionErrorType::RateLimit, String::from("429"), None) {
        RetryStep::Wait { delay_ms } => assert_eq!(delay_ms, 1000),
        other => panic!("unexpected {:?}", other),
    }
    match after_failure(&config, 0, ConnectionErrorType::Network, String::from("down"), Some(7000)) {
        RetryStep::Wait { delay_ms } => assert_eq!(delay_ms, 500),
        other => panic!("unexpected {:?}", other),
    }
}

#[test]
fn retry_after_text() {
    assert_eq!(parse_retry_after("12"), Some(12));
    assert_eq!(parse_retry_after("+3"), Some(3));
    assert_eq!(parse_retry_after("0"), Some(0));
    assert_eq!(parse_retry_after("18446744073709551615"), Some(u64::MAX));
    assert_eq!(parse_retry_after("18446744073709551616"), None);
    assert_eq!(parse_retry_after(""), None);
    assert_eq!(parse_retry_after("+"), None);
    assert_eq!(parse_retry_after("-1"), None);
    assert_eq!(parse_retry_after("1.5"), None);
    assert_eq!(parse_retry_after(" 5"), None);
    assert_eq!(parse_retry_after("Wed, 21 Oct 2015 07:28:00 GMT"), None);
}

#[test]
fn retry_after_in_milliseconds() {
    assert_eq!(retry_after_text_ms("7"), Some(7000));
    assert_eq!(retry_after_text_ms("+0"), Some(0));
    assert_eq!(retry_after_text_ms("18446744073709551"), Some(18446744073709551000));
    assert_eq!(retry_after_text_ms("18446744073709552"), Some(u64::MAX));
    assert_eq!(retry_after_text_ms("soon"), None);
}

#[test]
fn total_wait_stays_within_budget() {
    let config = extended_retry_config();
    let outcomes = vec![Err(ConnectionErrorType::Network); 5];
    let (result, calls, waits) = drive(&config, &outcomes);
    assert!(result.is_err());
    assert_eq!(calls, 5);
    assert_eq!(waits, vec![1000, 2000, 4000, 8000]);
    let budget: u64 = (0..config.max_attempts - 1).map(|i| calculate_delay(i, &config)).sum();
    assert_eq!(waits.iter().sum::<u64>(), budget);
}
