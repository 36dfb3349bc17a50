use summoner_tracker::commands::{
    account_direct_verdict, account_verdict, connection_test_verdict, contains, fetch_fallback, FetchFallback, summoner_direct_verdict,
    summoner_verdict, ApiError, DirectLookup, Lookup, RetryError, TrackVerdict,
};
use summoner_tracker::retry::{ConnectionErrorType, RetryError as RetryFailure};

fn failed(kind: ConnectionErrorType) -> Lookup {
    Lookup::Failed(RetryFailure {
        error_type: kind,
        attempts_made: 3,
        last_error: String::from("boom"),
        is_retryable: true,
    })
}

fn fail_text(v: TrackVerdict) -> String {
    match v {
        TrackVerdict::Fail(m) => m,
        other => panic!("expected a failure, got {:?}", other),
    }
}

#[test]
fn api_error_from_status() {
    assert!(matches!(ApiError::from_failure(Some(401), "401 Unauthorized", String::new()), ApiError::ApiKeyInvalid));
    assert!(matches!(ApiError::from_failure(Some(403), "403 Forbidden", String::new()), ApiError::ApiKeyInvalid));
    assert!(matches!(ApiError::from_failure(Some(404), "404 Not Found", String::new()), ApiError::NotFound));
    assert!(matches!(ApiError::from_failure(Some(429), "429 Too Many Requests", String::new()), ApiError::RateLimited));
    assert!(matches!(ApiError::from_failure(Some(502), "502 Bad Gateway", String::new()), ApiError::ServerError));
    match ApiError::from_failure(Some(418), "418 I'm a teapot", String::new()) {
        ApiError::Unknown(t) => assert_eq!(t, "HTTP 418 I'm a teapot"),
        other => panic!("unexpected {:?}", other),
    }
}

#[test]
fn api_error_without_status() {
    assert!(matches!(
        ApiError::from_failure(None, "", String::from("operation timeout after 10s")),
        ApiError::NetworkError
    ));
    assert!(matches!(
        ApiError::from_failure(None, "", String::from("could not connect to host")),
        ApiError::NetworkError
    ));
    match ApiError::from_failure(None, "", String::from("bad json")) {
        ApiError::Unknown(t) => assert_eq!(t, "bad json"),
        other => panic!("unexpected {:?}", other),
    }
    assert!(contains("a timeout", "timeout"));
    assert!(contains("abc", ""));
    assert!(!contains("time out", "timeout"));
    assert!(!contains("ab", "abc"));
}

#[test]
fn api_error_from_retry_failures() {
    let e: ApiError = RetryFailure {
        error_type: ConnectionErrorType::Unauthorized,
        attempts_made: 1,
        last_error: String::from("x"),
        is_retryable: false,
    }
    .into();
    assert!(matches!(e, ApiError::ApiKeyInvalid));
    let e: ApiError = RetryFailure {
        error_type: ConnectionErrorType::Unknown,
        attempts_made: 3,
        last_error: String::from("odd"),
        is_retryable: true,
    }
    .into();
    assert!(matches!(e, ApiError::Unknown(ref t) if t == "odd"));
    let e: ApiError = RetryError { message: String::from("plain") }.into();
    assert!(matches!(e, ApiError::Unknown(ref t) if t == "plain"));
    assert!(matches!(ApiError::from_kind(ConnectionErrorType::Network, String::new()), ApiError::NetworkError));
    assert!(matches!(ApiError::from_kind(ConnectionErrorType::ServerError, String::new()), ApiError::ServerError));
    assert!(matches!(ApiError::from_kind(ConnectionErrorType::RateLimit, String::new()), ApiError::RateLimited));
    assert!(matches!(ApiError::from_kind(ConnectionErrorType::NotFound, String::new()), ApiError::NotFound));
}

#[test]
fn account_lookup_messages() {
    assert!(matches!(account_verdict(&Lookup::Found), TrackVerdict::Continue));
    assert_eq!(fail_text(account_verdict(&Lookup::Missing)), "Account not found");
    assert_eq!(
        fail_text(account_verdict(&failed(ConnectionErrorType::Unauthorized))),
        "Invalid API key. Please check your Riot API key configuration."
    );
    assert_eq!(
        fail_text(account_verdict(&failed(ConnectionErrorType::NotFound))),
        "Account not found. Please check the summoner name and tag."
    );
    assert_eq!(
        fail_text(account_verdict(&failed(ConnectionErrorType::RateLimit))),
        "Rate limited by Riot API. Please try again in a few minutes."
    );
    assert_eq!(
        fail_text(account_verdict(&failed(ConnectionErrorType::Network))),
        "Network error. Please check your internet connection."
    );
    assert!(matches!(account_verdict(&failed(ConnectionErrorType::ServerError)), TrackVerdict::TryDirect));
    assert!(matches!(account_verdict(&failed(ConnectionErrorType::Unknown)), TrackVerdict::TryDirect));
    assert_eq!(account_direct_verdict(&DirectLookup::Found), Ok(()));
    assert_eq!(account_direct_verdict(&DirectLookup::Missing), Err(String::from("Account not found")));
    assert_eq!(
        account_direct_verdict(&DirectLookup::Failed(String::from("E"))),
        Err(String::from("Failed to get account: E"))
    );
}

#[test]
fn summoner_check_messages() {
    assert!(matches!(summoner_verdict(&Lookup::Found), TrackVerdict::Continue));
    assert_eq!(fail_text(summoner_verdict(&Lookup::Missing)), "Summoner not found");
    assert_eq!(
        fail_text(summoner_verdict(&failed(ConnectionErrorType::Unauthorized))),
        "Invalid API key during summoner verification."
    );
    assert_eq!(
        fail_text(summoner_verdict(&failed(ConnectionErrorType::NotFound))),
        "Summoner not found. Please check the summoner name and region."
    );
    assert_eq!(
        fail_text(summoner_verdict(&failed(ConnectionErrorType::RateLimit))),
        "Rate limited by Riot API while verifying the summoner. Please try again in a few minutes."
    );
    assert!(matches!(summoner_verdict(&failed(ConnectionErrorType::Network)), TrackVerdict::TryDirect));
    assert!(matches!(summoner_verdict(&failed(ConnectionErrorType::ServerError)), TrackVerdict::TryDirect));
    assert!(matches!(summoner_verdict(&failed(ConnectionErrorType::Unknown)), TrackVerdict::TryDirect));
    assert_eq!(summoner_direct_verdict(&DirectLookup::Missing), Ok(()));
    assert_eq!(summoner_direct_verdict(&DirectLookup::Found), Ok(()));
    assert_eq!(
        summoner_direct_verdict(&DirectLookup::Failed(String::from("E"))),
        Err(String::from("Failed to get summoner: E"))
    );
}

#[test]
fn connection_test_messages() {
    assert_eq!(
        connection_test_verdict(true, &failed(ConnectionErrorType::Unauthorized)),
        Ok(String::from("Demo mode - no API key configured"))
    );
    assert_eq!(
        connection_test_verdict(false, &Lookup::Found),
        Ok(String::from("Connection test successful - API key is valid"))
    );
    assert_eq!(
        connection_test_verdict(false, &Lookup::Missing),
        Ok(String::from(
            "Connection test successful - API key is valid (test account not found, but API responded)"
        ))
    );
    assert_eq!(
        connection_test_verdict(false, &failed(ConnectionErrorType::Unauthorized)),
        Err(String::from("API key is invalid or expired"))
    );
    assert_eq!(
        connection_test_verdict(false, &failed(ConnectionErrorType::RateLimit)),
        Ok(String::from("API key is valid but rate limited"))
    );
    assert_eq!(
        connection_test_verdict(false, &failed(ConnectionErrorType::Network)),
        Err(String::from("Network connection error"))
    );
    assert_eq!(
        connection_test_verdict(false, &failed(ConnectionErrorType::ServerError)),
        Err(String::from("Riot API server error"))
    );
    assert_eq!(
        connection_test_verdict(false, &failed(ConnectionErrorType::Unknown)),
        Err(String::from("Connection test failed: unknown error. Details: boom"))
    );
    assert_eq!(
        connection_test_verdict(false, &failed(ConnectionErrorType::NotFound)),
        Err(String::from("Connection test failed: the test account lookup was not found. Details: boom"))
    );
}

#[test]
fn dashboard_fetch_fallback() {
    for (kind, want) in [
        (ConnectionErrorType::Unauthorized, FetchFallback::ShowDemo),
        (ConnectionErrorType::NotFound, FetchFallback::TryDirect),
        (ConnectionErrorType::Network, FetchFallback::TryDirect),
        (ConnectionErrorType::RateLimit, FetchFallback::TryDirect),
    ] {
        let e = RetryFailure { error_type: kind, attempts_made: 1, last_error: String::new(), is_retryable: false };
        assert_eq!(fetch_fallback(&e), want);
    }
}
