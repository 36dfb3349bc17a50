use vstd::prelude::*;
use vstd::string::{StrSliceExecFns, StringExecFns};
use crate::retry::{ConnectionErrorType, status_kind};

verus! {

/// A failure that only carries a message.
#[derive(Debug, Clone)]
pub struct RetryError {
    pub message: String,
}

/// What a command reports when a call to the game-data service fails.
#[derive(Debug, Clone)]
pub enum ApiError {
    ApiKeyInvalid,
    ApiKeyMissing,
    RateLimited,
    NetworkError,
    ServerError,
    NotFound,
    Unknown(String),
}

/// The error that a classified failure stands for; `description` is kept for
/// failures of no known kind.
pub open spec fn api_error_of(kind: ConnectionErrorType, description: String) -> ApiError {
    match kind {
        ConnectionErrorType::Unauthorized => ApiError::ApiKeyInvalid,
        ConnectionErrorType::NotFound => ApiError::NotFound,
        ConnectionErrorType::RateLimit => ApiError::RateLimited,
        ConnectionErrorType::Network => ApiError::NetworkError,
        ConnectionErrorType::ServerError => ApiError::ServerError,
        ConnectionErrorType::Unknown => ApiError::Unknown(description),
    }
}

impl From<RetryError> for ApiError {
    fn from(error: RetryError) -> (r: ApiError) {
        ApiError::Unknown(error.message)
    }
}

impl vstd::std_specs::convert::FromSpecImpl<RetryError> for ApiError {
    open spec fn obeys_from_spec() -> bool {
        true
    }

    open spec fn from_spec(v: RetryError) -> ApiError {
        ApiError::Unknown(v.message)
    }
}

impl From<crate::retry::RetryError> for ApiError {
    fn from(error: crate::retry::RetryError) -> (r: ApiError) {
        ApiError::from_kind(error.error_type, error.last_error)
    }
}

impl vstd::std_specs::convert::FromSpecImpl<crate::retry::RetryError> for ApiError {
    open spec fn obeys_from_spec() -> bool {
        true
    }

    open spec fn from_spec(v: crate::retry::RetryError) -> ApiError {
        api_error_of(v.error_type, v.last_error)
    }
}

/// The text holds `pat` at position `i`.
pub open spec fn occurs_at(text: Seq<char>, pat: Seq<char>, i: int) -> bool {
    0 <= i && i + pat.len() <= text.len() && text.subrange(i, i + pat.len()) == pat
}

/// The text holds `pat` somewhere.
pub open spec fn contains_text(text: Seq<char>, pat: Seq<char>) -> bool {
    exists|i: int| occurs_at(text, pat, i)
}

/// Whether `pat` occurs in `text`.
pub fn contains(text: &str, pat: &str) -> (r: bool)
    ensures
        r == contains_text(text@, pat@),
{
    let n = text.unicode_len();
    let m = pat.unicode_len();
    if m == 0 {
        assert(text@.subrange(0, 0) =~= pat@);
        assert(occurs_at(text@, pat@, 0));
        return true;
    }
    if m > n {
        return false;
    }
    let mut i: usize = 0;
    while i <= n - m
        invariant
            n == text@.len(),
            m == pat@.len(),
            1 <= m <= n,
            i <= n - m + 1,
            forall|j: int| 0 <= j < i ==> !occurs_at(text@, pat@, j),
        decreases n - m + 1 - i,
    {
        let mut k: usize = 0;
        let mut same = true;
        while k < m
            invariant
                n == text@.len(),
                m == pat@.len(),
                i + m <= n,
                k <= m,
                same <==> forall|j: int| 0 <= j < k ==> text@[i + j] == pat@[j],
            decreases m - k,
        {
            if text.get_char(i + k) != pat.get_char(k) {
                same = false;
            }
            k = k + 1;
        }
        if same {
            assert(text@.subrange(i as int, i + m) =~= pat@);
            assert(occurs_at(text@, pat@, i as int));
            return true;
        }
        proof {
            let j = choose|j: int| 0 <= j < m && text@[i + j] != pat@[j];
            assert(text@.subrange(i as int, i + m)[j] != pat@[j]);
        }
        i = i + 1;
    }
    false
}

/// The text of a failure without a response names a timeout or a connection.
pub open spec fn network_text(error_text: Seq<char>) -> bool {
    contains_text(error_text, seq!['t', 'i', 'm', 'e', 'o', 'u', 't']) || contains_text(
        error_text,
        seq!['c', 'o', 'n', 'n', 'e', 'c', 't'],
    )
}

/// `r` is the error of a single failed call with this status (and its printed
/// form) or, without a status, this failure text.
pub open spec fn failure_error(
    status: Option<u16>,
    status_text: Seq<char>,
    error_text: Seq<char>,
    r: ApiError,
) -> bool {
    match status {
        Some(s) => if s == 401 || s == 403 {
            r is ApiKeyInvalid
        } else if s == 404 {
            r is NotFound
        } else if s == 429 {
            r is RateLimited
        } else if 500 <= s <= 599 {
            r is ServerError
        } else {
            r matches ApiError::Unknown(t) && t@ == seq!['H', 'T', 'T', 'P', ' '] + status_text
        },
        None => if network_text(error_text) {
            r is NetworkError
        } else {
            r matches ApiError::Unknown(t) && t@ == error_text
        },
    }
}

impl ApiError {
    /// The error that a classified failure stands for.
    pub fn from_kind(kind: ConnectionErrorType, description: String) -> (r: ApiError)
        ensures
            r == api_error_of(kind, description),
    {
        match kind {
            ConnectionErrorType::Unauthorized => ApiError::ApiKeyInvalid,
            ConnectionErrorType::NotFound => ApiError::NotFound,
            ConnectionErrorType::RateLimit => ApiError::RateLimited,
            ConnectionErrorType::Network => ApiError::NetworkError,
            ConnectionErrorType::ServerError => ApiError::ServerError,
            ConnectionErrorType::Unknown => ApiError::Unknown(description),
        }
    }

    /// The error of a single failed call: by its HTTP status when a response came
    /// (`status_text` is the status as it prints, say `"418 I'm a teapot"`), else a
    /// network error when the failure's text speaks of a timeout or a connection.
    pub fn from_failure(status: Option<u16>, status_text: &str, error_text: String) -> (r: ApiError)
        ensures
            failure_error(status, status_text@, error_text@, r),
            status is None && !network_text(error_text@) ==> r == ApiError::Unknown(error_text),
    {
        match status {
            Some(s) => {
                if s == 401 || s == 403 {
                    ApiError::ApiKeyInvalid
                } else if s == 404 {
                    ApiError::NotFound
                } else if s == 429 {
                    ApiError::RateLimited
                } else if 500 <= s && s <= 599 {
                    ApiError::ServerError
                } else {
                    let mut t = String::from_str("HTTP ");
                    proof {
                        reveal_strlit("HTTP ");
                        assert("HTTP "@ =~= seq!['H', 'T', 'T', 'P', ' ']);
                    }
                    t.append(status_text);
                    ApiError::Unknown(t)
                }
            },
            None => {
                proof {
                    reveal_strlit("timeout");
                    reveal_strlit("connect");
                    assert("timeout"@ =~= seq!['t', 'i', 'm', 'e', 'o', 'u', 't']);
                    assert("connect"@ =~= seq!['c', 'o', 'n', 'n', 'e', 'c', 't']);
                }
                if contains(error_text.as_str(), "timeout") || contains(error_text.as_str(), "connect") {
                    ApiError::NetworkError
                } else {
                    ApiError::Unknown(error_text)
                }
            },
        }
    }
}

/// The HTTP status of a failed call as it prints (`"404 Not Found"`), if it has one.
pub uninterp spec fn status_text_name(err: riven::RiotApiError) -> Option<Seq<char>>;

/// Relies on the `Display` of `http::StatusCode` (through
/// `riven::RiotApiError::status_code`): the status as it prints, when a response
/// came. The status is a field of the error, so the text depends on the error alone.
#[verifier::external_body]
fn status_text_of(err: &riven::RiotApiError) -> (r: Option<String>)
    ensures
        r is None <==> status_text_name(*err) is None,
        r matches Some(t) ==> status_text_name(*err) == Some(t@),
{
    err.status_code().map(|s| s.to_string())
}

/// Relies on the `Display` of `riven::RiotApiError`: the failure as text. The
/// text includes the messages of the underlying transport errors, which the
/// operating system may word differently from one machine or locale to another,
/// so nothing is claimed of it.
#[verifier::external_body]
fn riot_error_text(err: &riven::RiotApiError) -> (r: String)
{
    err.to_string()
}

impl ApiError {
    /// The error of a single failed call to the game-data service: by its status
    /// when a response came; else a network error or an unknown one, as the
    /// failure's text tells (see `from_failure`).
    pub fn from_riot_error(err: &riven::RiotApiError) -> (r: ApiError)
        ensures
            crate::retry::status_of(*err) is Some ==> failure_error(
                crate::retry::status_of(*err),
                match status_text_name(*err) {
                    Some(t) => t,
                    None => Seq::empty(),
                },
                Seq::empty(),
                r,
            ),
            crate::retry::status_of(*err) is None ==> (r is NetworkError || r is Unknown),
    {
        let status_text = match status_text_of(err) {
            Some(t) => t,
            None => String::new(),
        };
        let status = crate::retry::status_code_of(err);
        ApiError::from_failure(status, status_text.as_str(), riot_error_text(err))
    }
}

/// The result is an error with exactly this message.
pub open spec fn err_with<T>(r: Result<T, String>, msg: Seq<char>) -> bool {
    r matches Err(m) && m@ == msg
}

/// The result is a success with exactly this message.
pub open spec fn ok_with<E>(r: Result<String, E>, msg: Seq<char>) -> bool {
    r matches Ok(m) && m@ == msg
}

/// A `String` holding the text of `s`.
fn text_of(s: &str) -> (r: String)
    ensures
        r@ == s@,
{
    String::from_str(s)
}

/// `prefix` followed by `rest`.
fn joined(prefix: &str, rest: &str) -> (r: String)
    ensures
        r@ == prefix@ + rest@,
{
    let mut t = String::from_str(prefix);
    t.append(rest);
    t
}

/// What a retried lookup of the game-data service came back with.
#[derive(Debug, Clone)]
pub enum Lookup {
    Found,
    Missing,
    Failed(crate::retry::RetryError),
}

/// What a single direct lookup came back with; a failure as text.
#[derive(Debug, Clone)]
pub enum DirectLookup {
    Found,
    Missing,
    Failed(String),
}

/// What setting the tracked player does after one lookup.
#[derive(Debug, Clone)]
pub enum TrackVerdict {
    /// Go on to the next step.
    Continue,
    /// Make one direct attempt, for a more specific message.
    TryDirect,
    /// Stop with this message for the user.
    Fail(String),
}

/// The verdict is to stop with exactly this message.
pub open spec fn fails_with(v: TrackVerdict, msg: Seq<char>) -> bool {
    v matches TrackVerdict::Fail(m) && m@ == msg
}

/// After the retried account lookup of the player to track: go on when found;
/// stop with a message for each kind of failure the user can act on; else try once
/// directly.
pub fn account_verdict(lookup: &Lookup) -> (r: TrackVerdict)
    ensures
        lookup is Found ==> r is Continue,
        lookup is Missing ==> fails_with(r, "Account not found"@),
        lookup matches Lookup::Failed(e) ==> match e.error_type {
            ConnectionErrorType::Unauthorized => fails_with(
                r,
                "Invalid API key. Please check your Riot API key configuration."@,
            ),
            ConnectionErrorType::NotFound => fails_with(
                r,
                "Account not found. Please check the summoner name and tag."@,
            ),
            ConnectionErrorType::RateLimit => fails_with(
                r,
                "Rate limited by Riot API. Please try again in a few minutes."@,
            ),
            ConnectionErrorType::Network => fails_with(
                r,
                "Network error. Please check your internet connection."@,
            ),
            _ => r is TryDirect,
        },
{
    match lookup {
        Lookup::Found => TrackVerdict::Continue,
        Lookup::Missing => TrackVerdict::Fail(text_of("Account not found")),
        Lookup::Failed(e) => match e.error_type {
            ConnectionErrorType::Unauthorized => TrackVerdict::Fail(
                text_of("Invalid API key. Please check your Riot API key configuration."),
            ),
            ConnectionErrorType::NotFound => TrackVerdict::Fail(
                text_of("Account not found. Please check the summoner name and tag."),
            ),
            ConnectionErrorType::RateLimit => TrackVerdict::Fail(
                text_of("Rate limited by Riot API. Please try again in a few minutes."),
            ),
            ConnectionErrorType::Network => TrackVerdict::Fail(
                text_of("Network error. Please check your internet connection."),
            ),
            _ => TrackVerdict::TryDirect,
        },
    }
}

/// After the direct account lookup: go on when found, else the message to show.
pub fn account_direct_verdict(lookup: &DirectLookup) -> (r: Result<(), String>)
    ensures
        lookup is Found ==> r is Ok,
        lookup is Missing ==> err_with(r, "Account not found"@),
        lookup matches DirectLookup::Failed(d) ==> err_with(r, "Failed to get account: "@ + d@),
{
    match lookup {
        DirectLookup::Found => Ok(()),
        DirectLookup::Missing => Err(text_of("Account not found")),
        DirectLookup::Failed(d) => Err(joined("Failed to get account: ", d.as_str())),
    }
}

/// After the retried check that the player's summoner exists: go on when found;
/// stop when missing, or with a message for a refused credential, a missing
/// summoner or rate limiting; else try once directly.
pub fn summoner_verdict(lookup: &Lookup) -> (r: TrackVerdict)
    ensures
        lookup is Found ==> r is Continue,
        lookup is Missing ==> fails_with(r, "Summoner not found"@),
        lookup matches Lookup::Failed(e) ==> match e.error_type {
            ConnectionErrorType::Unauthorized => fails_with(
                r,
                "Invalid API key during summoner verification."@,
            ),
            ConnectionErrorType::NotFound => fails_with(
                r,
                "Summoner not found. Please check the summoner name and region."@,
            ),
            ConnectionErrorType::RateLimit => fails_with(
                r,
                "Rate limited by Riot API while verifying the summoner. Please try again in a few minutes."@,
            ),
            _ => r is TryDirect,
        },
{
    match lookup {
        Lookup::Found => TrackVerdict::Continue,
        Lookup::Missing => TrackVerdict::Fail(text_of("Summoner not found")),
        Lookup::Failed(e) => match e.error_type {
            ConnectionErrorType::Unauthorized => TrackVerdict::Fail(
                text_of("Invalid API key during summoner verification."),
            ),
            ConnectionErrorType::NotFound => TrackVerdict::Fail(
                text_of("Summoner not found. Please check the summoner name and region."),
            ),
            ConnectionErrorType::RateLimit => TrackVerdict::Fail(
                text_of(
                    "Rate limited by Riot API while verifying the summoner. Please try again in a few minutes.",
                ),
            ),
            _ => TrackVerdict::TryDirect,
        },
    }
}

/// After the direct summoner check: any answer lets the player be tracked; a
/// failure gives the message to show.
pub fn summoner_direct_verdict(lookup: &DirectLookup) -> (r: Result<(), String>)
    ensures
        !(lookup is Failed) ==> r is Ok,
        lookup matches DirectLookup::Failed(d) ==> err_with(r, "Failed to get summoner: "@ + d@),
{
    match lookup {
        DirectLookup::Failed(d) => Err(joined("Failed to get summoner: ", d.as_str())),
        _ => Ok(()),
    }
}

/// The result of the connection test: demonstration mode when no credential is
/// configured; else what the retried test lookup says of the credential.
pub fn connection_test_verdict(credential_missing: bool, lookup: &Lookup) -> (r: Result<String, String>)
    ensures
        credential_missing ==> ok_with(r, "Demo mode - no API key configured"@),
        !credential_missing ==> match lookup {
            Lookup::Found => ok_with(r, "Connection test successful - API key is valid"@),
            Lookup::Missing => ok_with(r, "Connection test successful - API key is valid (test account not found, but API responded)"@),
            Lookup::Failed(e) => match e.error_type {
                ConnectionErrorType::Unauthorized => err_with(r, "API key is invalid or expired"@),
                ConnectionErrorType::RateLimit => ok_with(r, "API key is valid but rate limited"@),
                ConnectionErrorType::Network => err_with(r, "Network connection error"@),
                ConnectionErrorType::ServerError => err_with(r, "Riot API server error"@),
                ConnectionErrorType::NotFound => err_with(
                    r,
                    "Connection test failed: the test account lookup was not found. Details: "@
                        + e.last_error@,
                ),
                ConnectionErrorType::Unknown => err_with(
                    r,
                    "Connection test failed: unknown error. Details: "@ + e.last_error@,
                ),
            },
        },
{
    if credential_missing {
        return Ok(text_of("Demo mode - no API key configured"));
    }
    match lookup {
        Lookup::Found => Ok(text_of("Connection test successful - API key is valid")),
        Lookup::Missing => Ok(
            text_of(
                "Connection test successful - API key is valid (test account not found, but API responded)",
            ),
        ),
        Lookup::Failed(e) => match ApiError::from_kind(e.error_type, e.last_error.clone()) {
            ApiError::ApiKeyInvalid => Err(text_of("API key is invalid or expired")),
            ApiError::ApiKeyMissing => Err(text_of("API key is missing")),
            ApiError::RateLimited => Ok(text_of("API key is valid but rate limited")),
            ApiError::NetworkError => Err(text_of("Network connection error")),
            ApiError::ServerError => Err(text_of("Riot API server error")),
            ApiError::NotFound => Err(
                joined(
                    "Connection test failed: the test account lookup was not found. Details: ",
                    e.last_error.as_str(),
                ),
            ),
            ApiError::Unknown(_) => Err(
                joined("Connection test failed: unknown error. Details: ", e.last_error.as_str()),
            ),
        },
    }
}

/// What a dashboard fetch does when its retried call failed.
#[derive(Debug, Clone, Copy, PartialEq, Eq, Structural)]
pub enum FetchFallback {
    /// The credential was refused: show the demonstration data instead.
    ShowDemo,
    /// Make one direct attempt.
    TryDirect,
}

/// After a retried dashboard fetch failed: demonstration data when the credential
/// was refused, else one direct attempt.
pub fn fetch_fallback(e: &crate::retry::RetryError) -> (r: FetchFallback)
    ensures
        (r == FetchFallback::ShowDemo) <==> (e.error_type == ConnectionErrorType::Unauthorized),
{
    if e.error_type == ConnectionErrorType::Unauthorized {
        FetchFallback::ShowDemo
    } else {
        FetchFallback::TryDirect
    }
}

} // verus!
