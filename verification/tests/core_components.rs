use flight_query::batch::{generate_combinations, DateCombination};
use flight_query::cachekey::cache_key;
use flight_query::credentials::TokenStore;
use flight_query::errors::ApiError;
use flight_query::models::FlightSearchRequest;
use flight_query::rate_limiter::RateLimiter;
use flight_query::retry::{
    run_retry_transcript, upsell_means_empty, pricing_means_no_fare, verdict_error, Attempt,
    RetryState, RetryDecision, RetryVerdict,
};
use flight_query::text::{i32_to_string, str_contains, str_lt, u32_to_string};

fn search_request(origin: &str, destination: &str, departure: &str) -> FlightSearchRequest {
    FlightSearchRequest {
        origin: origin.to_string(),
        destination: destination.to_string(),
        departure_date: departure.to_string(),
        return_date: None,
        adults: 1,
        children: 0,
        infants: 0,
        currency: None,
        travel_class: None,
        non_stop: None,
        max_price: None,
        max_results: None,
        included_airline_codes: None,
        excluded_airline_codes: None,
        additional_legs: None,
    }
}

#[test]
fn sequential_reserves_are_spaced_by_the_interval() {
    // Ten calls through one gate at 10 transactions per second must span at
    // least (10 - 1) * 100 ms.
    let mut limiter = RateLimiter::new(10);
    assert_eq!(limiter.interval_ms(), 100);
    let mut dispatches = Vec::new();
    for _ in 0..10 {
        dispatches.push(limiter.reserve(0));
    }
    assert_eq!(dispatches[0], 0);
    for i in 1..10 {
        assert!(dispatches[i] >= dispatches[i - 1] + 100);
    }
    assert!(dispatches[9] - dispatches[0] >= 9 * 100);
}

#[test]
fn late_arrival_dispatches_at_once() {
    let mut limiter = RateLimiter::new(4);
    assert_eq!(limiter.interval_ms(), 250);
    assert_eq!(limiter.reserve(1_000), 1_000);
    // Arriving after the interval has passed costs no wait.
    assert_eq!(limiter.reserve(2_000), 2_000);
    // Arriving within the interval waits until it opens.
    assert_eq!(limiter.reserve(2_100), 2_250);
}

#[test]
fn three_overloads_then_success_makes_four_calls() {
    let overloaded = Attempt { status: 429, retry_after_secs: None };
    let script = vec![
        overloaded.clone(),
        overloaded.clone(),
        overloaded.clone(),
        Attempt { status: 200, retry_after_secs: None },
    ];
    let run = run_retry_transcript(&script);
    assert_eq!(run.calls, 4);
    assert_eq!(run.delays_secs, vec![1, 2, 4]);
    assert_eq!(run.verdict, RetryVerdict::Success);
}

#[test]
fn retry_hint_is_used_verbatim() {
    let script = vec![
        Attempt { status: 429, retry_after_secs: Some(7) },
        Attempt { status: 200, retry_after_secs: None },
    ];
    let run = run_retry_transcript(&script);
    assert_eq!(run.calls, 2);
    assert_eq!(run.delays_secs, vec![7]);
    assert_eq!(run.verdict, RetryVerdict::Success);
}

#[test]
fn four_overloads_exhaust_the_retries() {
    let overloaded = Attempt { status: 429, retry_after_secs: None };
    let script = vec![overloaded.clone(), overloaded.clone(), overloaded.clone(), overloaded];
    let run = run_retry_transcript(&script);
    assert_eq!(run.calls, 4);
    assert_eq!(run.delays_secs, vec![1, 2, 4]);
    assert_eq!(run.verdict, RetryVerdict::RateLimited);
    assert_eq!(
        verdict_error(&run.verdict, String::new()),
        Some(ApiError::RateLimitExceeded)
    );
}

#[test]
fn other_statuses_fail_immediately() {
    let script = vec![Attempt { status: 500, retry_after_secs: None }];
    let run = run_retry_transcript(&script);
    assert_eq!(run.calls, 1);
    assert!(run.delays_secs.is_empty());
    assert_eq!(run.verdict, RetryVerdict::Terminal { status: 500 });
    assert_eq!(
        verdict_error(&run.verdict, "body".to_string()),
        Some(ApiError::UpstreamError { status: 500, body: "body".to_string() })
    );
}

#[test]
fn success_is_accepted_on_any_attempt() {
    let mut state = RetryState::new();
    assert_eq!(state.on_response(429, None), RetryDecision::RetryAfter { delay_secs: 1 });
    assert_eq!(state.on_response(204, None), RetryDecision::Accept);
}

#[test]
fn upsell_empty_translation_is_narrow() {
    assert!(upsell_means_empty(400, "{\"errors\":[{\"code\":39397}]}"));
    assert!(!upsell_means_empty(400, "{\"errors\":[{\"code\":141}]}"));
    assert!(!upsell_means_empty(500, "{\"errors\":[{\"code\":39397}]}"));
}

#[test]
fn no_fare_errors_are_recognized() {
    assert!(pricing_means_no_fare("status 400: code 4926"));
    assert!(pricing_means_no_fare("No fare applicable"));
    assert!(!pricing_means_no_fare("status 500: quota"));
}

#[test]
fn one_valid_combination_from_two_by_two_dates() {
    // Outbound [D1, D2] and inbound [D1, D2] with D1 < D2 yield exactly the
    // one pair (D1, D2).
    let d1 = "2024-06-15".to_string();
    let d2 = "2024-06-22".to_string();
    let outbound = vec![d1.clone(), d2.clone()];
    let inbound = vec![d1.clone(), d2.clone()];
    let combos = generate_combinations(&outbound, &inbound);
    assert_eq!(combos.len(), 1);
    assert_eq!(combos[0], DateCombination { outbound: d1, inbound: d2 });
}

#[test]
fn combinations_are_outbound_major() {
    let outbound = vec!["2024-01-01".to_string(), "2024-01-02".to_string()];
    let inbound = vec!["2024-01-03".to_string(), "2024-01-04".to_string()];
    let combos = generate_combinations(&outbound, &inbound);
    assert_eq!(combos.len(), 4);
    assert_eq!(combos[0].outbound, "2024-01-01");
    assert_eq!(combos[0].inbound, "2024-01-03");
    assert_eq!(combos[1].inbound, "2024-01-04");
    assert_eq!(combos[2].outbound, "2024-01-02");
    assert_eq!(combos[3].inbound, "2024-01-04");
}

#[test]
fn single_refresh_under_twenty_concurrent_callers() {
    // Twenty callers race on an expired token; the double-checked protocol
    // performs exactly one upstream refresh.
    let mut store = TokenStore::new();
    let now: u64 = 1_000_000;
    let mut refreshes = 0;
    let mut tokens = Vec::new();
    for _ in 0..20 {
        // Fast path under the read lock.
        if let Some(token) = store.token_if_fresh(now) {
            tokens.push(token);
            continue;
        }
        // Slow path: re-check under the write lock, refresh only when the
        // cache is still stale.
        if store.needs_refresh(now) {
            refreshes += 1;
            store.store_refreshed("token-1".to_string(), now, 1799);
        }
        tokens.push(store.token_if_fresh(now).expect("freshly stored token is usable"));
    }
    assert_eq!(refreshes, 1);
    assert_eq!(tokens.len(), 20);
    assert!(tokens.iter().all(|t| t == "token-1"));
}

#[test]
fn stale_token_is_not_handed_out() {
    let mut store = TokenStore::new();
    assert!(store.token_if_fresh(0).is_none());
    // A token with 1799 s of advertised life is stamped to expire 1679 s
    // after issue.
    store.store_refreshed("token-2".to_string(), 0, 1799);
    assert!(store.token_if_fresh(1_618_999).is_some());
    // Within the 60 s reuse margin the token is no longer handed out.
    assert!(store.token_if_fresh(1_619_000).is_none());
    assert!(store.needs_refresh(1_619_000));
}

#[test]
fn cache_key_is_deterministic_and_normalized() {
    let req = search_request("FRA", "LHR", "2024-06-15");
    let key1 = cache_key(&req);
    let key2 = cache_key(&req);
    assert_eq!(key1, key2);
    assert_eq!(key1, "flight_search:FRA:LHR:2024-06-15::1:0:0:ECONOMY:false:50");
}

#[test]
fn cache_key_separates_price_affecting_fields() {
    let base = search_request("FRA", "LHR", "2024-06-15");
    let mut other_airport = search_request("FRA", "JFK", "2024-06-15");
    other_airport.adults = 1;
    assert_ne!(cache_key(&base), cache_key(&other_airport));
    let mut more_adults = search_request("FRA", "LHR", "2024-06-15");
    more_adults.adults = 2;
    assert_ne!(cache_key(&base), cache_key(&more_adults));
    let mut business = search_request("FRA", "LHR", "2024-06-15");
    business.travel_class = Some("BUSINESS".to_string());
    assert_ne!(cache_key(&base), cache_key(&business));
    let mut non_stop = search_request("FRA", "LHR", "2024-06-15");
    non_stop.non_stop = Some(true);
    assert_ne!(cache_key(&base), cache_key(&non_stop));
}

#[test]
fn decimal_rendering_matches_expectations() {
    assert_eq!(u32_to_string(0), "0");
    assert_eq!(u32_to_string(42), "42");
    assert_eq!(u32_to_string(4_294_967_295), "4294967295");
    assert_eq!(i32_to_string(-17), "-17");
    assert_eq!(i32_to_string(250), "250");
    assert_eq!(i32_to_string(i32::MIN), "-2147483648");
}

#[test]
fn lexicographic_order_matches_calendar_order() {
    assert!(str_lt("2024-06-15", "2024-06-22"));
    assert!(!str_lt("2024-06-22", "2024-06-15"));
    assert!(!str_lt("2024-06-15", "2024-06-15"));
    assert!(str_lt("2023-12-31", "2024-01-01"));
}

#[test]
fn substring_search_finds_codes() {
    assert!(str_contains("error code 39397 reported", "39397"));
    assert!(!str_contains("error code 3939 reported", "39397"));
    assert!(str_contains("abc", ""));
    assert!(!str_contains("", "a"));
}

#[test]
fn error_labels_name_the_variant() {
    assert_eq!(ApiError::RateLimitExceeded.label(), "rate limit exceeded");
    assert_eq!(ApiError::CacheUnavailable.label(), "cache unavailable");
    assert_eq!(
        ApiError::UpstreamError { status: 502, body: String::new() }.label(),
        "upstream error"
    );
}
