use flight_query::errors::ApiError;
use flight_query::fanout::{
    item_step, FanOutScheduler, ItemEvent, ItemPhase, ScheduleAction,
};
use flight_query::provider::{
    combine_results, combined_content_source, price_cents, price_key, sort_by_price,
    ContentSource, PricedItem,
};
use flight_query::stream::{emit_stream, Emitter, Outcome, StreamEvent};

fn ok_outcome(id: &str) -> Outcome<String> {
    Outcome::Success { item_id: id.to_string(), payload: format!("payload-{}", id) }
}

fn failed_outcome(id: &str) -> Outcome<String> {
    Outcome::Failure { item_id: id.to_string(), message: format!("error-{}", id) }
}

#[test]
fn ten_outcomes_with_two_failures_stream_accurately() {
    // A batch of 10 sub-queries of which exactly 2 fail produces 8 success
    // events, 2 error events, and one final completion with those counts.
    let mut outcomes = Vec::new();
    for i in 0..10 {
        if i == 3 || i == 7 {
            outcomes.push(failed_outcome(&format!("{}", i)));
        } else {
            outcomes.push(ok_outcome(&format!("{}", i)));
        }
    }
    let events = emit_stream(outcomes, 5);
    let successes = events
        .iter()
        .filter(|e| matches!(e, StreamEvent::Success { .. }))
        .count();
    let errors = events.iter().filter(|e| matches!(e, StreamEvent::Error { .. })).count();
    let completes: Vec<&StreamEvent<String>> = events
        .iter()
        .filter(|e| matches!(e, StreamEvent::Complete { .. }))
        .collect();
    assert_eq!(successes, 8);
    assert_eq!(errors, 2);
    assert_eq!(completes.len(), 1);
    match events.last().expect("stream is never empty") {
        StreamEvent::Complete { total, ok, failed } => {
            assert_eq!(*total, 10);
            assert_eq!(*ok, 8);
            assert_eq!(*failed, 2);
        },
        other => panic!("last event must be the completion, got {:?}", other),
    }
}

#[test]
fn progress_counters_increase_strictly() {
    let outcomes: Vec<Outcome<String>> = (0..10).map(|i| ok_outcome(&format!("{}", i))).collect();
    let events = emit_stream(outcomes, 3);
    let counters: Vec<usize> = events
        .iter()
        .filter_map(|e| match e {
            StreamEvent::Progress { current, .. } => Some(*current),
            _ => None,
        })
        .collect();
    assert_eq!(counters, vec![3, 6, 9, 10]);
    for w in counters.windows(2) {
        assert!(w[0] < w[1]);
    }
}

#[test]
fn empty_batch_completes_at_once() {
    let events = emit_stream(Vec::<Outcome<String>>::new(), 5);
    assert_eq!(events.len(), 1);
    assert_eq!(events[0], StreamEvent::Complete { total: 0, ok: 0, failed: 0 });
}

#[test]
fn emitter_reports_terminal_then_progress_then_complete() {
    let mut emitter = Emitter::new(2, 1);
    let first = emitter.on_outcome(ok_outcome("a"));
    assert_eq!(first.len(), 2);
    assert!(matches!(first[0], StreamEvent::Success { .. }));
    assert_eq!(first[1], StreamEvent::Progress { current: 1, total: 2 });
    let second = emitter.on_outcome(failed_outcome("b"));
    assert_eq!(second.len(), 3);
    assert!(matches!(second[0], StreamEvent::Error { .. }));
    assert_eq!(second[1], StreamEvent::Progress { current: 2, total: 2 });
    assert_eq!(second[2], StreamEvent::Complete { total: 2, ok: 1, failed: 1 });
}

#[test]
fn scheduler_respects_the_concurrency_bound() {
    let mut scheduler = FanOutScheduler::new(3, 2);
    assert_eq!(scheduler.next_action(), ScheduleAction::Launch { index: 0 });
    scheduler.on_launched();
    assert_eq!(scheduler.next_action(), ScheduleAction::Launch { index: 1 });
    scheduler.on_launched();
    // Both slots are busy: the third sub-query must wait.
    assert_eq!(scheduler.next_action(), ScheduleAction::Wait);
    scheduler.on_completed();
    assert_eq!(scheduler.next_action(), ScheduleAction::Launch { index: 2 });
    scheduler.on_launched();
    scheduler.on_completed();
    assert_eq!(scheduler.next_action(), ScheduleAction::Wait);
    scheduler.on_completed();
    assert_eq!(scheduler.next_action(), ScheduleAction::Done);
}

#[test]
fn cancellation_stops_new_work_only() {
    let mut scheduler = FanOutScheduler::new(5, 2);
    scheduler.on_launched();
    scheduler.cancel();
    // Nothing new starts, but the dispatched sub-query still completes.
    assert_eq!(scheduler.next_action(), ScheduleAction::Wait);
    scheduler.on_completed();
    assert_eq!(scheduler.next_action(), ScheduleAction::Done);
}

#[test]
fn cache_hit_finishes_without_the_limiter_or_the_caller() {
    // A cache hit never invokes the pacing gate or the retrying caller: the
    // item finishes straight from the cache lookup.
    let phase: ItemPhase<String> = ItemPhase::CheckCache;
    let hit = item_step(
        phase,
        ItemEvent::CacheLookup { found: Some("cached".to_string()) },
    );
    assert_eq!(
        hit,
        ItemPhase::Finished { result: Ok("cached".to_string()), from_cache: true }
    );
    // Later events change nothing: the limiter is never engaged.
    let after = item_step(hit, ItemEvent::LimiterReady);
    assert_eq!(
        after,
        ItemPhase::Finished { result: Ok("cached".to_string()), from_cache: true }
    );
}

#[test]
fn cache_miss_goes_through_limiter_call_and_store() {
    let phase: ItemPhase<String> = ItemPhase::CheckCache;
    let phase = item_step(phase, ItemEvent::CacheLookup { found: None });
    assert_eq!(phase, ItemPhase::AwaitLimiter);
    let phase = item_step(phase, ItemEvent::LimiterReady);
    assert_eq!(phase, ItemPhase::CallUpstream);
    let phase = item_step(phase, ItemEvent::CallFinished { result: Ok("fresh".to_string()) });
    assert_eq!(phase, ItemPhase::StoreResult { payload: "fresh".to_string() });
    // A failed best-effort store still finishes the item successfully.
    let phase = item_step(phase, ItemEvent::StoreFinished { ok: false });
    assert_eq!(
        phase,
        ItemPhase::Finished { result: Ok("fresh".to_string()), from_cache: false }
    );
}

#[test]
fn failed_call_finishes_the_item_with_its_error() {
    let phase: ItemPhase<String> = ItemPhase::CheckCache;
    let phase = item_step(phase, ItemEvent::CacheLookup { found: None });
    let phase = item_step(phase, ItemEvent::LimiterReady);
    let phase = item_step(
        phase,
        ItemEvent::CallFinished { result: Err(ApiError::RateLimitExceeded) },
    );
    assert_eq!(
        phase,
        ItemPhase::Finished { result: Err(ApiError::RateLimitExceeded), from_cache: false }
    );
}

#[test]
fn price_parsing_reads_decimal_amounts_as_cents() {
    assert_eq!(price_cents("500.00"), Some(50_000));
    assert_eq!(price_cents("299.9"), Some(29_990));
    assert_eq!(price_cents("299"), Some(29_900));
    assert_eq!(price_cents("299."), Some(29_900));
    assert_eq!(price_cents("0.07"), Some(7));
    assert_eq!(price_cents(""), None);
    assert_eq!(price_cents("12.345"), None);
    assert_eq!(price_cents("-5"), None);
    assert_eq!(price_cents("1.2.3"), None);
    assert_eq!(price_cents("abc"), None);
    assert_eq!(price_key("500.00"), 50_000);
    assert_eq!(price_key("not a price"), u64::MAX);
}

#[test]
fn combined_sources_sort_ascending_by_price() {
    // Primary [$500] and secondary [$300] merge to [$300, $500].
    let primary = Ok(vec![PricedItem { key: price_key("500.00"), item: "primary".to_string() }]);
    let secondary = Some(Ok(vec![
        PricedItem { key: price_key("300.00"), item: "secondary".to_string() },
    ]));
    let merged = combine_results(primary, secondary).expect("both sources succeeded");
    assert_eq!(merged.len(), 2);
    assert_eq!(merged[0].item, "secondary");
    assert_eq!(merged[0].key, 30_000);
    assert_eq!(merged[1].item, "primary");
    assert_eq!(merged[1].key, 50_000);
}

#[test]
fn secondary_failure_is_never_surfaced() {
    // With the secondary failing, the primary's [$500] is returned alone and
    // no error reaches the caller.
    let primary = Ok(vec![PricedItem { key: price_key("500.00"), item: "primary".to_string() }]);
    let secondary = Some(Err(ApiError::UpstreamError { status: 500, body: String::new() }));
    let merged = combine_results(primary, secondary).expect("secondary failure is absorbed");
    assert_eq!(merged.len(), 1);
    assert_eq!(merged[0].item, "primary");
}

#[test]
fn primary_failure_falls_back_to_the_secondary() {
    let primary: Result<Vec<PricedItem<String>>, ApiError> =
        Err(ApiError::UpstreamError { status: 502, body: String::new() });
    let secondary = Some(Ok(vec![
        PricedItem { key: price_key("300.00"), item: "secondary".to_string() },
    ]));
    let merged = combine_results(primary, secondary).expect("secondary succeeded");
    assert_eq!(merged.len(), 1);
    assert_eq!(merged[0].item, "secondary");
}

#[test]
fn both_failing_propagates_the_primary_error() {
    let primary: Result<Vec<PricedItem<String>>, ApiError> =
        Err(ApiError::UpstreamError { status: 502, body: "primary down".to_string() });
    let secondary = Some(Err(ApiError::UpstreamError { status: 500, body: String::new() }));
    let merged = combine_results(primary, secondary);
    assert_eq!(
        merged,
        Err(ApiError::UpstreamError { status: 502, body: "primary down".to_string() })
    );
}

#[test]
fn unparseable_prices_sort_last() {
    let items = vec![
        PricedItem { key: price_key("n/a"), item: "unpriced".to_string() },
        PricedItem { key: price_key("120.50"), item: "cheap".to_string() },
        PricedItem { key: price_key("500.00"), item: "dear".to_string() },
    ];
    let sorted = sort_by_price(items);
    assert_eq!(sorted[0].item, "cheap");
    assert_eq!(sorted[1].item, "dear");
    assert_eq!(sorted[2].item, "unpriced");
}

#[test]
fn content_source_reflects_the_configuration() {
    assert_eq!(combined_content_source(false), ContentSource::Gds);
    assert_eq!(combined_content_source(true), ContentSource::Combined);
}
