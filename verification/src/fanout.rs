//! Fan-out scheduler and the per-item cache-aside pipeline.
//!
//! A batch's sub-queries are executed with bounded concurrency: at most the
//! configured number run at once, each new one starting only when a slot is
//! free, and a consumer disconnect cancels all work not yet started. Each
//! sub-query runs the same pipeline: consult the cache first; on a hit the
//! result is served without touching the pacing gate or the upstream; on a
//! miss wait for the pacing gate, call upstream through the retrying caller,
//! and store a successful result back best-effort — a store failure never
//! fails the item. The scheduler and the pipeline decide; the caller
//! performs the cache round-trips, the sleeps and the upstream calls.

use vstd::prelude::*;
use crate::errors::ApiError;

verus! {

/// What the scheduler asks its driver to do next.
#[derive(Debug, Clone, PartialEq, Eq)]
pub enum ScheduleAction {
    /// Start the sub-query with this index now.
    Launch { index: usize },
    /// All slots are busy, or only finished work remains outstanding: wait
    /// for a completion.
    Wait,
    /// Every sub-query that will run has finished; the batch is done.
    Done,
}

/// Scheduling state of one batch.
pub struct FanOutScheduler {
    /// Number of sub-queries in the batch.
    pub total: usize,
    /// Concurrency bound: at most this many run at once.
    pub bound: usize,
    /// Sub-queries started so far; indices `0 .. started` were handed out.
    pub started: usize,
    /// Sub-queries that reached their terminal outcome.
    pub completed: usize,
    /// Whether the consumer disconnected: no new work may start.
    pub cancelled: bool,
}

impl FanOutScheduler {
    /// Counts are consistent: completions never outrun starts, starts stay
    /// within the batch, and at most `bound` sub-queries are in flight.
    pub open spec fn wf(self) -> bool {
        &&& self.completed <= self.started <= self.total
        &&& self.started - self.completed <= self.bound
        &&& self.bound >= 1
    }

    /// Sub-queries currently running.
    pub open spec fn spec_in_flight(self) -> int {
        self.started - self.completed
    }

    /// Create a scheduler for `total` sub-queries with concurrency bound
    /// `bound`.
    pub fn new(total: usize, bound: usize) -> (scheduler: FanOutScheduler)
        requires
            bound >= 1,
        ensures
            scheduler.wf(),
            scheduler.total == total,
            scheduler.bound == bound,
            scheduler.started == 0,
            scheduler.completed == 0,
            !scheduler.cancelled,
    {
        FanOutScheduler { total, bound, started: 0, completed: 0, cancelled: false }
    }

    /// What to do next: launch the next sub-query when one remains and a
    /// slot is free (never after cancellation), wait while work is in
    /// flight, and report the batch done otherwise. Launched indices are
    /// sequential, so every sub-query is started at most once.
    pub fn next_action(&self) -> (action: ScheduleAction)
        requires
            self.wf(),
        ensures
            action == if !self.cancelled && self.started < self.total && self.spec_in_flight()
                < self.bound {
                ScheduleAction::Launch { index: self.started }
            } else if self.spec_in_flight() > 0 {
                ScheduleAction::Wait
            } else {
                ScheduleAction::Done
            },
    {
        if !self.cancelled && self.started < self.total && self.started - self.completed
            < self.bound {
            ScheduleAction::Launch { index: self.started }
        } else if self.started > self.completed {
            ScheduleAction::Wait
        } else {
            ScheduleAction::Done
        }
    }

    /// Record that the announced sub-query was started.
    pub fn on_launched(&mut self)
        requires
            old(self).wf(),
            old(self).started < old(self).total,
            old(self).spec_in_flight() < old(self).bound,
        ensures
            final(self).wf(),
            *final(self) == (FanOutScheduler {
                started: (old(self).started + 1) as usize,
                ..*old(self)
            }),
    {
        self.started = self.started + 1;
    }

    /// Record that one running sub-query reached its terminal outcome.
    pub fn on_completed(&mut self)
        requires
            old(self).wf(),
            old(self).spec_in_flight() > 0,
        ensures
            final(self).wf(),
            *final(self) == (FanOutScheduler {
                completed: (old(self).completed + 1) as usize,
                ..*old(self)
            }),
    {
        self.completed = self.completed + 1;
    }

    /// The consumer disconnected: stop scheduling new sub-queries. Work
    /// already dispatched may still complete.
    pub fn cancel(&mut self)
        requires
            old(self).wf(),
        ensures
            final(self).wf(),
            *final(self) == (FanOutScheduler { cancelled: true, ..*old(self) }),
    {
        self.cancelled = true;
    }

    /// Law: the scheduler reports the batch done only when nothing is in
    /// flight, and — unless cancelled — only when every sub-query has been
    /// started and has completed: no sub-query is lost, each reaches exactly
    /// one terminal outcome.
    pub proof fn lemma_done_means_all_terminal(self)
        requires
            self.wf(),
        ensures
            (self.next_action_spec() == ScheduleAction::Done) ==> self.completed == self.started,
            (self.next_action_spec() == ScheduleAction::Done && !self.cancelled)
                ==> self.completed == self.total,
    {
    }

    /// The action `next_action` returns, as a spec-level value.
    pub open spec fn next_action_spec(self) -> ScheduleAction {
        if !self.cancelled && self.started < self.total && self.spec_in_flight() < self.bound {
            ScheduleAction::Launch { index: self.started }
        } else if self.spec_in_flight() > 0 {
            ScheduleAction::Wait
        } else {
            ScheduleAction::Done
        }
    }
}

/// Where one sub-query stands in its pipeline.
#[derive(Debug, PartialEq, Eq)]
pub enum ItemPhase<T> {
    /// Consult the cache before anything else.
    CheckCache,
    /// Cache miss: wait for the pacing gate before calling upstream.
    AwaitLimiter,
    /// The pacing gate opened: the upstream call is running.
    CallUpstream,
    /// The call succeeded: store the result in the cache, best-effort.
    StoreResult { payload: T },
    /// The sub-query reached its terminal outcome.
    Finished { result: Result<T, ApiError>, from_cache: bool },
}

/// What the driver reports back to the pipeline.
#[derive(Debug, PartialEq, Eq)]
pub enum ItemEvent<T> {
    /// The cache lookup came back; an unavailable cache reports a miss.
    CacheLookup { found: Option<T> },
    /// The pacing gate released this sub-query.
    LimiterReady,
    /// The retried upstream call ended.
    CallFinished { result: Result<T, ApiError> },
    /// The best-effort cache store ended, successfully or not.
    StoreFinished { ok: bool },
}

/// The pipeline's transition function: a cache hit finishes the item at
/// once; a miss goes through the pacing gate and the upstream call; a
/// successful call is stored back, and the store's outcome — success or
/// failure — never changes the item's successful result. Events that do not
/// belong to the current phase change nothing.
pub open spec fn spec_item_step<T>(phase: ItemPhase<T>, event: ItemEvent<T>) -> ItemPhase<T> {
    match (phase, event) {
        (ItemPhase::CheckCache, ItemEvent::CacheLookup { found }) => match found {
            Some(payload) => ItemPhase::Finished { result: Ok(payload), from_cache: true },
            None => ItemPhase::AwaitLimiter,
        },
        (ItemPhase::AwaitLimiter, ItemEvent::LimiterReady) => ItemPhase::CallUpstream,
        (ItemPhase::CallUpstream, ItemEvent::CallFinished { result }) => match result {
            Ok(payload) => ItemPhase::StoreResult { payload },
            Err(e) => ItemPhase::Finished { result: Err(e), from_cache: false },
        },
        (ItemPhase::StoreResult { payload }, ItemEvent::StoreFinished { .. }) => {
            ItemPhase::Finished { result: Ok(payload), from_cache: false }
        },
        (phase, _) => phase,
    }
}

/// Advance one sub-query's pipeline by one event.
pub fn item_step<T>(phase: ItemPhase<T>, event: ItemEvent<T>) -> (next: ItemPhase<T>)
    ensures
        next == spec_item_step(phase, event),
{
    match (phase, event) {
        (ItemPhase::CheckCache, ItemEvent::CacheLookup { found }) => match found {
            Some(payload) => ItemPhase::Finished { result: Ok(payload), from_cache: true },
            None => ItemPhase::AwaitLimiter,
        },
        (ItemPhase::AwaitLimiter, ItemEvent::LimiterReady) => ItemPhase::CallUpstream,
        (ItemPhase::CallUpstream, ItemEvent::CallFinished { result }) => match result {
            Ok(payload) => ItemPhase::StoreResult { payload },
            Err(e) => ItemPhase::Finished { result: Err(e), from_cache: false },
        },
        (ItemPhase::StoreResult { payload }, ItemEvent::StoreFinished { .. }) => {
            ItemPhase::Finished { result: Ok(payload), from_cache: false }
        },
        (phase, _) => phase,
    }
}

/// The phases a pipeline run passes through, the starting phase included.
pub open spec fn spec_item_run<T>(events: Seq<ItemEvent<T>>) -> Seq<ItemPhase<T>>
    decreases events.len(),
{
    if events.len() == 0 {
        seq![ItemPhase::CheckCache]
    } else {
        let sofar = spec_item_run(events.drop_last());
        sofar.push(spec_item_step(sofar.last(), events.last()))
    }
}

/// Law: a cache hit never engages the pacing gate or the upstream caller.
/// In any run whose first event reports a cache hit, no phase is ever
/// `AwaitLimiter`, `CallUpstream` or `StoreResult`: the item finishes from
/// the cache at once and stays finished.
pub proof fn lemma_cache_hit_skips_limiter_and_caller<T>(
    events: Seq<ItemEvent<T>>,
    payload: T,
)
    requires
        events.len() >= 1,
        events[0] == (ItemEvent::CacheLookup { found: Some(payload) }),
    ensures
        forall|k: int|
            1 <= k < spec_item_run(events).len() ==> #[trigger] spec_item_run(events)[k] == (
            ItemPhase::Finished { result: Ok::<T, ApiError>(payload), from_cache: true }),
    decreases events.len(),
{
    let run = spec_item_run(events);
    lemma_item_run_len(events);
    if events.len() == 1 {
        assert(events.drop_last().len() == 0);
        assert(run[1] == spec_item_step(ItemPhase::CheckCache, events[0]));
    } else {
        lemma_cache_hit_skips_limiter_and_caller(events.drop_last(), payload);
        lemma_item_run_len(events.drop_last());
        assert(events.drop_last()[0] == events[0]);
        let sofar = spec_item_run(events.drop_last());
        assert forall|k: int| 1 <= k < run.len() implies #[trigger] run[k] == (ItemPhase::Finished {
            result: Ok::<T, ApiError>(payload),
            from_cache: true,
        }) by {
            if k < sofar.len() {
                assert(run[k] == sofar[k]);
            } else {
                assert(run[k] == spec_item_step(sofar.last(), events.last()));
                assert(sofar.last() == sofar[sofar.len() - 1]);
            }
        }
    }
}

/// A run records one phase more than it has events.
proof fn lemma_item_run_len<T>(events: Seq<ItemEvent<T>>)
    ensures
        spec_item_run(events).len() == events.len() + 1,
    decreases events.len(),
{
    if events.len() > 0 {
        lemma_item_run_len(events.drop_last());
    }
}

/// Law: a cache store failure never fails the item. Whatever the store
/// reports, a stored result finishes successfully with the payload the
/// upstream returned.
pub proof fn lemma_store_failure_never_fails_item<T>(payload: T, store_ok: bool)
    ensures
        spec_item_step(
            ItemPhase::StoreResult { payload },
            ItemEvent::StoreFinished { ok: store_ok },
        ) == (ItemPhase::Finished { result: Ok::<T, ApiError>(payload), from_cache: false }),
{
}

} // verus!
