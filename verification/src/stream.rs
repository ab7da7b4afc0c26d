//! Streaming emitter: turns sub-query outcomes into an ordered event stream.
//!
//! As sub-queries reach their terminal outcomes, the emitter produces an
//! append-only event sequence for one consumer: one terminal event (success
//! or error) per sub-query, a progress event at a bounded cadence, and
//! exactly one completion event, always last, carrying the final success and
//! failure counts.

use vstd::prelude::*;

verus! {

/// A terminal outcome of one sub-query: its result or its isolated error.
#[derive(Debug, Clone, PartialEq, Eq)]
pub enum Outcome<P> {
    Success { item_id: String, payload: P },
    Failure { item_id: String, message: String },
}

/// One event of the stream handed to the consumer.
#[derive(Debug, Clone, PartialEq, Eq)]
pub enum StreamEvent<P> {
    /// Periodic progress: how many of how many sub-queries are done.
    Progress { current: usize, total: usize },
    /// A sub-query succeeded.
    Success { item_id: String, payload: P },
    /// A sub-query failed; the batch continues.
    Error { item_id: String, message: String },
    /// The stream is complete; always the last event, exactly once.
    Complete { total: usize, ok: usize, failed: usize },
}

/// Event of the date-matrix price stream.
#[derive(Debug, Clone, PartialEq, Eq)]
pub enum PriceMatrixEvent {
    /// Cheapest price found for one date combination; none when the search
    /// for that combination failed or found no offer.
    Price { outbound_date: String, inbound_date: String, price: Option<String>, currency: String },
    /// Periodic progress.
    Progress { current: usize, total: usize },
    /// Final summary; always last.
    Complete { total: usize, successful: usize, failed: usize },
}

/// The terminal event for one outcome.
pub open spec fn spec_terminal_event<P>(outcome: Outcome<P>) -> StreamEvent<P> {
    match outcome {
        Outcome::Success { item_id, payload } => StreamEvent::Success { item_id, payload },
        Outcome::Failure { item_id, message } => StreamEvent::Error { item_id, message },
    }
}

/// Whether an outcome is a success.
pub open spec fn spec_outcome_ok<P>(outcome: Outcome<P>) -> bool {
    outcome is Success
}

/// The events emitted for the `emitted + 1`-th outcome of `total`: its
/// terminal event; a progress event when the cadence divides the new count
/// or the batch is done; and, on the last outcome, the completion event with
/// the final counts.
pub open spec fn spec_step_events<P>(
    outcome: Outcome<P>,
    emitted: int,
    ok: int,
    failed: int,
    total: int,
    progress_every: int,
) -> Seq<StreamEvent<P>> {
    let current = emitted + 1;
    let ok_after = if spec_outcome_ok(outcome) {
        ok + 1
    } else {
        ok
    };
    let failed_after = if spec_outcome_ok(outcome) {
        failed
    } else {
        failed + 1
    };
    seq![spec_terminal_event(outcome)] + (
    if current % progress_every == 0 || current == total {
        seq![StreamEvent::Progress { current: current as usize, total: total as usize }]
    } else {
        Seq::empty()
    }) + (
    if current == total {
        seq![
            StreamEvent::Complete {
                total: total as usize,
                ok: ok_after as usize,
                failed: failed_after as usize,
            },
        ]
    } else {
        Seq::empty()
    })
}

/// Progress of one batch's emission.
pub struct Emitter {
    /// Number of sub-queries in the batch.
    pub total: usize,
    /// Outcomes consumed so far.
    pub emitted: usize,
    /// Successes among them.
    pub ok: usize,
    /// Failures among them.
    pub failed: usize,
    /// A progress event is emitted every this many outcomes (and on the
    /// last).
    pub progress_every: usize,
}

impl Emitter {
    /// Counts are consistent and within the batch.
    pub open spec fn wf(self) -> bool {
        &&& self.emitted == self.ok + self.failed
        &&& self.emitted <= self.total
        &&& self.progress_every >= 1
    }

    /// Start emitting a batch of `total` sub-queries with the given progress
    /// cadence.
    pub fn new(total: usize, progress_every: usize) -> (emitter: Emitter)
        requires
            progress_every >= 1,
        ensures
            emitter.wf(),
            emitter.total == total,
            emitter.emitted == 0,
            emitter.ok == 0,
            emitter.failed == 0,
            emitter.progress_every == progress_every,
    {
        Emitter { total, emitted: 0, ok: 0, failed: 0, progress_every }
    }

    /// Consume one terminal outcome and return the events to append to the
    /// stream: the outcome's terminal event, a progress event at the
    /// cadence, and the completion event when this was the last outcome.
    pub fn on_outcome<P>(&mut self, outcome: Outcome<P>) -> (events: Vec<StreamEvent<P>>)
        requires
            old(self).wf(),
            old(self).emitted < old(self).total,
        ensures
            final(self).wf(),
            final(self).total == old(self).total,
            final(self).progress_every == old(self).progress_every,
            final(self).emitted == old(self).emitted + 1,
            final(self).ok == old(self).ok + if spec_outcome_ok(outcome) {
                1int
            } else {
                0int
            },
            final(self).failed == old(self).failed + if spec_outcome_ok(outcome) {
                0int
            } else {
                1int
            },
            events@ == spec_step_events(
                outcome,
                old(self).emitted as int,
                old(self).ok as int,
                old(self).failed as int,
                old(self).total as int,
                old(self).progress_every as int,
            ),
    {
        let ghost initial = *self;
        let is_ok = match &outcome {
            Outcome::Success { .. } => true,
            Outcome::Failure { .. } => false,
        };
        let mut events: Vec<StreamEvent<P>> = Vec::new();
        match outcome {
            Outcome::Success { item_id, payload } => {
                events.push(StreamEvent::Success { item_id, payload });
            },
            Outcome::Failure { item_id, message } => {
                events.push(StreamEvent::Error { item_id, message });
            },
        }
        self.emitted = self.emitted + 1;
        if is_ok {
            self.ok = self.ok + 1;
        } else {
            self.failed = self.failed + 1;
        }
        if self.emitted % self.progress_every == 0 || self.emitted == self.total {
            events.push(StreamEvent::Progress { current: self.emitted, total: self.total });
        }
        if self.emitted == self.total {
            events.push(
                StreamEvent::Complete { total: self.total, ok: self.ok, failed: self.failed },
            );
        }
        proof {
            assert(events@ =~= spec_step_events(
                outcome,
                initial.emitted as int,
                initial.ok as int,
                initial.failed as int,
                initial.total as int,
                initial.progress_every as int,
            ));
        }
        events
    }
}

/// Successes among a sequence of outcomes.
pub open spec fn spec_ok_count<P>(outcomes: Seq<Outcome<P>>) -> int
    decreases outcomes.len(),
{
    if outcomes.len() == 0 {
        0
    } else {
        spec_ok_count(outcomes.drop_last()) + if spec_outcome_ok(outcomes.last()) {
            1int
        } else {
            0int
        }
    }
}

/// The full event stream for a batch of outcomes consumed in order, with
/// counts accumulated from the given starting point.
pub open spec fn spec_stream_from<P>(
    outcomes: Seq<Outcome<P>>,
    emitted: int,
    ok: int,
    failed: int,
    total: int,
    progress_every: int,
) -> Seq<StreamEvent<P>>
    decreases outcomes.len(),
{
    if outcomes.len() == 0 {
        Seq::empty()
    } else {
        let first = outcomes[0];
        spec_step_events(first, emitted, ok, failed, total, progress_every) + spec_stream_from(
            outcomes.skip(1),
            emitted + 1,
            if spec_outcome_ok(first) {
                ok + 1
            } else {
                ok
            },
            if spec_outcome_ok(first) {
                failed
            } else {
                failed + 1
            },
            total,
            progress_every,
        )
    }
}

/// The event stream for a whole batch: the events of each outcome in order;
/// an empty batch completes at once.
pub open spec fn spec_stream<P>(outcomes: Seq<Outcome<P>>, progress_every: int) -> Seq<
    StreamEvent<P>,
> {
    if outcomes.len() == 0 {
        seq![StreamEvent::Complete { total: 0, ok: 0, failed: 0 }]
    } else {
        spec_stream_from(outcomes, 0, 0, 0, outcomes.len() as int, progress_every)
    }
}

/// Emit the whole event stream for a batch of terminal outcomes: every
/// outcome yields exactly one terminal event, progress appears at the given
/// cadence, and one completion event with the final counts ends the stream.
pub fn emit_stream<P>(outcomes: Vec<Outcome<P>>, progress_every: usize) -> (events: Vec<
    StreamEvent<P>,
>)
    requires
        progress_every >= 1,
    ensures
        events@ == spec_stream(outcomes@, progress_every as int),
{
    let total = outcomes.len();
    if total == 0 {
        let mut events: Vec<StreamEvent<P>> = Vec::new();
        events.push(StreamEvent::Complete { total: 0, ok: 0, failed: 0 });
        proof {
            assert(events@ =~= spec_stream(outcomes@, progress_every as int));
        }
        return events;
    }
    let mut emitter = Emitter::new(total, progress_every);
    let mut events: Vec<StreamEvent<P>> = Vec::new();
    let mut outcomes = outcomes;
    let ghost all = outcomes@;
    let mut i: usize = 0;
    proof {
        assert(all.skip(0) =~= all);
        assert(all.take(0) =~= Seq::<Outcome<P>>::empty());
        assert(events@ + spec_stream_from(all, 0, 0, 0, total as int, progress_every as int)
            =~= spec_stream_from(all, 0, 0, 0, total as int, progress_every as int));
    }
    while i < total
        invariant
            total == all.len(),
            outcomes@ == all.skip(i as int),
            i <= total,
            emitter.wf(),
            emitter.total == total,
            emitter.progress_every == progress_every,
            emitter.emitted == i,
            emitter.ok == spec_ok_count(all.take(i as int)),
            emitter.failed == i - spec_ok_count(all.take(i as int)),
            spec_stream_from(all, 0, 0, 0, total as int, progress_every as int) == events@
                + spec_stream_from(
                all.skip(i as int),
                i as int,
                emitter.ok as int,
                emitter.failed as int,
                total as int,
                progress_every as int,
            ),
        decreases total - i,
    {
        let ghost rest = all.skip(i as int);
        let ghost ok_before = emitter.ok as int;
        let ghost failed_before = emitter.failed as int;
        proof {
            assert(rest[0] == all[i as int]);
            assert(rest.skip(1) =~= all.skip(i + 1));
            assert(all.take(i + 1).drop_last() =~= all.take(i as int));
            assert(all.take(i + 1).last() == all[i as int]);
            lemma_ok_count_bound(all.take(i + 1));
            assert(outcomes@.remove(0) =~= all.skip(i + 1));
        }
        let outcome = outcomes.remove(0);
        let ghost events_before = events@;
        let mut step = emitter.on_outcome(outcome);
        let mut k: usize = 0;
        let step_total = step.len();
        let ghost step_view = step@;
        while step.len() > 0
            invariant
                step_total == step_view.len(),
                k <= step_total,
                k + step@.len() == step_view.len(),
                step@ == step_view.skip(k as int),
                events@ == events_before + step_view.take(k as int),
            decreases step_view.len() - k,
        {
            proof {
                assert(step@[0] == step_view[k as int]);
                assert(step@.remove(0) =~= step_view.skip(k + 1));
                assert(step_view.take(k + 1) =~= step_view.take(k as int).push(
                    step_view[k as int],
                ));
            }
            let e = step.remove(0);
            events.push(e);
            k = k + 1;
        }
        proof {
            assert(step_view.take(step_view.len() as int) =~= step_view);
            assert(events@ =~= events_before + step_view);
            assert(spec_stream_from(rest, i as int, ok_before, failed_before, total as int,
                progress_every as int) == step_view + spec_stream_from(
                all.skip(i + 1),
                i + 1,
                emitter.ok as int,
                emitter.failed as int,
                total as int,
                progress_every as int,
            ));
            assert(spec_stream_from(all, 0, 0, 0, total as int, progress_every as int) =~= events@
                + spec_stream_from(
                all.skip(i + 1),
                i + 1,
                emitter.ok as int,
                emitter.failed as int,
                total as int,
                progress_every as int,
            ));
        }
        i = i + 1;
    }
    proof {
        assert(all.skip(total as int) =~= Seq::<Outcome<P>>::empty());
        assert(events@ =~= spec_stream(all, progress_every as int));
    }
    events
}

/// The success count of a prefix never exceeds its length.
proof fn lemma_ok_count_bound<P>(outcomes: Seq<Outcome<P>>)
    ensures
        0 <= spec_ok_count(outcomes) <= outcomes.len(),
    decreases outcomes.len(),
{
    if outcomes.len() > 0 {
        lemma_ok_count_bound(outcomes.drop_last());
    }
}

/// The success count of a batch, counted from the front.
pub open spec fn spec_ok_count_front<P>(outcomes: Seq<Outcome<P>>) -> int
    decreases outcomes.len(),
{
    if outcomes.len() == 0 {
        0
    } else {
        (if spec_outcome_ok(outcomes[0]) {
            1int
        } else {
            0int
        }) + spec_ok_count_front(outcomes.skip(1))
    }
}

/// Whether an event is a terminal event (a sub-query's success or error).
pub open spec fn spec_is_terminal<P>(event: StreamEvent<P>) -> bool {
    event is Success || event is Error
}

/// The subsequence of terminal events in a stream.
pub open spec fn spec_terminals<P>(events: Seq<StreamEvent<P>>) -> Seq<StreamEvent<P>>
    decreases events.len(),
{
    if events.len() == 0 {
        Seq::empty()
    } else if spec_is_terminal(events[0]) {
        seq![events[0]] + spec_terminals(events.skip(1))
    } else {
        spec_terminals(events.skip(1))
    }
}

/// Terminal extraction of a single event.
proof fn lemma_terminals_single<P>(e: StreamEvent<P>)
    ensures
        spec_terminals(seq![e]) == if spec_is_terminal(e) {
            seq![e]
        } else {
            Seq::<StreamEvent<P>>::empty()
        },
{
    reveal_with_fuel(spec_terminals, 2);
    assert(seq![e].skip(1) =~= Seq::<StreamEvent<P>>::empty());
    if spec_is_terminal(e) {
        assert(spec_terminals(seq![e]) =~= seq![e]);
    } else {
        assert(spec_terminals(seq![e]) =~= Seq::<StreamEvent<P>>::empty());
    }
}

/// The events one step emits are its terminal event and, possibly, one
/// progress and one completion event.
proof fn lemma_step_terminals<P>(
    outcome: Outcome<P>,
    emitted: int,
    ok: int,
    failed: int,
    total: int,
    progress_every: int,
)
    ensures
        spec_terminals(spec_step_events(outcome, emitted, ok, failed, total, progress_every))
            == seq![spec_terminal_event(outcome)],
{
    let current = emitted + 1;
    let ok_after = if spec_outcome_ok(outcome) {
        ok + 1
    } else {
        ok
    };
    let failed_after = if spec_outcome_ok(outcome) {
        failed
    } else {
        failed + 1
    };
    let t = seq![spec_terminal_event(outcome)];
    let p: Seq<StreamEvent<P>> = if current % progress_every == 0 || current == total {
        seq![StreamEvent::Progress { current: current as usize, total: total as usize }]
    } else {
        Seq::empty()
    };
    let c: Seq<StreamEvent<P>> = if current == total {
        seq![
            StreamEvent::Complete {
                total: total as usize,
                ok: ok_after as usize,
                failed: failed_after as usize,
            },
        ]
    } else {
        Seq::empty()
    };
    assert(spec_step_events(outcome, emitted, ok, failed, total, progress_every) == t + p + c);
    lemma_terminals_add(t + p, c);
    lemma_terminals_add(t, p);
    lemma_terminals_single(spec_terminal_event(outcome));
    if current % progress_every == 0 || current == total {
        lemma_terminals_single(
            StreamEvent::<P>::Progress { current: current as usize, total: total as usize },
        );
    }
    if current == total {
        lemma_terminals_single(
            StreamEvent::<P>::Complete {
                total: total as usize,
                ok: ok_after as usize,
                failed: failed_after as usize,
            },
        );
    }
    assert(spec_terminals(t + p + c) =~= t);
}

/// Terminal extraction distributes over concatenation.
proof fn lemma_terminals_add<P>(a: Seq<StreamEvent<P>>, b: Seq<StreamEvent<P>>)
    ensures
        spec_terminals(a + b) == spec_terminals(a) + spec_terminals(b),
    decreases a.len(),
{
    if a.len() == 0 {
        assert(a + b =~= b);
        assert(spec_terminals(a) + spec_terminals(b) =~= spec_terminals(b));
    } else {
        lemma_terminals_add(a.skip(1), b);
        assert((a + b).skip(1) =~= a.skip(1) + b);
        if spec_is_terminal(a[0]) {
            assert(spec_terminals(a + b) =~= spec_terminals(a) + spec_terminals(b));
        }
    }
}

/// Law: each sub-query yields exactly one terminal event, and the terminal
/// events of the stream are exactly the outcomes' events, in consumption
/// order.
pub proof fn lemma_stream_one_terminal_each<P>(outcomes: Seq<Outcome<P>>, progress_every: int)
    ensures
        spec_terminals(spec_stream(outcomes, progress_every)) == outcomes.map_values(
            |o: Outcome<P>| spec_terminal_event(o),
        ),
    decreases outcomes.len(),
{
    if outcomes.len() == 0 {
        lemma_terminals_single(StreamEvent::<P>::Complete { total: 0, ok: 0, failed: 0 });
        assert(spec_terminals(spec_stream(outcomes, progress_every)) =~= outcomes.map_values(
            |o: Outcome<P>| spec_terminal_event(o),
        ));
    } else {
        lemma_stream_from_terminals(
            outcomes,
            0,
            0,
            0,
            outcomes.len() as int,
            progress_every,
        );
    }
}

/// The terminal events of a stream fragment are its outcomes' events.
proof fn lemma_stream_from_terminals<P>(
    outcomes: Seq<Outcome<P>>,
    emitted: int,
    ok: int,
    failed: int,
    total: int,
    progress_every: int,
)
    ensures
        spec_terminals(
            spec_stream_from(outcomes, emitted, ok, failed, total, progress_every),
        ) == outcomes.map_values(|o: Outcome<P>| spec_terminal_event(o)),
    decreases outcomes.len(),
{
    let mapped = outcomes.map_values(|o: Outcome<P>| spec_terminal_event(o));
    if outcomes.len() == 0 {
        assert(spec_terminals(Seq::<StreamEvent<P>>::empty()) =~= mapped);
    } else {
        let first = outcomes[0];
        let ok2 = if spec_outcome_ok(first) {
            ok + 1
        } else {
            ok
        };
        let failed2 = if spec_outcome_ok(first) {
            failed
        } else {
            failed + 1
        };
        lemma_stream_from_terminals(
            outcomes.skip(1),
            emitted + 1,
            ok2,
            failed2,
            total,
            progress_every,
        );
        let step = spec_step_events(first, emitted, ok, failed, total, progress_every);
        let rest = spec_stream_from(
            outcomes.skip(1),
            emitted + 1,
            ok2,
            failed2,
            total,
            progress_every,
        );
        lemma_terminals_add(step, rest);
        lemma_step_terminals(first, emitted, ok, failed, total, progress_every);
        assert(spec_terminals(step + rest) =~= mapped) by {
            assert(mapped[0] == spec_terminal_event(first));
            assert(mapped.skip(1) =~= outcomes.skip(1).map_values(
                |o: Outcome<P>| spec_terminal_event(o),
            ));
        }
    }
}

/// Law: a stream holds exactly one completion event, and it is the last
/// event, carrying the batch's size and its final success and failure
/// counts.
pub proof fn lemma_stream_complete_last<P>(outcomes: Seq<Outcome<P>>, progress_every: int)
    requires
        progress_every >= 1,
    ensures
        spec_stream(outcomes, progress_every).len() >= 1,
        spec_stream(outcomes, progress_every).last() == (StreamEvent::<P>::Complete {
            total: outcomes.len() as usize,
            ok: spec_ok_count_front(outcomes) as usize,
            failed: (outcomes.len() - spec_ok_count_front(outcomes)) as usize,
        }),
        forall|k: int|
            0 <= k < spec_stream(outcomes, progress_every).len() - 1 ==> !(
            #[trigger] spec_stream(outcomes, progress_every)[k] is Complete),
{
    if outcomes.len() == 0 {
        assert(spec_ok_count_front(outcomes) == 0);
    } else {
        lemma_ok_count_front_bound(outcomes);
        lemma_stream_from_complete(outcomes, 0, 0, 0, outcomes.len() as int, progress_every);
    }
}

/// The success count from the front never exceeds the length.
proof fn lemma_ok_count_front_bound<P>(outcomes: Seq<Outcome<P>>)
    ensures
        0 <= spec_ok_count_front(outcomes) <= outcomes.len(),
    decreases outcomes.len(),
{
    if outcomes.len() > 0 {
        lemma_ok_count_front_bound(outcomes.skip(1));
    }
}

/// In a stream fragment that finishes the batch, the completion event is
/// exactly the last event, with the accumulated final counts.
proof fn lemma_stream_from_complete<P>(
    outcomes: Seq<Outcome<P>>,
    emitted: int,
    ok: int,
    failed: int,
    total: int,
    progress_every: int,
)
    requires
        outcomes.len() >= 1,
        emitted + outcomes.len() == total,
        emitted == ok + failed,
    ensures
        spec_stream_from(outcomes, emitted, ok, failed, total, progress_every).len() >= 1,
        spec_stream_from(outcomes, emitted, ok, failed, total, progress_every).last() == (
        StreamEvent::<P>::Complete {
            total: total as usize,
            ok: (ok + spec_ok_count_front(outcomes)) as usize,
            failed: (failed + outcomes.len() - spec_ok_count_front(outcomes)) as usize,
        }),
        forall|k: int|
            0 <= k < spec_stream_from(outcomes, emitted, ok, failed, total, progress_every).len()
                - 1 ==> !(#[trigger] spec_stream_from(
                outcomes,
                emitted,
                ok,
                failed,
                total,
                progress_every,
            )[k] is Complete),
    decreases outcomes.len(),
{
    let whole = spec_stream_from(outcomes, emitted, ok, failed, total, progress_every);
    let first = outcomes[0];
    let ok2 = if spec_outcome_ok(first) {
        ok + 1
    } else {
        ok
    };
    let failed2 = if spec_outcome_ok(first) {
        failed
    } else {
        failed + 1
    };
    let step = spec_step_events(first, emitted, ok, failed, total, progress_every);
    if outcomes.len() == 1 {
        assert(outcomes.skip(1).len() == 0);
        assert(whole =~= step);
        assert(spec_ok_count_front(outcomes.skip(1)) == 0);
        assert(step.last() is Complete);
        assert forall|k: int| 0 <= k < whole.len() - 1 implies !(#[trigger] whole[k] is Complete)
        by {
            assert(whole[0] == spec_terminal_event(first));
            if k == 1 {
                assert(whole[1] is Progress);
            }
        }
    } else {
        lemma_stream_from_complete(
            outcomes.skip(1),
            emitted + 1,
            ok2,
            failed2,
            total,
            progress_every,
        );
        let rest = spec_stream_from(
            outcomes.skip(1),
            emitted + 1,
            ok2,
            failed2,
            total,
            progress_every,
        );
        assert(whole =~= step + rest);
        assert(step.len() <= 2 && (forall|k: int|
            0 <= k < step.len() ==> !(#[trigger] step[k] is Complete))) by {
            assert(step[0] == spec_terminal_event(first));
        }
        assert(whole.last() == rest.last());
        assert forall|k: int| 0 <= k < whole.len() - 1 implies !(#[trigger] whole[k] is Complete)
        by {
            if k < step.len() {
                assert(whole[k] == step[k]);
            } else {
                assert(whole[k] == rest[k - step.len()]);
            }
        }
        assert(ok2 + spec_ok_count_front(outcomes.skip(1)) == ok + spec_ok_count_front(outcomes));
    }
}

/// The progress counters found in a stream fragment.
pub open spec fn spec_progress_counters<P>(events: Seq<StreamEvent<P>>) -> Seq<int>
    decreases events.len(),
{
    if events.len() == 0 {
        Seq::empty()
    } else {
        (match events[0] {
            StreamEvent::Progress { current, .. } => seq![current as int],
            _ => Seq::empty(),
        }) + spec_progress_counters(events.skip(1))
    }
}

/// Progress-counter extraction distributes over concatenation.
proof fn lemma_progress_counters_add<P>(a: Seq<StreamEvent<P>>, b: Seq<StreamEvent<P>>)
    ensures
        spec_progress_counters(a + b) == spec_progress_counters(a) + spec_progress_counters(b),
    decreases a.len(),
{
    if a.len() == 0 {
        assert(a + b =~= b);
        assert(spec_progress_counters(a) + spec_progress_counters(b) =~= spec_progress_counters(
            b,
        ));
    } else {
        lemma_progress_counters_add(a.skip(1), b);
        assert((a + b).skip(1) =~= a.skip(1) + b);
        assert(spec_progress_counters(a + b) =~= spec_progress_counters(a)
            + spec_progress_counters(b));
    }
}

/// A sequence of counters is strictly increasing.
pub open spec fn spec_strictly_increasing(counters: Seq<int>) -> bool {
    forall|k1: int, k2: int|
        0 <= k1 < k2 < counters.len() ==> #[trigger] counters[k1] < #[trigger] counters[k2]
}

/// Law: the progress events of a stream are strictly monotonic in their
/// counter.
pub proof fn lemma_stream_progress_monotonic<P>(outcomes: Seq<Outcome<P>>, progress_every: int)
    requires
        outcomes.len() <= usize::MAX,
    ensures
        spec_strictly_increasing(spec_progress_counters(spec_stream(outcomes, progress_every))),
{
    if outcomes.len() == 0 {
        let s = spec_stream(outcomes, progress_every);
        assert(spec_progress_counters(s.skip(1)) =~= Seq::<int>::empty());
        assert(spec_progress_counters(s) =~= Seq::<int>::empty());
    } else {
        lemma_stream_from_progress(outcomes, 0, 0, 0, outcomes.len() as int, progress_every);
    }
}

/// The progress counters of a stream fragment lie strictly between the
/// number already emitted and the end of the batch, and increase strictly.
proof fn lemma_stream_from_progress<P>(
    outcomes: Seq<Outcome<P>>,
    emitted: int,
    ok: int,
    failed: int,
    total: int,
    progress_every: int,
)
    requires
        0 <= emitted,
        emitted + outcomes.len() <= total <= usize::MAX,
    ensures
        spec_strictly_increasing(
            spec_progress_counters(
                spec_stream_from(outcomes, emitted, ok, failed, total, progress_every),
            ),
        ),
        forall|k: int|
            0 <= k < spec_progress_counters(
                spec_stream_from(outcomes, emitted, ok, failed, total, progress_every),
            ).len() ==> emitted < #[trigger] spec_progress_counters(
                spec_stream_from(outcomes, emitted, ok, failed, total, progress_every),
            )[k],
    decreases outcomes.len(),
{
    if outcomes.len() == 0 {
    } else {
        let first = outcomes[0];
        let ok2 = if spec_outcome_ok(first) {
            ok + 1
        } else {
            ok
        };
        let failed2 = if spec_outcome_ok(first) {
            failed
        } else {
            failed + 1
        };
        lemma_stream_from_progress(
            outcomes.skip(1),
            emitted + 1,
            ok2,
            failed2,
            total,
            progress_every,
        );
        let step = spec_step_events(first, emitted, ok, failed, total, progress_every);
        let rest = spec_stream_from(
            outcomes.skip(1),
            emitted + 1,
            ok2,
            failed2,
            total,
            progress_every,
        );
        lemma_progress_counters_add(step, rest);
        let step_counters = spec_progress_counters(step);
        let rest_counters = spec_progress_counters(rest);
        assert(step_counters.len() <= 1 && (forall|k: int|
            0 <= k < step_counters.len() ==> #[trigger] step_counters[k] == emitted + 1)) by {
            assert(!spec_is_terminal(step[0]) ==> false);
            lemma_step_counters(first, emitted, ok, failed, total, progress_every);
        }
        let whole = step_counters + rest_counters;
        assert forall|k: int| 0 <= k < whole.len() implies emitted < #[trigger] whole[k] by {
            if k < step_counters.len() {
                assert(whole[k] == step_counters[k]);
            } else {
                assert(whole[k] == rest_counters[k - step_counters.len()]);
            }
        }
        assert forall|k1: int, k2: int| 0 <= k1 < k2 < whole.len() implies #[trigger] whole[k1]
            < #[trigger] whole[k2] by {
            if k2 < step_counters.len() {
            } else if k1 < step_counters.len() {
                assert(whole[k1] == step_counters[k1]);
                assert(whole[k2] == rest_counters[k2 - step_counters.len()]);
            } else {
                assert(whole[k1] == rest_counters[k1 - step_counters.len()]);
                assert(whole[k2] == rest_counters[k2 - step_counters.len()]);
            }
        }
    }
}

/// One step contributes at most one progress counter, equal to the new
/// number of consumed outcomes.
proof fn lemma_step_counters<P>(
    outcome: Outcome<P>,
    emitted: int,
    ok: int,
    failed: int,
    total: int,
    progress_every: int,
)
    requires
        0 <= emitted < total <= usize::MAX,
    ensures
        spec_progress_counters(
            spec_step_events(outcome, emitted, ok, failed, total, progress_every),
        ).len() <= 1,
        forall|k: int|
            0 <= k < spec_progress_counters(
                spec_step_events(outcome, emitted, ok, failed, total, progress_every),
            ).len() ==> #[trigger] spec_progress_counters(
                spec_step_events(outcome, emitted, ok, failed, total, progress_every),
            )[k] == emitted + 1,
{
    let current = emitted + 1;
    let ok_after = if spec_outcome_ok(outcome) {
        ok + 1
    } else {
        ok
    };
    let failed_after = if spec_outcome_ok(outcome) {
        failed
    } else {
        failed + 1
    };
    let t = seq![spec_terminal_event(outcome)];
    let p: Seq<StreamEvent<P>> = if current % progress_every == 0 || current == total {
        seq![StreamEvent::Progress { current: current as usize, total: total as usize }]
    } else {
        Seq::empty()
    };
    let c: Seq<StreamEvent<P>> = if current == total {
        seq![
            StreamEvent::Complete {
                total: total as usize,
                ok: ok_after as usize,
                failed: failed_after as usize,
            },
        ]
    } else {
        Seq::empty()
    };
    assert(spec_step_events(outcome, emitted, ok, failed, total, progress_every) == t + p + c);
    lemma_progress_counters_add(t + p, c);
    lemma_progress_counters_add(t, p);
    lemma_counters_single(spec_terminal_event(outcome));
    if current % progress_every == 0 || current == total {
        lemma_counters_single(
            StreamEvent::<P>::Progress { current: current as usize, total: total as usize },
        );
    }
    if current == total {
        lemma_counters_single(
            StreamEvent::<P>::Complete {
                total: total as usize,
                ok: ok_after as usize,
                failed: failed_after as usize,
            },
        );
    }
    let counters = spec_progress_counters(t + p + c);
    if current % progress_every == 0 || current == total {
        assert(counters =~= seq![current]);
    } else {
        assert(counters =~= Seq::<int>::empty());
    }
}

/// Progress counters of a single event.
proof fn lemma_counters_single<P>(e: StreamEvent<P>)
    ensures
        spec_progress_counters(seq![e]) == (match e {
            StreamEvent::Progress { current, .. } => seq![current as int],
            _ => Seq::<int>::empty(),
        }),
{
    reveal_with_fuel(spec_progress_counters, 2);
    assert(seq![e].skip(1) =~= Seq::<StreamEvent<P>>::empty());
    match e {
        StreamEvent::Progress { current, .. } => {
            assert(spec_progress_counters(seq![e]) =~= seq![current as int]);
        },
        _ => {
            assert(spec_progress_counters(seq![e]) =~= Seq::<int>::empty());
        },
    }
}

} // verus!
