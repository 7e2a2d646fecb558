//! The dispatch / worker / aggregation logic of the pipeline, as verified
//! state machines over plain values. The async runtime that drives them —
//! bounded channels, task spawning, suspension — lives outside the crate and
//! feeds events and counts into these functions one at a time.

use vstd::prelude::*;
use crate::event::{Event, EventModel, is_exit_model};

verus! {

/// A sequence of events, each taken by its value.
pub open spec fn views_of(s: Seq<Event>) -> Seq<EventModel> {
    s.map_values(|e: Event| e@)
}

/// How many events of a sequence are not the exit sentinel: the quantity a
/// worker counts.
pub open spec fn live_count(s: Seq<EventModel>) -> nat
    decreases s.len(),
{
    if s.len() == 0 {
        0
    } else {
        live_count(s.drop_last()) + (if is_exit_model(s.last()) {
            0nat
        } else {
            1nat
        })
    }
}

/// The sum of a sequence of counts: what the harness aggregates.
pub open spec fn sum_of(s: Seq<nat>) -> nat
    decreases s.len(),
{
    if s.len() == 0 {
        0
    } else {
        sum_of(s.drop_last()) + s.last()
    }
}

pub proof fn lemma_live_count_le_len(s: Seq<EventModel>)
    ensures
        live_count(s) <= s.len(),
    decreases s.len(),
{
    if s.len() > 0 {
        lemma_live_count_le_len(s.drop_last());
    }
}

pub proof fn lemma_live_count_push(s: Seq<EventModel>, x: EventModel)
    ensures
        live_count(s.push(x)) == live_count(s) + (if is_exit_model(x) {
            0nat
        } else {
            1nat
        }),
{
    assert(s.push(x).drop_last() =~= s);
}

pub proof fn lemma_sum_of_push(s: Seq<nat>, x: nat)
    ensures
        sum_of(s.push(x)) == sum_of(s) + x,
{
    assert(s.push(x).drop_last() =~= s);
}

/// Law: a worker that never sees the exit sentinel counts every event it
/// receives — its count equals the length of what it received.
pub proof fn lemma_live_count_all_live(s: Seq<EventModel>)
    requires
        forall|i: int| 0 <= i < s.len() ==> !is_exit_model(s[i]),
    ensures
        live_count(s) == s.len(),
    decreases s.len(),
{
    if s.len() > 0 {
        assert(forall|i: int| 0 <= i < s.drop_last().len() ==> s.drop_last()[i] == s[i]);
        lemma_live_count_all_live(s.drop_last());
    }
}

/// Law: when every one of the aggregated counts equals `e`, their sum is
/// (number of counts) × e.
pub proof fn lemma_uniform_sum(counts: Seq<nat>, e: nat)
    requires
        forall|i: int| 0 <= i < counts.len() ==> counts[i] == e,
    ensures
        sum_of(counts) == counts.len() * e,
    decreases counts.len(),
{
    if counts.len() > 0 {
        assert(forall|i: int|
            0 <= i < counts.drop_last().len() ==> counts.drop_last()[i] == counts[i]);
        lemma_uniform_sum(counts.drop_last(), e);
        assert(sum_of(counts) == (counts.len() - 1) * e + e);
        assert((counts.len() - 1) * e + e == counts.len() * e) by (nonlinear_arith);
    }
}

/// Law (the documented normal path): W workers each receive exactly `e`
/// events, none of them the exit sentinel; then every worker's count is `e`
/// and the aggregated sum is W × e.
pub proof fn lemma_normal_path_total(runs: Seq<Seq<EventModel>>, e: nat)
    requires
        forall|w: int| 0 <= w < runs.len() ==> (#[trigger] runs[w]).len() == e,
        forall|w: int, i: int|
            0 <= w < runs.len() && 0 <= i < runs[w].len() ==> !is_exit_model(#[trigger] runs[w][i]),
    ensures
        sum_of(runs.map_values(|r: Seq<EventModel>| live_count(r))) == runs.len() * e,
{
    let counts = runs.map_values(|r: Seq<EventModel>| live_count(r));
    assert forall|w: int| 0 <= w < counts.len() implies counts[w] == e by {
        lemma_live_count_all_live(runs[w]);
    }
    lemma_uniform_sum(counts, e);
}

/// One worker's receive-side state: it drains up to `quota` events, counting
/// the non-sentinel ones, and reports the count when the quota is reached
/// (or when its queue closes early).
pub struct Worker {
    quota: usize,
    received: usize,
    counted: usize,
    seen: Ghost<Seq<EventModel>>,
}

impl Worker {
    pub closed spec fn quota_spec(&self) -> nat {
        self.quota as nat
    }

    pub closed spec fn received_spec(&self) -> nat {
        self.received as nat
    }

    pub closed spec fn counted_spec(&self) -> nat {
        self.counted as nat
    }

    /// Every event this worker has received, in arrival order.
    pub closed spec fn seen_spec(&self) -> Seq<EventModel> {
        self.seen@
    }

    /// The worker's invariant: it never receives beyond its quota, and its
    /// count is exactly the number of non-sentinel events received so far.
    pub open spec fn wf(&self) -> bool {
        &&& self.received_spec() <= self.quota_spec()
        &&& self.received_spec() == self.seen_spec().len()
        &&& self.counted_spec() == live_count(self.seen_spec())
    }

    pub fn new(quota: usize) -> (w: Worker)
        ensures
            w.wf(),
            w.quota_spec() == quota,
            w.seen_spec() == Seq::<EventModel>::empty(),
    {
        Worker { quota, received: 0, counted: 0, seen: Ghost(Seq::empty()) }
    }

    /// Take one event from the inbound queue.
    pub fn on_event(&mut self, e: &Event)
        requires
            old(self).wf(),
            old(self).received_spec() < old(self).quota_spec(),
        ensures
            final(self).wf(),
            final(self).quota_spec() == old(self).quota_spec(),
            final(self).seen_spec() == old(self).seen_spec().push(e@),
            final(self).received_spec() == old(self).received_spec() + 1,
            final(self).counted_spec() == old(self).counted_spec() + (if is_exit_model(e@) {
                0nat
            } else {
                1nat
            }),
    {
        proof {
            lemma_live_count_le_len(self.seen@);
            lemma_live_count_push(self.seen@, e@);
        }
        self.received = self.received + 1;
        if !e.is_exit() {
            self.counted = self.counted + 1;
        }
        self.seen = Ghost(self.seen@.push(e@));
    }

    /// Whether the quota has been reached: the worker's termination test.
    pub fn done(&self) -> (r: bool)
        ensures
            r == (self.received_spec() == self.quota_spec()),
    {
        self.received == self.quota
    }

    /// The count the worker sends on the aggregation channel when it ends.
    pub fn report(&self) -> (n: usize)
        ensures
            n == self.counted_spec(),
    {
        self.counted
    }
}

/// One whole worker run over an already-delivered batch: drains the batch in
/// order and returns the count it would report. The batch may be shorter
/// than the quota — that is the queue-closed-early path — but never longer,
/// since the dispatcher closes each queue after `quota` sends.
pub fn run_worker(events: &Vec<Event>, quota: usize) -> (n: usize)
    requires
        events@.len() <= quota,
    ensures
        n == live_count(views_of(events@)),
{
    let mut w = Worker::new(quota);
    let mut i: usize = 0;
    while i < events.len()
        invariant
            i <= events@.len(),
            events@.len() <= quota,
            w.wf(),
            w.quota_spec() == quota,
            w.received_spec() == i,
            w.seen_spec() =~= views_of(events@).take(i as int),
        decreases events@.len() - i,
    {
        w.on_event(&events[i]);
        i = i + 1;
    }
    proof {
        assert(views_of(events@).take(events@.len() as int) =~= views_of(events@));
    }
    w.report()
}

/// The dispatcher's batch for one target: `n` copies of the one constructed
/// event, cloned — never re-derived — from it.
pub fn make_batch(event: &Event, n: usize) -> (batch: Vec<Event>)
    ensures
        batch@.len() == n,
        forall|i: int| 0 <= i < n ==> batch@[i] == *event,
{
    let mut batch: Vec<Event> = Vec::new();
    let mut i: usize = 0;
    while i < n
        invariant
            i <= n,
            batch@.len() == i,
            forall|j: int| 0 <= j < i ==> batch@[j] == *event,
        decreases n - i,
    {
        batch.push(event.clone());
        i = i + 1;
    }
    batch
}

/// The harness's aggregation state: it takes exactly one count per worker
/// and holds their running sum; the run is complete once every expected
/// count has arrived.
pub struct Aggregator {
    expected: usize,
    received: usize,
    sum: usize,
    counts: Ghost<Seq<nat>>,
}

impl Aggregator {
    /// How many counts the aggregator still waits for in total.
    pub closed spec fn expected_spec(&self) -> nat {
        self.expected as nat
    }

    pub closed spec fn received_spec(&self) -> nat {
        self.received as nat
    }

    pub closed spec fn sum_spec(&self) -> nat {
        self.sum as nat
    }

    /// Every count taken so far, in arrival order.
    pub closed spec fn counts_spec(&self) -> Seq<nat> {
        self.counts@
    }

    pub open spec fn wf(&self) -> bool {
        &&& self.received_spec() <= self.expected_spec()
        &&& self.received_spec() == self.counts_spec().len()
        &&& self.sum_spec() == sum_of(self.counts_spec())
    }

    pub fn new(expected: usize) -> (a: Aggregator)
        ensures
            a.wf(),
            a.expected_spec() == expected,
            a.counts_spec() == Seq::<nat>::empty(),
    {
        Aggregator { expected, received: 0, sum: 0, counts: Ghost(Seq::empty()) }
    }

    /// Take one worker's reported count.
    pub fn on_count(&mut self, n: usize)
        requires
            old(self).wf(),
            old(self).received_spec() < old(self).expected_spec(),
            old(self).sum_spec() + n <= usize::MAX,
        ensures
            final(self).wf(),
            final(self).expected_spec() == old(self).expected_spec(),
            final(self).counts_spec() == old(self).counts_spec().push(n as nat),
            final(self).received_spec() == old(self).received_spec() + 1,
            final(self).sum_spec() == old(self).sum_spec() + n,
    {
        proof {
            lemma_sum_of_push(self.counts@, n as nat);
        }
        self.received = self.received + 1;
        self.sum = self.sum + n;
        self.counts = Ghost(self.counts@.push(n as nat));
    }

    /// The completion barrier: true exactly when every worker's count has
    /// been received.
    pub fn done(&self) -> (r: bool)
        ensures
            r == (self.received_spec() == self.expected_spec()),
    {
        self.received == self.expected
    }

    /// The aggregated sum of every count received so far.
    pub fn total(&self) -> (t: usize)
        ensures
            t == self.sum_spec(),
    {
        self.sum
    }
}

/// The harness's whole aggregation step over an already-collected batch of
/// reports: sums exactly one count per worker.
pub fn aggregate(counts: &Vec<usize>) -> (total: usize)
    requires
        sum_of(counts@.map_values(|c: usize| c as nat)) <= usize::MAX,
    ensures
        total == sum_of(counts@.map_values(|c: usize| c as nat)),
{
    let ghost all = counts@.map_values(|c: usize| c as nat);
    let mut agg = Aggregator::new(counts.len());
    let mut i: usize = 0;
    while i < counts.len()
        invariant
            i <= counts@.len(),
            agg.wf(),
            agg.expected_spec() == counts@.len(),
            agg.received_spec() == i,
            agg.counts_spec() =~= all.take(i as int),
            all == counts@.map_values(|c: usize| c as nat),
            sum_of(all) <= usize::MAX,
        decreases counts@.len() - i,
    {
        proof {
            lemma_sum_prefix_le(all, i as int);
            lemma_sum_prefix_le(all, i + 1);
            assert(all.take(i + 1).drop_last() =~= all.take(i as int));
        }
        agg.on_count(counts[i]);
        i = i + 1;
    }
    proof {
        assert(all.take(all.len() as int) =~= all);
    }
    agg.total()
}

/// The sum of a prefix never exceeds the sum of the whole sequence.
pub proof fn lemma_sum_prefix_le(s: Seq<nat>, i: int)
    requires
        0 <= i <= s.len(),
    ensures
        sum_of(s.take(i)) <= sum_of(s),
    decreases s.len() - i,
{
    if i < s.len() {
        lemma_sum_prefix_le(s, i + 1);
        assert(s.take(i + 1).drop_last() =~= s.take(i));
        assert(s.take(i + 1).last() == s[i]);
    } else {
        assert(s.take(i) =~= s);
    }
}

} // verus!
