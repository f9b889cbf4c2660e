//! What holds of a sink over whole runs of requests, and of the shutdown machine over whole
//! runs of events.

use crate::lifecycle::{Action, Event, Phase, Signal, Stage};
use crate::reply::{health_view, not_found_reply, uptime_of};
use crate::route::{behavior_of, Behavior, Method};
use crate::sink::{count_after, reply_for};
use vstd::prelude::*;
use vstd::seq_lib::lemma_fold_left_permutation;

verus! {

/// One request as the route table sees it.
pub struct RequestLine {
    pub method: Method,
    pub path: Seq<char>,
}

impl RequestLine {
    /// The behaviour that answers this request.
    pub open spec fn behavior(self) -> Behavior {
        behavior_of(self.method, self.path)
    }
}

/// The counter after a sink that had counted `count` has answered `requests` in order.
pub open spec fn count_after_all(count: usize, requests: Seq<RequestLine>) -> usize
    decreases requests.len(),
{
    if requests.len() == 0 {
        count
    } else {
        count_after(count_after_all(count, requests.drop_last()), requests.last().behavior())
    }
}

/// How many of `requests` are ingest requests.
pub open spec fn ingest_total(requests: Seq<RequestLine>) -> nat
    decreases requests.len(),
{
    if requests.len() == 0 {
        0
    } else {
        ingest_total(requests.drop_last()) + if requests.last().behavior() == Behavior::Ingest {
            1nat
        } else {
            0nat
        }
    }
}

/// Whether every one of `requests` is an ingest request.
pub open spec fn all_ingest(requests: Seq<RequestLine>) -> bool {
    forall|i: int|
        0 <= i < requests.len() ==> (#[trigger] requests[i]).behavior() == Behavior::Ingest
}

/// Over any run of requests the counter never falls: it grows by the number of ingest
/// requests among them, and stops at the machine's limit where that number does not fit.
pub proof fn lemma_counter_counts_ingests(count: usize, requests: Seq<RequestLine>)
    ensures
        count_after_all(count, requests) >= count,
        count_after_all(count, requests) == if count + ingest_total(requests) <= usize::MAX {
            count + ingest_total(requests)
        } else {
            usize::MAX as int
        },
    decreases requests.len(),
{
    if requests.len() > 0 {
        lemma_counter_counts_ingests(count, requests.drop_last());
    }
}

/// A run of ingest requests only has as many ingest requests as it is long.
pub proof fn lemma_all_ingest_total(requests: Seq<RequestLine>)
    requires
        all_ingest(requests),
    ensures
        ingest_total(requests) == requests.len(),
    decreases requests.len(),
{
    if requests.len() > 0 {
        let front = requests.drop_last();
        assert forall|i: int| 0 <= i < front.len() implies (#[trigger] front[i]).behavior()
            == Behavior::Ingest by {
            assert(front[i] == requests[i]);
        }
        lemma_all_ingest_total(front);
    }
}

/// After N ingest requests, over any mix of the ingest routes, a fresh sink reports N
/// handled requests at its next health check, whatever the clock reads.
pub proof fn lemma_health_reports_ingests(requests: Seq<RequestLine>, reading: Option<u64>)
    requires
        all_ingest(requests),
        requests.len() <= usize::MAX,
    ensures
        count_after_all(0, requests) == requests.len(),
        health_view(count_after_all(0, requests), reading).requests_handled == requests.len(),
        reply_for(count_after_all(0, requests), Behavior::Health, reading).status == 200,
{
    lemma_all_ingest_total(requests);
    lemma_counter_counts_ingests(0, requests);
}

/// One step of the counter, as a function to fold a run with.
spec fn count_step() -> spec_fn(usize, RequestLine) -> usize {
    |count: usize, request: RequestLine| count_after(count, request.behavior())
}

proof fn lemma_count_is_fold(count: usize, requests: Seq<RequestLine>)
    ensures
        count_after_all(count, requests) == requests.fold_left(count, count_step()),
    decreases requests.len(),
{
    if requests.len() > 0 {
        lemma_count_is_fold(count, requests.drop_last());
    }
}

/// The counter does not depend on the order in which the sink takes its requests: two runs
/// of the same requests, each as often in one as in the other, end on the same count.
pub proof fn lemma_order_is_immaterial(
    count: usize,
    issued: Seq<RequestLine>,
    served: Seq<RequestLine>,
)
    requires
        issued.to_multiset() == served.to_multiset(),
    ensures
        count_after_all(count, served) == count_after_all(count, issued),
{
    lemma_count_is_fold(count, issued);
    lemma_count_is_fold(count, served);
    lemma_fold_left_permutation(issued, served, count_step(), count);
}

/// N ingest requests issued by any number of callers leave a fresh sink at exactly N, in
/// whatever order the sink comes to serve them: no increment is lost.
pub proof fn lemma_no_increment_is_lost(issued: Seq<RequestLine>, served: Seq<RequestLine>)
    requires
        all_ingest(issued),
        issued.len() <= usize::MAX,
        issued.to_multiset() == served.to_multiset(),
    ensures
        count_after_all(0, served) == issued.len(),
{
    lemma_order_is_immaterial(0, issued, served);
    lemma_health_reports_ingests(issued, None);
}

/// Of two health checks the later reports at least the uptime of the earlier, as long as the
/// clock, once it has given a reading, gives no failure and no smaller reading after it.
pub proof fn lemma_uptime_never_falls(
    earlier_count: usize,
    earlier: Option<u64>,
    later_count: usize,
    later: Option<u64>,
)
    requires
        earlier is Some ==> later is Some && earlier->0 <= later->0,
    ensures
        health_view(earlier_count, earlier).uptime_seconds <= health_view(
            later_count,
            later,
        ).uptime_seconds,
        uptime_of(earlier) <= uptime_of(later),
{
}

/// A request outside the route table gets 404 and `Not found`, a health request gets 200,
/// and neither moves the counter.
pub proof fn lemma_only_ingest_counts(count: usize, request: RequestLine, reading: Option<u64>)
    requires
        request.behavior() != Behavior::Ingest,
    ensures
        count_after(count, request.behavior()) == count,
        request.behavior() == Behavior::Fallback ==> reply_for(count, request.behavior(), reading)
            == not_found_reply(),
        request.behavior() == Behavior::Health ==> reply_for(
            count,
            request.behavior(),
            reading,
        ).status == 200,
{
}

/// The state of the machine after it has taken `events` in order.
pub open spec fn stage_after_all(stage: Stage, events: Seq<Event>) -> Stage
    decreases events.len(),
{
    if events.len() == 0 {
        stage
    } else {
        stage_after_all(stage, events.drop_last()).after(events.last())
    }
}

/// Every state that the machine reaches from a consistent one is consistent.
pub proof fn lemma_stage_stays_consistent(stage: Stage, events: Seq<Event>)
    requires
        stage.consistent(),
    ensures
        stage_after_all(stage, events).consistent(),
    decreases events.len(),
{
    if events.len() > 0 {
        lemma_stage_stays_consistent(stage, events.drop_last());
    }
}

/// Once the machine has left `Running` it never runs again, and the number of exchanges in
/// flight never grows.
pub proof fn lemma_shutdown_is_final(stage: Stage, events: Seq<Event>)
    requires
        stage.phase != Phase::Running,
    ensures
        stage_after_all(stage, events).phase != Phase::Running,
        stage_after_all(stage, events).in_flight <= stage.in_flight,
    decreases events.len(),
{
    if events.len() > 0 {
        lemma_shutdown_is_final(stage, events.drop_last());
    }
}

/// After a shutdown signal, whichever of the two it was and whatever happens next:
/// no connection is accepted; an exchange in flight is taken off the count only when it
/// completes; and the machine terminates only with nothing in flight.
pub proof fn lemma_graceful_shutdown(
    stage: Stage,
    signal: Signal,
    events: Seq<Event>,
    next: Event,
)
    requires
        stage.consistent(),
        stage.phase == Phase::Running,
    ensures
        stage.action_on(Event::Signal(signal)) == Action::StopAccepting,
        stage.after(Event::Signal(signal)) == (Stage {
            phase: Phase::ShutdownRequested,
            in_flight: stage.in_flight,
        }),
        ({
            let reached = stage_after_all(stage.after(Event::Signal(signal)), events);
            &&& reached.phase != Phase::Running
            &&& reached.action_on(next) != Action::Accept
            &&& next == Event::ConnectionOffered ==> reached.action_on(next) == Action::Refuse
            &&& next != Event::ExchangeCompleted ==> reached.after(next).in_flight
                == reached.in_flight
            &&& next == Event::ExchangeCompleted && reached.in_flight > 0 ==> reached.after(
                next,
            ).in_flight == reached.in_flight - 1
            &&& reached.phase == Phase::Terminated ==> reached.in_flight == 0
            &&& reached.in_flight <= stage.in_flight
        }),
{
    let requested = stage.after(Event::Signal(signal));
    lemma_shutdown_is_final(requested, events);
    lemma_stage_stays_consistent(requested, events);
}

/// The first signal wins: either signal asks for the same shutdown, and a signal that
/// comes after it changes nothing.
pub proof fn lemma_first_signal_wins(stage: Stage, first: Signal, second: Signal)
    requires
        stage.phase == Phase::Running,
    ensures
        stage.after(Event::Signal(first)) == stage.after(Event::Signal(second)),
        stage.after(Event::Signal(first)).after(Event::Signal(second)) == stage.after(
            Event::Signal(first),
        ),
        stage.after(Event::Signal(first)).action_on(Event::Signal(second)) == Action::Nothing,
{
}

/// A machine that drains terminates with the completion of its last exchange: after the
/// listener has closed with `n` exchanges in flight, `n` completions end it, and the last of
/// them asks for the exit.
pub proof fn lemma_draining_ends(stage: Stage)
    requires
        stage.consistent(),
        stage.phase == Phase::Draining,
    ensures
        stage_after_all(
            stage,
            Seq::new(stage.in_flight as nat, |i: int| Event::ExchangeCompleted),
        ) == (Stage { phase: Phase::Terminated, in_flight: 0 }),
{
    lemma_completions_drain(stage, stage.in_flight as nat);
}

/// After `k` completions, fewer than are in flight, a draining machine still drains with
/// `k` fewer in flight; after as many as are in flight it has terminated.
proof fn lemma_completions_drain(stage: Stage, k: nat)
    requires
        stage.consistent(),
        stage.phase == Phase::Draining,
        k <= stage.in_flight,
    ensures
        stage_after_all(stage, Seq::new(k, |i: int| Event::ExchangeCompleted)) == (if k
            == stage.in_flight {
            Stage { phase: Phase::Terminated, in_flight: 0 }
        } else {
            Stage { phase: Phase::Draining, in_flight: (stage.in_flight - k) as usize }
        }),
    decreases k,
{
    let completions = Seq::new(k, |i: int| Event::ExchangeCompleted);
    if k > 0 {
        let fewer = Seq::new((k - 1) as nat, |i: int| Event::ExchangeCompleted);
        assert(completions.drop_last() =~= fewer);
        lemma_completions_drain(stage, (k - 1) as nat);
    }
}

} // verus!
