//! The sink itself: a request counter and a start time, and the three behaviours on them.

use crate::clock::seconds_since;
use crate::reply::{
    ack_reply, acknowledge, fallback, health_reply, health_status, health_view, not_found_reply,
    Body, HealthStatus, Reply, ReplyView,
};
use crate::route::{behavior_of, route, Behavior, Method};
use std::time::SystemTime;
use vstd::prelude::*;

verus! {

/// The counter after one more ingest request. At the machine's limit it stays where it is:
/// the counter never falls.
pub open spec fn next_count(count: usize) -> usize {
    if count == usize::MAX {
        usize::MAX
    } else {
        (count + 1) as usize
    }
}

/// The counter after a request that `behavior` answers: only ingest moves it.
pub open spec fn count_after(count: usize, behavior: Behavior) -> usize {
    match behavior {
        Behavior::Ingest => next_count(count),
        Behavior::Health => count,
        Behavior::Fallback => count,
    }
}

/// The reply to a request that `behavior` answers, from a sink that has counted `count`
/// requests before it, at a clock reading.
pub open spec fn reply_for(count: usize, behavior: Behavior, reading: Option<u64>) -> ReplyView {
    match behavior {
        Behavior::Ingest => ack_reply(),
        Behavior::Health => health_reply(count, reading),
        Behavior::Fallback => not_found_reply(),
    }
}

/// The state of one running sink.
///
/// Whatever counts takes the sink by `&mut`: callers that share a sink take turns, so no
/// increment can be lost between them.
pub struct Sink {
    requests_handled: usize,
    started: SystemTime,
}

impl Sink {
    /// The number of ingest requests counted so far.
    pub closed spec fn count(&self) -> usize {
        self.requests_handled
    }

    /// The instant at which the sink started. It is taken once, when the sink is made, and
    /// nothing changes it afterwards.
    pub closed spec fn start(&self) -> SystemTime {
        self.started
    }

    /// A sink that has counted nothing, started at the clock's present reading.
    pub fn new() -> (sink: Sink)
        ensures
            sink.count() == 0,
    {
        Sink { requests_handled: 0, started: SystemTime::now() }
    }

    /// The number of ingest requests counted so far.
    pub fn requests_handled(&self) -> (count: usize)
        ensures
            count == self.count(),
    {
        self.requests_handled
    }

    /// Counts one request and acknowledges it. Only the counter changes.
    pub fn ingest(&mut self) -> (reply: Reply)
        ensures
            final(self).count() == next_count(old(self).count()),
            final(self).start() == old(self).start(),
            reply@ == ack_reply(),
    {
        self.requests_handled = self.requests_handled.saturating_add(1);
        acknowledge()
    }

    /// The health snapshot at a given clock reading: the seconds since the start, or `None`
    /// where the clock could not be read. The counter stays as it is.
    pub fn health_at(&self, reading: Option<u64>) -> (health: HealthStatus)
        ensures
            health@ == health_view(self.count(), reading),
    {
        health_status(self.requests_handled, reading)
    }

    /// The health snapshot at the clock's present reading. The uptime is whatever the clock
    /// gives; the status and the count do not depend on it.
    pub fn health(&self) -> (health: HealthStatus)
        ensures
            exists|reading: Option<u64>| health@ == health_view(self.count(), reading),
    {
        let reading: Option<u64> = seconds_since(&self.started);
        self.health_at(reading)
    }

    /// Answers a request that the route table has given to `behavior`.
    fn respond(&mut self, behavior: Behavior, reading: Option<u64>) -> (reply: Reply)
        ensures
            final(self).count() == count_after(old(self).count(), behavior),
            final(self).start() == old(self).start(),
            reply@ == reply_for(old(self).count(), behavior, reading),
    {
        match behavior {
            Behavior::Ingest => self.ingest(),
            Behavior::Health => Reply { status: 200, body: Body::Health(self.health_at(reading)) },
            Behavior::Fallback => fallback(),
        }
    }

    /// Answers one request at a given clock reading.
    ///
    /// The route table picks the behaviour. An ingest request is counted and acknowledged. A
    /// health request and an unmatched request leave the counter alone; the first reports it,
    /// the second gets 404 and `Not found`. The start of the sink is never touched.
    pub fn handle_at(&mut self, method: Method, path: &str, reading: Option<u64>) -> (reply:
        Reply)
        ensures
            final(self).count() == count_after(old(self).count(), behavior_of(method, path@)),
            final(self).start() == old(self).start(),
            reply@ == reply_for(old(self).count(), behavior_of(method, path@), reading),
            behavior_of(method, path@) != Behavior::Ingest ==> final(self).count() == old(
                self,
            ).count(),
            behavior_of(method, path@) == Behavior::Fallback ==> reply@ == not_found_reply(),
    {
        self.respond(route(method, path), reading)
    }

    /// Answers one request, reading the clock where the health route asks for the uptime.
    /// Whatever the clock gives, the reply is the one that `handle_at` gives at some reading.
    pub fn handle(&mut self, method: Method, path: &str) -> (reply: Reply)
        ensures
            final(self).count() == count_after(old(self).count(), behavior_of(method, path@)),
            final(self).start() == old(self).start(),
            exists|reading: Option<u64>|
                reply@ == reply_for(old(self).count(), behavior_of(method, path@), reading),
            behavior_of(method, path@) != Behavior::Ingest ==> final(self).count() == old(
                self,
            ).count(),
            behavior_of(method, path@) == Behavior::Fallback ==> reply@ == not_found_reply(),
    {
        let behavior: Behavior = route(method, path);
        let reading: Option<u64> = match behavior {
            Behavior::Health => seconds_since(&self.started),
            _ => None,
        };
        self.respond(behavior, reading)
    }
}

} // verus!
