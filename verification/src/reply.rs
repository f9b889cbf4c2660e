//! What the sink answers: a status code and one of three bodies.

use vstd::prelude::*;

verus! {

/// The acknowledgment of an ingest request.
#[derive(Clone, Copy, Debug, PartialEq, Eq, Structural)]
pub struct Ack {
    pub success: bool,
}

/// The snapshot that the health route reports.
#[derive(Clone, Debug, PartialEq, Eq)]
pub struct HealthStatus {
    pub status: String,
    pub requests_handled: usize,
    pub uptime_seconds: u64,
}

/// A health snapshot as plain values.
pub struct HealthView {
    pub status: Seq<char>,
    pub requests_handled: usize,
    pub uptime_seconds: u64,
}

impl View for HealthStatus {
    type V = HealthView;

    open spec fn view(&self) -> HealthView {
        HealthView {
            status: self.status@,
            requests_handled: self.requests_handled,
            uptime_seconds: self.uptime_seconds,
        }
    }
}

/// The body of a reply. `Ack` and `Health` go out as JSON objects, `Text` as plain text.
#[derive(Clone, Debug, PartialEq, Eq)]
pub enum Body {
    Ack(Ack),
    Health(HealthStatus),
    Text(String),
}

/// A body as plain values.
pub enum BodyView {
    Ack(Ack),
    Health(HealthView),
    Text(Seq<char>),
}

impl View for Body {
    type V = BodyView;

    open spec fn view(&self) -> BodyView {
        match self {
            Body::Ack(ack) => BodyView::Ack(*ack),
            Body::Health(health) => BodyView::Health(health@),
            Body::Text(text) => BodyView::Text(text@),
        }
    }
}

/// A reply: the HTTP status code and the body.
#[derive(Clone, Debug, PartialEq, Eq)]
pub struct Reply {
    pub status: u16,
    pub body: Body,
}

/// A reply as plain values.
pub struct ReplyView {
    pub status: u16,
    pub body: BodyView,
}

impl View for Reply {
    type V = ReplyView;

    open spec fn view(&self) -> ReplyView {
        ReplyView { status: self.status, body: self.body@ }
    }
}

/// The uptime that a clock reading stands for: its seconds, or 0 where the clock failed.
pub open spec fn uptime_of(reading: Option<u64>) -> u64 {
    match reading {
        Some(seconds) => seconds,
        None => 0,
    }
}

/// The reply to an ingest request: 200 and `{"success": true}`.
pub open spec fn ack_reply() -> ReplyView {
    ReplyView { status: 200, body: BodyView::Ack(Ack { success: true }) }
}

/// The health snapshot of a sink that has counted `count` requests, at a clock reading.
pub open spec fn health_view(count: usize, reading: Option<u64>) -> HealthView {
    HealthView { status: "ok"@, requests_handled: count, uptime_seconds: uptime_of(reading) }
}

/// The reply to a health request: 200 and the snapshot.
pub open spec fn health_reply(count: usize, reading: Option<u64>) -> ReplyView {
    ReplyView { status: 200, body: BodyView::Health(health_view(count, reading)) }
}

/// The reply to a request that no route matches: 404 and the text `Not found`.
pub open spec fn not_found_reply() -> ReplyView {
    ReplyView { status: 404, body: BodyView::Text("Not found"@) }
}

/// The acknowledgment of an ingest request.
pub fn acknowledge() -> (reply: Reply)
    ensures
        reply@ == ack_reply(),
{
    Reply { status: 200, body: Body::Ack(Ack { success: true }) }
}

/// The health snapshot for a counter value and a clock reading. A failed reading counts as
/// no uptime at all.
pub fn health_status(count: usize, reading: Option<u64>) -> (health: HealthStatus)
    ensures
        health@ == health_view(count, reading),
{
    let uptime_seconds: u64 = match reading {
        Some(seconds) => seconds,
        None => 0,
    };
    HealthStatus { status: "ok".to_owned(), requests_handled: count, uptime_seconds }
}

/// The answer to a request that no route matches.
pub fn fallback() -> (reply: Reply)
    ensures
        reply@ == not_found_reply(),
{
    Reply { status: 404, body: Body::Text("Not found".to_owned()) }
}

} // verus!
