//! A minimal HTTP log sink: every ingest request is acknowledged and counted,
//! a health route reports the count and the uptime, everything else is a 404.

pub mod clock;
pub mod config;
pub mod laws;
pub mod lifecycle;
pub mod reply;
pub mod route;
pub mod sink;
