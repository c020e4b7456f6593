//! A small host-resident agent library: a forwarder that delivers one event
//! record with bounded, exponentially backed-off retries, and a status
//! service that publishes runtime health snapshots as JSON.

pub mod config;
pub mod event;
pub mod json;
pub mod retry;
pub mod status;
