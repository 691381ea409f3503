//! A verified core for a host-telemetry HTTP service: a routing table from
//! request lines to metric families, a snapshot of host metrics with its
//! invariants, and JSON serialization of each metric family, all with proved
//! contracts. The surrounding process (listener, connection handling, and the
//! OS-level metrics provider) lives outside this crate and exchanges plain
//! values with it.

use vstd::prelude::*;

pub mod laws;
pub mod model;
pub mod render;
pub mod routes;
pub mod store;
pub mod text;

verus! {

/// What the service sends back for one request: a status code, whether the
/// body is JSON, and the body text. The process around the library turns
/// this into the wire response.
pub struct HttpResponse {
    pub status: u16,
    pub content_type_json: bool,
    pub body: String,
}

} // verus!
