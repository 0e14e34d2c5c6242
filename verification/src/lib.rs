//! Request-execution engine for a desktop API client.
//!
//! The library covers the logic of sending one HTTP request and of running one
//! gRPC call: normalizing the target URL, assembling headers, authentication
//! and body, deciding the call shape, relaying caller messages into an open
//! stream, recording an ordered event log, and finalizing the durable outcome
//! records. Network transport, persistence and the user interface live outside
//! the library and talk to it through plain values.

pub mod body;
pub mod cancel;
pub mod events;
pub mod grpc;
pub mod headers;
pub mod http;
pub mod ids;
pub mod models;
pub mod relay;
pub mod response;
pub mod sync;
pub mod urlnorm;

use vstd::prelude::*;

verus! {

/// Whether this build is a development build. Release builds of the library
/// report `false`.
pub fn is_dev() -> (r: bool)
    ensures
        r == false,
{
    false
}

} // verus!
