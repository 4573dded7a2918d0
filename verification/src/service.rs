//! The gRPC server collaborator, as the verified core sees it: a marker for
//! the component that listens and serves. The serving itself is outside the
//! core, reached only through the shutdown token it observes and the join
//! handle its task resolves.

use vstd::prelude::*;

verus! {

/// The network server this service supervises. The lifecycle machine starts
/// it once, signals it to shut down on a stop request, and drains it before
/// acknowledging; everything it does in between is its own business.
#[derive(Debug)]
pub struct GrpcService;

impl GrpcService {
    /// The address the server binds to.
    pub fn bind_address(&self) -> (address: &'static str)
        ensures
            address@ == "[::1]:10000"@,
    {
        "[::1]:10000"
    }
}

impl Default for GrpcService {
    /// The one configuration the server has.
    fn default() -> (service: Self)
        ensures
            service == (GrpcService {}),
    {
        GrpcService
    }
}

} // verus!
