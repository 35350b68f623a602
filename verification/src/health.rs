//! The health endpoint: it always reports the service healthy. The HTTP
//! layer serialises the report as a JSON object with a single boolean field
//! and returns it with status `200 OK`.

use vstd::prelude::*;

verus! {

/// The body of a health report.
#[derive(Debug, Clone, Copy, PartialEq, Eq, Structural)]
pub struct Health {
    pub healthy: bool,
}

/// `GET /health`: a running service always answers that it is healthy.
pub fn check() -> (h: Health)
    ensures
        h.healthy,
{
    Health { healthy: true }
}

} // verus!
