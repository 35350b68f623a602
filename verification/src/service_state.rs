//! The read-only state shared by every request handler: the greeting name
//! taken from the configuration. It is immutable after construction, so the
//! handlers share it without locking.

use std::sync::Arc;

use vstd::prelude::*;

use crate::config::ServiceConfig;

verus! {

/// How the handlers receive the state: one shared, read-only copy.
pub type SharedServiceState = Arc<ServiceState>;

/// The state the route handlers read. Its view is the greeting name.
#[derive(Debug)]
pub struct ServiceState {
    response_name: String,
}

impl View for ServiceState {
    type V = Seq<char>;

    closed spec fn view(&self) -> Seq<char> {
        self.response_name@
    }
}

impl ServiceState {
    /// Builds the state around the name the handlers will greet with.
    pub fn new(response_name: String) -> (s: Self)
        ensures
            s@ == response_name@,
    {
        Self { response_name }
    }

    /// The name the handlers greet with.
    pub fn response_name(&self) -> (name: &str)
        ensures
            name@ == self@,
    {
        self.response_name.as_str()
    }
}

impl Clone for ServiceState {
    /// A clone carries the same greeting name.
    fn clone(&self) -> (s: Self)
        ensures
            s@ == self@,
    {
        Self { response_name: self.response_name.clone() }
    }
}

impl From<Arc<ServiceConfig>> for ServiceState {
    fn from(config: Arc<ServiceConfig>) -> (s: Self) {
        ServiceState { response_name: config.hello_name.clone() }
    }
}

impl vstd::std_specs::convert::FromSpecImpl<Arc<ServiceConfig>> for ServiceState {
    open spec fn obeys_from_spec() -> bool {
        true
    }

    closed spec fn from_spec(config: Arc<ServiceConfig>) -> Self {
        ServiceState { response_name: (*config).hello_name }
    }
}

} // verus!
