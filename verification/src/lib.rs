//! A minimal HTTP service scaffold: a health endpoint, a few greeting
//! endpoints, and a verified model of the service lifecycle — spawning the
//! server task, broadcasting a one-shot shutdown signal, draining in-flight
//! work, and joining the task under a timeout.
//!
//! The asynchronous runtime, the HTTP stack and all I/O live outside this
//! library; every decision the service makes (configuration defaults and
//! validation, request handling, port resolution, lifecycle transitions,
//! shutdown reporting) is implemented and specified here.

use std::sync::Arc;

use vstd::prelude::*;

pub mod config;
pub mod health;
pub mod hello;
pub mod lifecycle;
pub mod ports;
pub mod response;
pub mod service_state;

use crate::config::ServiceConfig;
use crate::service_state::ServiceState;

verus! {

/// One service instance: it owns the configuration that every request
/// handler shares read-only.
pub struct Service {
    config: Arc<ServiceConfig>,
}

impl Service {
    /// The configuration the service was built around.
    pub closed spec fn config_spec(self) -> ServiceConfig {
        *self.config
    }

    /// Builds a service around its configuration.
    pub fn new(config: ServiceConfig) -> (s: Self)
        ensures
            s.config_spec() == config,
    {
        Self { config: Arc::new(config) }
    }

    /// The shared state handed to the request handlers; this is the only
    /// computation of the router construction.
    pub fn state(&self) -> (state: ServiceState)
        ensures
            state@ == self.config_spec().hello_name@,
    {
        ServiceState::new(self.config.hello_name.clone())
    }
}

} // verus!
