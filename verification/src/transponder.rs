//! The transponder itself: the server that owns the configuration and, when
//! run by the embedding program, wires receiver, queue and workers together.
//!
//! Running it — spawning the receiver's execution context, the worker pool
//! and the shared lock and wake signal — is thread and socket work and
//! happens outside the library; the library hands the embedding program the
//! configuration each component is to run with.

use vstd::prelude::*;

verus! {

use crate::config::Config;
use crate::config::ConfigView;

/// A server that waits on UDP inputs and forwards each payload to a
/// listening upstream endpoint.
pub struct UDPTransponder {
    config: Config,
}

impl View for UDPTransponder {
    type V = ConfigView;

    closed spec fn view(&self) -> ConfigView {
        self.config@
    }
}

impl UDPTransponder {
    /// A transponder that will run with this configuration.
    pub fn new(config: &Config) -> (t: UDPTransponder)
        ensures
            t@ == config@,
    {
        UDPTransponder { config: config.duplicate() }
    }

    /// The configuration every component of this transponder runs with.
    pub fn config(&self) -> (c: &Config)
        ensures
            c@ == self@,
    {
        &self.config
    }
}

} // verus!
