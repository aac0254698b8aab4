//! The server value: the resolved configuration a running service holds.
//!
//! Binding sockets, routing requests and selecting the backend are the
//! surrounding process's job; it builds a `Server` from resolved settings
//! and drives the handlers of [`crate::routes`] with them.

use vstd::prelude::*;

use crate::config::Config;

verus! {

/// A service instance, configured and ready to be run.
#[derive(Debug)]
pub struct Server {
    pub config: Config,
}

impl Server {
    /// A server over the given resolved configuration.
    pub fn new(config: Config) -> (r: Server)
        ensures
            r.config == config,
    {
        Server { config }
    }
}

} // verus!
