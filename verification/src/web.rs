//! What the web server needs to decide: how it is configured, what an event
//! stream does next, and when to shut down.

use vstd::prelude::*;

pub mod extension;
pub mod handler;
pub mod shutdown;
pub mod template;

verus! {

/// Where the server listens.
#[derive(Debug)]
pub struct ServeConfig {
    pub host: String,
    pub port: u16,
}

impl Default for ServeConfig {
    fn default() -> (config: Self)
        ensures
            config.host@ == Seq::<char>::empty(),
            config.port == 0,
    {
        ServeConfig { host: String::new(), port: 0 }
    }
}

} // verus!
