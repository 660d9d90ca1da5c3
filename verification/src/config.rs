//! Server configuration.

use vstd::prelude::*;

verus! {

/// Settings of one Engine.IO server.
///
/// The two ping values are in milliseconds. They are handed to clients in the
/// open packet as they stand here.
#[derive(Debug, Clone)]
pub struct EngineIoConfig {
    /// Path prefix under which the server answers.
    pub req_path: String,
    /// Time between two pings.
    pub ping_interval: u32,
    /// Time a client has to answer a ping.
    pub ping_timeout: u32,
}

impl EngineIoConfig {
    /// The settings of a server that was given none.
    pub open spec fn is_default(self) -> bool {
        &&& self.req_path@ == "/engine.io"@
        &&& self.ping_interval == 300
        &&& self.ping_timeout == 200
    }
}

impl Default for EngineIoConfig {
    fn default() -> (config: Self)
        ensures
            config.is_default(),
    {
        EngineIoConfig {
            req_path: "/engine.io".to_owned(),
            ping_interval: 300,
            ping_timeout: 200,
        }
    }
}

} // verus!
