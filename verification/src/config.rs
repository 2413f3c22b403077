//! Where the endpoint listens.

use vstd::prelude::*;

verus! {

/// The port the endpoint binds and the advertised URL names.
pub const STREAM_PORT: u16 = 4104;

/// The address and port of the listener. The address is always `0.0.0.0`:
/// the endpoint listens on all interfaces.
#[derive(Clone, Copy, Debug, PartialEq, Eq)]
pub struct ServerConfig {
    pub bind_addr: [u8; 4],
    pub port: u16,
}

impl ServerConfig {
    /// All interfaces, on the given port.
    pub fn on_port(port: u16) -> (config: ServerConfig)
        ensures
            config.bind_addr@ == seq![0u8, 0u8, 0u8, 0u8],
            config.port == port,
    {
        let bind_addr: [u8; 4] = [0, 0, 0, 0];
        ServerConfig { bind_addr, port }
    }

    /// All interfaces, on [`STREAM_PORT`].
    pub fn standard() -> (config: ServerConfig)
        ensures
            config.bind_addr@ == seq![0u8, 0u8, 0u8, 0u8],
            config.port == STREAM_PORT,
    {
        ServerConfig::on_port(STREAM_PORT)
    }
}

} // verus!
