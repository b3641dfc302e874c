//! Static configuration of a relay instance. The addresses and the auth
//! material are fixed before a loop starts and never change while it runs;
//! passing them as an explicit value keeps independent relay instances
//! possible and testable.

use vstd::prelude::*;

verus! {

/// A fixed endpoint address: host and port.
pub struct Endpoint {
    pub host: String,
    pub port: u16,
}

/// Everything one relay loop needs: where to listen, where to forward,
/// whether the auth handshake runs, and the auth material it uses — the
/// pre-shared secret on the server side, the token presented on the client
/// side.
pub struct RelayConfig {
    pub listen: Endpoint,
    pub forward: Endpoint,
    pub auth_enabled: bool,
    pub secret: Vec<u8>,
    pub token: Vec<u8>,
}

} // verus!
