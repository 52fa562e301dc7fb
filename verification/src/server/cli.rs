//! The options of the tunnel server.
use vstd::prelude::*;
use crate::address::SocketAddress;
use crate::text::with_default;

verus! {

/// Public address for HTTP connections where none is given.
pub const DEFAULT_HTTP_ADDR: &'static str = "0.0.0.0:7777";

/// Public address for HTTPS connections where none is given.
pub const DEFAULT_HTTPS_ADDR: &'static str = "0.0.0.0:4444";

/// Domain under which the tunnels are hosted where none is given.
pub const DEFAULT_DOMAIN: &'static str = "ngrok.me";

/// The options of the tunnel server.
#[derive(Debug, Clone)]
pub struct Options {
    /// Public address for HTTP connections; none where HTTP is disabled.
    pub http_addr: Option<SocketAddress>,
    /// Public address for HTTPS connections; none where HTTPS is disabled or its text is not
    /// an address.
    pub https_addr: Option<SocketAddress>,
    /// Domain under which the tunnels are hosted.
    pub domain: String,
}

/// The text of a listening address given on the command line (or its default), or none where
/// it is the empty string, which disables the listener.
pub fn enabled_address(given: Option<&str>, default: &str) -> (r: Option<String>)
    ensures
        match given {
            Some(g) => if g@.len() == 0 { r is None } else { r matches Some(a) && a@ == g@ },
            None => if default@.len() == 0 { r is None } else { r matches Some(a) && a@ == default@ },
        },
{
    let text = with_default(given, default);
    if text.as_str().is_empty() {
        None
    } else {
        Some(text)
    }
}

impl Options {
    /// The port on which HTTP is served, if HTTP is enabled.
    pub fn http_port(&self) -> (r: Option<u16>)
        ensures
            r == (match self.http_addr {
                Some(a) => Some(a.port),
                None => None::<u16>,
            }),
    {
        match self.http_addr {
            Some(a) => Some(a.port()),
            None => None,
        }
    }
}

} // verus!
