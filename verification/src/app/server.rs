//! Selection of the address on which the service listens.

use crate::text::{parse_bounded, parsed};
use vstd::prelude::*;

verus! {

/// Port used when none is configured.
pub const DEFAULT_APP_PORT: u16 = 3000;

/// The host used when none is configured, or when the configured one is empty.
pub open spec fn default_host() -> Seq<char> {
    "127.0.0.1"@
}

/// The host to bind: the configured one unless it is missing or empty.
pub open spec fn chosen_host(configured: Option<Seq<char>>) -> Seq<char> {
    match configured {
        Some(host) if host.len() > 0 => host,
        _ => default_host(),
    }
}

/// The port to bind: the configured one where it is an unsigned decimal
/// numeral that fits in 16 bits, else the default.
pub open spec fn chosen_port(configured: Option<Seq<char>>) -> u16 {
    match configured {
        Some(text) => match parsed(text, u16::MAX as nat) {
            Some(port) => port as u16,
            None => DEFAULT_APP_PORT,
        },
        None => DEFAULT_APP_PORT,
    }
}

/// Picks the port to listen on from the configured value, if any.
pub fn get_app_port(configured: Option<&str>) -> (port: u16)
    ensures
        port == chosen_port(configured.deep_view()),
{
    match configured {
        Some(text) => match parse_bounded(text, 65535) {
            Some(port) => port as u16,
            None => DEFAULT_APP_PORT,
        },
        None => DEFAULT_APP_PORT,
    }
}

/// Picks the host to listen on from the configured value, if any.
pub fn get_app_host(configured: Option<String>) -> (host: String)
    ensures
        host@ == chosen_host(configured.deep_view()),
{
    match configured {
        Some(host) => {
            if !host.as_str().is_empty() {
                host
            } else {
                String::from_str("127.0.0.1")
            }
        },
        None => String::from_str("127.0.0.1"),
    }
}

} // verus!
