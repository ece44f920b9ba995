//! Process-wide settings and the values they take when nothing is configured.

use vstd::prelude::*;
use vstd::string::StringExecFns;

verus! {

/// The port to listen on when none is configured.
pub const DEFAULT_PORT: u16 = 8080;

/// The signing secret to use: the configured one, or a fixed development
/// value that is fit for testing only.
pub fn webhook_secret_or_default(configured: Option<String>) -> (secret: String)
    ensures
        secret@ == (match configured {
            Some(s) => s@,
            None => "dev_secret"@,
        }),
{
    match configured {
        Some(s) => s,
        None => String::from_str("dev_secret"),
    }
}

/// The port to listen on: the configured one, or `DEFAULT_PORT`.
pub fn port_or_default(configured: Option<u16>) -> (port: u16)
    ensures
        port == (match configured {
            Some(p) => p,
            None => DEFAULT_PORT,
        }),
{
    match configured {
        Some(p) => p,
        None => DEFAULT_PORT,
    }
}

} // verus!
