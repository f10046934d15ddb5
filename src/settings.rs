//! The settings of an HTTP client that stays usable over long-lived
//! connections.
use vstd::prelude::*;

verus! {

/// How long connecting may take, in seconds.
pub const CONNECT_TIMEOUT_SECS: u64 = 5;

/// The time a method may take once connected, in seconds.
pub const METHOD_BUDGET_SECS: u64 = 10;

/// The slack added on top, in seconds.
pub const MARGIN_SECS: u64 = 2;

/// Timeouts and connection options for the client that the bot builds.
#[derive(Debug, Clone, PartialEq, Eq)]
pub struct ClientSettings {
    pub connect_timeout_secs: u64,
    /// The total time one request may take.
    pub timeout_secs: u64,
    pub tcp_nodelay: bool,
    /// Whether requests carry `Connection: keep-alive`.
    pub keep_alive: bool,
}

/// The sound settings: a fixed connect timeout, a total timeout of the
/// connect timeout plus the method budget plus a margin, no Nagle delay, and
/// kept-alive connections.
pub fn sound_settings() -> (r: ClientSettings)
    ensures
        r.connect_timeout_secs == CONNECT_TIMEOUT_SECS,
        r.timeout_secs == CONNECT_TIMEOUT_SECS + METHOD_BUDGET_SECS + MARGIN_SECS,
        r.tcp_nodelay,
        r.keep_alive,
{
    ClientSettings {
        connect_timeout_secs: CONNECT_TIMEOUT_SECS,
        timeout_secs: CONNECT_TIMEOUT_SECS + METHOD_BUDGET_SECS + MARGIN_SECS,
        tcp_nodelay: true,
        keep_alive: true,
    }
}

} // verus!
