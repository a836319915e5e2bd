//! What a run is told: where to probe, and how long to wait.
//!
//! Instants and durations are counted in ticks. The caller owns the clock
//! and decides what a tick is worth; the defaults are written for a clock
//! that counts `TIME_UNIT` ticks to the time unit.

use vstd::prelude::*;

verus! {

/// Ticks in one time unit.
pub const TIME_UNIT: u64 = 1000;

/// How long a listener waits for the sentinel unless told otherwise: five
/// time units.
pub const DEFAULT_IDLE_TIMEOUT: u64 = 5 * TIME_UNIT;

/// The pause between starting the listeners and probing them: one time unit.
pub const SETTLE_DELAY: u64 = TIME_UNIT;

/// The port probed unless told otherwise.
pub const DEFAULT_PORT: u16 = 8081;

/// The most bytes a listener takes from one read or one datagram.
pub const READ_BUFFER_SIZE: usize = 1024;

/// The loopback address, the host probed unless told otherwise.
pub open spec fn default_host() -> Seq<char> {
    "127.0.0.1"@
}

/// The endpoint under test. The same host and port serve both protocols, and
/// neither changes once the target is made.
#[derive(Clone, Debug, PartialEq, Eq)]
pub struct ProbeTarget {
    host: String,
    port: u16,
}

pub struct ProbeTargetView {
    pub host: Seq<char>,
    pub port: u16,
}

impl View for ProbeTarget {
    type V = ProbeTargetView;

    closed spec fn view(&self) -> ProbeTargetView {
        ProbeTargetView { host: self.host@, port: self.port }
    }
}

impl ProbeTarget {
    pub fn new(host: String, port: u16) -> (target: ProbeTarget)
        ensures
            target@ == (ProbeTargetView { host: host@, port }),
    {
        ProbeTarget { host, port }
    }

    /// The target on the loopback address.
    pub fn loopback(port: u16) -> (target: ProbeTarget)
        ensures
            target@ == (ProbeTargetView { host: default_host(), port }),
    {
        ProbeTarget { host: "127.0.0.1".to_owned(), port }
    }

    pub fn host(&self) -> (host: &str)
        ensures
            host@ == self@.host,
    {
        self.host.as_str()
    }

    pub fn port(&self) -> (port: u16)
        ensures
            port == self@.port,
    {
        self.port
    }
}

/// Everything a run can be told from outside: the target and the idle
/// timeout, which every part of the run shares.
#[derive(Clone, Debug, PartialEq, Eq)]
pub struct ProbeConfig {
    pub target: ProbeTarget,
    /// Ticks a listener waits for the sentinel, and a client for its
    /// connection.
    pub idle_timeout: u64,
}

pub struct ProbeConfigView {
    pub target: ProbeTargetView,
    pub idle_timeout: nat,
}

impl View for ProbeConfig {
    type V = ProbeConfigView;

    open spec fn view(&self) -> ProbeConfigView {
        ProbeConfigView { target: self.target@, idle_timeout: self.idle_timeout as nat }
    }
}

impl Default for ProbeConfig {
    /// Loopback, port 8081, five time units of patience.
    fn default() -> (config: ProbeConfig)
        ensures
            config@ == (ProbeConfigView {
                target: ProbeTargetView { host: default_host(), port: DEFAULT_PORT },
                idle_timeout: DEFAULT_IDLE_TIMEOUT as nat,
            }),
    {
        ProbeConfig { target: ProbeTarget::loopback(DEFAULT_PORT), idle_timeout: DEFAULT_IDLE_TIMEOUT }
    }
}

} // verus!
