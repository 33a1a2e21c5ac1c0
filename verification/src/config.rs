//! Scan configuration and its validation. A configuration is immutable once
//! a run starts; validation failures are the only errors raised before any
//! probing begins.

use vstd::prelude::*;

verus! {

/// Probe technique driving a run.
#[derive(Clone, Copy, PartialEq, Eq, Structural, Debug)]
pub enum ScanTechnique {
    Connect,
    Syn,
    Udp,
    ArpSweep,
    IcmpSweep,
}

/// Which top-level scan a configuration is validated for.
#[derive(Clone, Copy, PartialEq, Eq, Structural, Debug)]
pub enum ScanKind {
    PortScan,
    HostScan,
    Ping,
    Trace,
    DomainScan,
}

/// Configuration of one run. Addresses are IPv4 values held as `u32`;
/// durations are milliseconds.
#[derive(Clone, Debug)]
pub struct ScanConfig {
    /// Target addresses (hosts to probe, or the swept range).
    pub targets: Vec<u32>,
    /// Ports probed by a port scan.
    pub ports: Vec<u16>,
    pub technique: ScanTechnique,
    /// Per-probe timeout.
    pub timeout_ms: u64,
    /// Global bound on in-flight probes.
    pub concurrency: usize,
    /// Interval between echo probes (ping).
    pub interval_ms: u64,
    /// Number of echo probes (ping).
    pub ping_count: u32,
    /// Hop cap (traceroute).
    pub max_hops: u8,
    /// Candidate names resolved by a domain scan.
    pub wordlist: Vec<String>,
}

/// A configuration error: fatal, raised before any probing begins.
#[derive(Clone, Copy, PartialEq, Eq, Structural, Debug)]
pub enum ConfigError {
    NoTargets,
    EmptyPortList,
    ZeroConcurrency,
    ZeroPingCount,
    ZeroMaxHops,
    EmptyWordlist,
}

/// Whether the technique probes individual ports.
pub open spec fn is_port_technique(t: ScanTechnique) -> bool {
    t == ScanTechnique::Connect || t == ScanTechnique::Syn || t == ScanTechnique::Udp
}

/// The validation verdict for a configuration, by scan kind. Checks are
/// ordered: missing targets are reported first, then the kind-specific
/// emptiness checks, then the zero concurrency limit.
pub open spec fn validate_spec(cfg: ScanConfig, kind: ScanKind) -> Result<(), ConfigError> {
    if cfg.targets@.len() == 0 && kind != ScanKind::DomainScan {
        Err(ConfigError::NoTargets)
    } else if kind == ScanKind::PortScan && cfg.ports@.len() == 0 {
        Err(ConfigError::EmptyPortList)
    } else if kind == ScanKind::Ping && cfg.ping_count == 0 {
        Err(ConfigError::ZeroPingCount)
    } else if kind == ScanKind::Trace && cfg.max_hops == 0 {
        Err(ConfigError::ZeroMaxHops)
    } else if kind == ScanKind::DomainScan && cfg.wordlist@.len() == 0 {
        Err(ConfigError::EmptyWordlist)
    } else if cfg.concurrency == 0 {
        Err(ConfigError::ZeroConcurrency)
    } else {
        Ok(())
    }
}

impl ScanConfig {
    /// Validates the configuration for the given scan kind; the verdict is
    /// exactly `validate_spec`.
    pub fn validate(&self, kind: ScanKind) -> (r: Result<(), ConfigError>)
        ensures
            r == validate_spec(*self, kind),
    {
        if self.targets.len() == 0 && !(kind == ScanKind::DomainScan) {
            Err(ConfigError::NoTargets)
        } else if kind == ScanKind::PortScan && self.ports.len() == 0 {
            Err(ConfigError::EmptyPortList)
        } else if kind == ScanKind::Ping && self.ping_count == 0 {
            Err(ConfigError::ZeroPingCount)
        } else if kind == ScanKind::Trace && self.max_hops == 0 {
            Err(ConfigError::ZeroMaxHops)
        } else if kind == ScanKind::DomainScan && self.wordlist.len() == 0 {
            Err(ConfigError::EmptyWordlist)
        } else if self.concurrency == 0 {
            Err(ConfigError::ZeroConcurrency)
        } else {
            Ok(())
        }
    }
}

} // verus!
