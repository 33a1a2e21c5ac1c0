//! Progress-event vocabulary: the engine reports phase lifecycle markers and
//! free-form progress lines over a one-way channel.

use vstd::prelude::*;
use vstd::string::StringExecFns;

verus! {

/// The phases a run can announce.
#[derive(Clone, Copy, PartialEq, Eq, Structural, Debug)]
pub enum ScanPhase {
    PortScan,
    ServiceDetection,
    OsDetection,
    HostScan,
    Lookup,
    DomainScan,
}

/// One message on the progress channel: a phase-start marker, a phase-end
/// marker, or a free-form human-readable line (printed verbatim by ping and
/// traceroute consumers).
#[derive(Clone, Debug)]
pub enum ProgressEvent {
    PhaseStart(ScanPhase),
    PhaseEnd(ScanPhase),
    Line(String),
}

/// The exact tag announcing the start of a phase.
pub open spec fn start_tag_spec(p: ScanPhase) -> Seq<char> {
    match p {
        ScanPhase::PortScan => "START_PORTSCAN"@,
        ScanPhase::ServiceDetection => "START_SERVICEDETECTION"@,
        ScanPhase::OsDetection => "START_OSDETECTION"@,
        ScanPhase::HostScan => "START_HOSTSCAN"@,
        ScanPhase::Lookup => "START_LOOKUP"@,
        ScanPhase::DomainScan => "START_DOMAINSCAN"@,
    }
}

/// The exact tag announcing the end of a phase.
pub open spec fn end_tag_spec(p: ScanPhase) -> Seq<char> {
    match p {
        ScanPhase::PortScan => "END_PORTSCAN"@,
        ScanPhase::ServiceDetection => "END_SERVICEDETECTION"@,
        ScanPhase::OsDetection => "END_OSDETECTION"@,
        ScanPhase::HostScan => "END_HOSTSCAN"@,
        ScanPhase::Lookup => "END_LOOKUP"@,
        ScanPhase::DomainScan => "END_DOMAINSCAN"@,
    }
}

/// The text an event carries on the channel.
pub open spec fn event_text_spec(e: ProgressEvent) -> Seq<char> {
    match e {
        ProgressEvent::PhaseStart(p) => start_tag_spec(p),
        ProgressEvent::PhaseEnd(p) => end_tag_spec(p),
        ProgressEvent::Line(s) => s@,
    }
}

impl ProgressEvent {
    /// Renders the event as the exact string the channel carries.
    pub fn text(&self) -> (r: String)
        ensures
            r@ == event_text_spec(*self),
    {
        match self {
            ProgressEvent::PhaseStart(p) => match p {
                ScanPhase::PortScan => String::from_str("START_PORTSCAN"),
                ScanPhase::ServiceDetection => String::from_str("START_SERVICEDETECTION"),
                ScanPhase::OsDetection => String::from_str("START_OSDETECTION"),
                ScanPhase::HostScan => String::from_str("START_HOSTSCAN"),
                ScanPhase::Lookup => String::from_str("START_LOOKUP"),
                ScanPhase::DomainScan => String::from_str("START_DOMAINSCAN"),
            },
            ProgressEvent::PhaseEnd(p) => match p {
                ScanPhase::PortScan => String::from_str("END_PORTSCAN"),
                ScanPhase::ServiceDetection => String::from_str("END_SERVICEDETECTION"),
                ScanPhase::OsDetection => String::from_str("END_OSDETECTION"),
                ScanPhase::HostScan => String::from_str("END_HOSTSCAN"),
                ScanPhase::Lookup => String::from_str("END_LOOKUP"),
                ScanPhase::DomainScan => String::from_str("END_DOMAINSCAN"),
            },
            ProgressEvent::Line(s) => s.clone(),
        }
    }
}

} // verus!
