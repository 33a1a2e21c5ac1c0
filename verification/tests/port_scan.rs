use scan_engine::config::ScanTechnique;
use scan_engine::port::{
    classify_port, port_scan_from_outcomes, PortProbeOutcome, PortReply, PortState, Protocol,
};
use scan_engine::service::{detect_service, ServiceSignature, WellKnownService};

fn syn_outcomes() -> Vec<PortProbeOutcome> {
    vec![
        PortProbeOutcome::Response(PortReply::Rst),
        PortProbeOutcome::Response(PortReply::SynAck),
        PortProbeOutcome::TimedOut,
    ]
}

#[test]
fn scan_classifies_and_sorts_three_ports() {
    // 22 answers RST (closed), 80 answers SYN-ACK (open), 443 stays silent
    // (filtered).
    let ports: Vec<u16> = vec![22, 80, 443];
    let result = port_scan_from_outcomes(0xC0A80001, ScanTechnique::Syn, &ports, &syn_outcomes());
    assert_eq!(result.target, 0xC0A80001);
    assert_eq!(result.entries.len(), 3);
    assert_eq!(result.entries[0].port, 22);
    assert_eq!(result.entries[0].state, PortState::Closed);
    assert_eq!(result.entries[1].port, 80);
    assert_eq!(result.entries[1].state, PortState::Open);
    assert_eq!(result.entries[2].port, 443);
    assert_eq!(result.entries[2].state, PortState::Filtered);
    for e in &result.entries {
        assert_eq!(e.protocol, Protocol::Tcp);
        assert!(e.service.is_none());
    }
}

#[test]
fn scan_resorts_out_of_order_completions() {
    // Same outcomes arriving for a port list written high-to-low: the
    // aggregate is still sorted ascending.
    let ports: Vec<u16> = vec![443, 80, 22];
    let outcomes = vec![
        PortProbeOutcome::TimedOut,
        PortProbeOutcome::Response(PortReply::SynAck),
        PortProbeOutcome::Response(PortReply::Rst),
    ];
    let result = port_scan_from_outcomes(1, ScanTechnique::Syn, &ports, &outcomes);
    assert_eq!(result.entries.len(), 3);
    assert_eq!(result.entries[0].port, 22);
    assert_eq!(result.entries[1].port, 80);
    assert_eq!(result.entries[2].port, 443);
}

#[test]
fn service_pass_marks_open_http_port() {
    let ports: Vec<u16> = vec![22, 80, 443];
    let mut result =
        port_scan_from_outcomes(0xC0A80001, ScanTechnique::Syn, &ports, &syn_outcomes());
    let open = result.open_ports();
    assert_eq!(open, vec![80u16]);
    let sigs: Vec<ServiceSignature> = Vec::new();
    let well_known = vec![WellKnownService { port: 80, service: String::from("http") }];
    for p in open {
        if let Some(name) = detect_service(p, &None, &sigs, &well_known) {
            result.set_service(p, name);
        }
    }
    assert_eq!(result.entries[1].service.as_deref(), Some("http"));
    assert!(result.entries[0].service.is_none());
    assert!(result.entries[2].service.is_none());
}

#[test]
fn connect_and_udp_classification() {
    let c = ScanTechnique::Connect;
    assert_eq!(
        classify_port(c, &PortProbeOutcome::Response(PortReply::Accepted)),
        PortState::Open
    );
    assert_eq!(
        classify_port(c, &PortProbeOutcome::Response(PortReply::Refused)),
        PortState::Closed
    );
    assert_eq!(classify_port(c, &PortProbeOutcome::TimedOut), PortState::Filtered);
    let u = ScanTechnique::Udp;
    assert_eq!(
        classify_port(u, &PortProbeOutcome::Response(PortReply::Payload)),
        PortState::Open
    );
    assert_eq!(classify_port(u, &PortProbeOutcome::Unreachable), PortState::Closed);
    assert_eq!(classify_port(u, &PortProbeOutcome::TimedOut), PortState::Filtered);
}

#[test]
fn duplicate_ports_keep_their_count() {
    let ports: Vec<u16> = vec![53, 53];
    let outcomes = vec![
        PortProbeOutcome::Response(PortReply::Payload),
        PortProbeOutcome::TimedOut,
    ];
    let result = port_scan_from_outcomes(2, ScanTechnique::Udp, &ports, &outcomes);
    assert_eq!(result.entries.len(), 2);
    assert_eq!(result.entries[0].port, 53);
    assert_eq!(result.entries[1].port, 53);
    let states: Vec<PortState> = result.entries.iter().map(|e| e.state).collect();
    assert!(states.contains(&PortState::Open));
    assert!(states.contains(&PortState::Filtered));
}
