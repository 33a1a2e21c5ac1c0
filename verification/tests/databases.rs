use scan_engine::db::{OuiEntry, OuiMap, TtlFingerprint, TtlFingerprintTable};
use scan_engine::service::{detect_service, ServiceSignature, WellKnownService};

fn ttl_table() -> TtlFingerprintTable {
    TtlFingerprintTable {
        entries: vec![
            TtlFingerprint { ttl: 64, os_family: String::from("Linux") },
            TtlFingerprint { ttl: 128, os_family: String::from("Windows") },
            TtlFingerprint { ttl: 255, os_family: String::from("Network device") },
        ],
    }
}

#[test]
fn ttl_lookup_matches_nearest_above() {
    let t = ttl_table();
    // A Linux host a dozen hops away still answers with a TTL near 64.
    assert_eq!(t.lookup_os(52).as_deref(), Some("Linux"));
    assert_eq!(t.lookup_os(64).as_deref(), Some("Linux"));
    assert_eq!(t.lookup_os(120).as_deref(), Some("Windows"));
    assert_eq!(t.lookup_os(230).as_deref(), Some("Network device"));
}

#[test]
fn ttl_lookup_outside_delta_is_unset() {
    let t = ttl_table();
    // 150 is more than the delta below 255 and above 128: no guess.
    assert_eq!(t.lookup_os(150), None);
    // 20 is more than the delta below 64.
    assert_eq!(t.lookup_os(20), None);
}

#[test]
fn ttl_lookup_is_deterministic() {
    let t = ttl_table();
    for observed in 0u8..=255 {
        assert_eq!(t.lookup_os(observed), t.lookup_os(observed));
    }
}

#[test]
fn oui_longest_prefix_wins() {
    let m = OuiMap {
        entries: vec![
            OuiEntry { prefix: vec![0x00, 0x11], vendor: String::from("Short Corp") },
            OuiEntry { prefix: vec![0x00, 0x11, 0x22], vendor: String::from("Long Corp") },
            OuiEntry { prefix: vec![0xAA], vendor: String::from("Other Corp") },
        ],
    };
    let mac = vec![0x00u8, 0x11, 0x22, 0x33, 0x44, 0x55];
    assert_eq!(m.lookup_vendor(&mac).as_deref(), Some("Long Corp"));
    let mac2 = vec![0x00u8, 0x11, 0x99, 0x33, 0x44, 0x55];
    assert_eq!(m.lookup_vendor(&mac2).as_deref(), Some("Short Corp"));
    let mac3 = vec![0xEEu8, 0x11, 0x22, 0x33, 0x44, 0x55];
    assert_eq!(m.lookup_vendor(&mac3), None);
}

#[test]
fn banner_signature_beats_port_fallback() {
    let sigs = vec![
        ServiceSignature { pattern: b"SSH".to_vec(), service: String::from("ssh") },
        ServiceSignature {
            pattern: b"SSH-2.0-OpenSSH".to_vec(),
            service: String::from("openssh"),
        },
    ];
    let well_known = vec![
        WellKnownService { port: 22, service: String::from("ssh") },
        WellKnownService { port: 80, service: String::from("http") },
    ];
    let banner = Some(b"SSH-2.0-OpenSSH_9.6 something".to_vec());
    // Both patterns occur; the longer, more specific one wins.
    assert_eq!(detect_service(22, &banner, &sigs, &well_known).as_deref(), Some("openssh"));
    // An unmatched banner on a well-known port falls back to the
    // conventional name.
    let odd = Some(b"220 ready".to_vec());
    assert_eq!(detect_service(80, &odd, &sigs, &well_known).as_deref(), Some("http"));
    // No banner at all still gets the fallback.
    assert_eq!(detect_service(80, &None, &sigs, &well_known).as_deref(), Some("http"));
    // Fully unmatched: no service name, not an error.
    assert_eq!(detect_service(4444, &odd, &sigs, &well_known), None);
}
