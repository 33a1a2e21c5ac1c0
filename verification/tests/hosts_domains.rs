use scan_engine::domain::DomainScanResult;
use scan_engine::host::HostScanResult;

#[test]
fn discovery_keeps_one_record_per_ip() {
    // Three distinct responsive addresses give exactly three records.
    let discoveries = vec![
        (0xC0A80001u32, Some(0x001122334455u64)),
        (0xC0A80002, None),
        (0xC0A80003, Some(0xAABBCCDDEEFF)),
    ];
    let r = HostScanResult::from_discoveries(&discoveries);
    assert_eq!(r.hosts.len(), 3);
    assert_eq!(r.hosts[0].ip, 0xC0A80001);
    assert_eq!(r.hosts[0].mac, Some(0x001122334455));
    assert_eq!(r.hosts[1].ip, 0xC0A80002);
    assert_eq!(r.hosts[1].mac, None);
    assert_eq!(r.hosts[2].ip, 0xC0A80003);
}

#[test]
fn repeated_response_fills_mac_without_duplicating() {
    let discoveries = vec![
        (0xC0A80001u32, None),
        (0xC0A80001, Some(0x001122334455u64)),
        (0xC0A80001, Some(0xFFFFFFFFFFFF)),
    ];
    let r = HostScanResult::from_discoveries(&discoveries);
    assert_eq!(r.hosts.len(), 1);
    assert_eq!(r.hosts[0].ip, 0xC0A80001);
    // The first MAC seen sticks; a later one never overwrites it.
    assert_eq!(r.hosts[0].mac, Some(0x001122334455));
}

#[test]
fn enrichment_updates_in_place() {
    let mut r = HostScanResult::from_discoveries(&vec![(1u32, None), (2, None)]);
    r.enrich_lookup(2, Some(String::from("AcmeNet")), Some(String::from("printer.local")));
    r.enrich_os(2, Some(String::from("Linux")));
    assert_eq!(r.hosts.len(), 2);
    assert!(r.hosts[0].vendor.is_none());
    assert_eq!(r.hosts[1].vendor.as_deref(), Some("AcmeNet"));
    assert_eq!(r.hosts[1].host_name.as_deref(), Some("printer.local"));
    assert_eq!(r.hosts[1].os_family.as_deref(), Some("Linux"));
}

#[test]
fn enrichment_of_unknown_ip_changes_nothing() {
    let mut r = HostScanResult::from_discoveries(&vec![(1u32, None)]);
    r.enrich_lookup(9, Some(String::from("AcmeNet")), None);
    r.enrich_os(9, Some(String::from("Linux")));
    assert_eq!(r.hosts.len(), 1);
    assert!(r.hosts[0].vendor.is_none());
    assert!(r.hosts[0].os_family.is_none());
}

#[test]
fn enrichment_never_clears_a_field() {
    let mut r = HostScanResult::from_discoveries(&vec![(1u32, None)]);
    r.enrich_os(1, Some(String::from("Linux")));
    r.enrich_os(1, None);
    r.enrich_os(1, Some(String::from("Windows")));
    assert_eq!(r.hosts[0].os_family.as_deref(), Some("Linux"));
}

#[test]
fn domain_scan_records_unresolved_names() {
    // "www" and "mail" resolve, "doesnotexist" does not: three entries, the
    // last present with no record.
    let names = vec![
        String::from("www"),
        String::from("mail"),
        String::from("doesnotexist"),
    ];
    let answers: Vec<Vec<u32>> = vec![vec![0x5DB8D822], vec![0x5DB8D823, 0x5DB8D824], vec![]];
    let r = DomainScanResult::from_answers(&names, &answers);
    assert_eq!(r.domains.len(), 3);
    assert_eq!(r.domains[0].name, "www");
    assert_eq!(r.domains[0].records, vec![0x5DB8D822]);
    assert_eq!(r.domains[1].name, "mail");
    assert_eq!(r.domains[1].records.len(), 2);
    assert_eq!(r.domains[2].name, "doesnotexist");
    assert!(r.domains[2].records.is_empty());
}
