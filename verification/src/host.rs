//! Host discovery: a sweep creates or updates host records keyed by IP
//! address, and later phases (lookup, OS detection) enrich a record without
//! ever duplicating it.

use vstd::prelude::*;

verus! {

/// One discovered host. A record starts with the address (and MAC, when the
/// sweep saw one) and is enriched later; enrichment never clears a field
/// that is already set.
#[derive(Clone, Debug)]
pub struct HostRecord {
    /// IPv4 address as `u32`: the identity key of the record.
    pub ip: u32,
    /// MAC address as its 48-bit value.
    pub mac: Option<u64>,
    /// Vendor resolved from the MAC prefix.
    pub vendor: Option<String>,
    /// Reverse-resolved name.
    pub host_name: Option<String>,
    /// OS family guessed from the observed TTL.
    pub os_family: Option<String>,
}

/// Result of a host scan: discovered hosts, each with a distinct IP.
#[derive(Clone, Debug)]
pub struct HostScanResult {
    pub hosts: Vec<HostRecord>,
}

/// No two records share an IP.
pub open spec fn ips_distinct(s: Seq<HostRecord>) -> bool {
    forall|i: int, j: int| 0 <= i < j < s.len() ==> s[i].ip != s[j].ip
}

/// Some record carries `ip`.
pub open spec fn contains_ip(s: Seq<HostRecord>, ip: u32) -> bool {
    exists|i: int| 0 <= i < s.len() && s[i].ip == ip
}

/// The record a fresh discovery creates.
pub open spec fn fresh_record(ip: u32, mac: Option<u64>) -> HostRecord {
    HostRecord { ip, mac, vendor: None, host_name: None, os_family: None }
}

/// `r` with its MAC filled in when it had none.
pub open spec fn merge_mac(r: HostRecord, mac: Option<u64>) -> HostRecord {
    HostRecord {
        ip: r.ip,
        mac: if r.mac is None {
            mac
        } else {
            r.mac
        },
        vendor: r.vendor,
        host_name: r.host_name,
        os_family: r.os_family,
    }
}

/// `r` enriched by the lookup phase: vendor and name filled in where they
/// were unset.
pub open spec fn merge_lookup(r: HostRecord, vendor: Option<String>, host_name: Option<String>)
    -> HostRecord {
    HostRecord {
        ip: r.ip,
        mac: r.mac,
        vendor: if r.vendor is None {
            vendor
        } else {
            r.vendor
        },
        host_name: if r.host_name is None {
            host_name
        } else {
            r.host_name
        },
        os_family: r.os_family,
    }
}

/// `r` with an OS guess filled in where it was unset.
pub open spec fn merge_os(r: HostRecord, os_family: Option<String>) -> HostRecord {
    HostRecord {
        ip: r.ip,
        mac: r.mac,
        vendor: r.vendor,
        host_name: r.host_name,
        os_family: if r.os_family is None {
            os_family
        } else {
            r.os_family
        },
    }
}

/// The discovery inputs name pairwise-distinct addresses.
pub open spec fn discovery_ips_distinct(d: Seq<(u32, Option<u64>)>) -> bool {
    forall|i: int, j: int| 0 <= i < j < d.len() ==> d[i].0 != d[j].0
}

impl HostScanResult {
    pub open spec fn wf(&self) -> bool {
        ips_distinct(self.hosts@)
    }

    pub fn new() -> (r: HostScanResult)
        ensures
            r.wf(),
            r.hosts@.len() == 0,
    {
        HostScanResult { hosts: Vec::new() }
    }

    /// The position of the record keyed by `ip`, if one exists.
    pub fn find_index(&self, ip: u32) -> (r: Option<usize>)
        ensures
            match r {
                Some(i) => i < self.hosts@.len() && self.hosts@[i as int].ip == ip,
                None => !contains_ip(self.hosts@, ip),
            },
    {
        let mut i: usize = 0;
        while i < self.hosts.len()
            invariant
                i <= self.hosts@.len(),
                forall|j: int| 0 <= j < i ==> self.hosts@[j].ip != ip,
            decreases self.hosts@.len() - i,
        {
            if self.hosts[i].ip == ip {
                return Some(i);
            }
            i = i + 1;
        }
        None
    }

    /// Folds one sweep response in: creates the record when the IP is new,
    /// otherwise fills its MAC if it was missing. No record is ever
    /// duplicated.
    pub fn upsert_discovery(&mut self, ip: u32, mac: Option<u64>)
        requires
            old(self).wf(),
        ensures
            final(self).wf(),
            contains_ip(final(self).hosts@, ip),
            !contains_ip(old(self).hosts@, ip) ==> final(self).hosts@ == old(self).hosts@.push(
                fresh_record(ip, mac),
            ),
            contains_ip(old(self).hosts@, ip) ==> exists|j: int|
                0 <= j < old(self).hosts@.len() && old(self).hosts@[j].ip == ip && final(self).hosts@ == old(self).hosts@.update(j, merge_mac(old(self).hosts@[j], mac)),
            forall|q: u32|
                #[trigger] contains_ip(final(self).hosts@, q) <==> (contains_ip(
                    old(self).hosts@,
                    q,
                ) || q == ip),
    {
        let found = self.find_index(ip);
        match found {
            Some(j) => {
                let r = &self.hosts[j];
                let updated = HostRecord {
                    ip: r.ip,
                    mac: if r.mac.is_none() {
                        mac
                    } else {
                        r.mac
                    },
                    vendor: r.vendor.clone(),
                    host_name: r.host_name.clone(),
                    os_family: r.os_family.clone(),
                };
                self.hosts.set(j, updated);
                proof {
                    assert(forall|k: int|
                        0 <= k < self.hosts@.len() ==> #[trigger] self.hosts@[k].ip == old(
                            self,
                        ).hosts@[k].ip);
                    assert(self.hosts@[j as int].ip == ip);
                    assert(contains_ip(self.hosts@, ip));
                    assert forall|q: u32| contains_ip(self.hosts@, q) implies contains_ip(
                        old(self).hosts@,
                        q,
                    ) by {
                        let k = choose|k: int|
                            0 <= k < self.hosts@.len() && self.hosts@[k].ip == q;
                        assert(old(self).hosts@[k].ip == q);
                    }
                    assert forall|q: u32| contains_ip(old(self).hosts@, q) implies contains_ip(
                        self.hosts@,
                        q,
                    ) by {
                        let k = choose|k: int|
                            0 <= k < old(self).hosts@.len() && old(self).hosts@[k].ip == q;
                        assert(self.hosts@[k].ip == q);
                    }
                }
            },
            None => {
                self.hosts.push(HostRecord {
                    ip,
                    mac,
                    vendor: None,
                    host_name: None,
                    os_family: None,
                });
                proof {
                    let n = old(self).hosts@.len() as int;
                    assert(self.hosts@[n].ip == ip);
                    assert(contains_ip(self.hosts@, ip));
                    assert forall|q: u32| contains_ip(self.hosts@, q) implies (contains_ip(
                        old(self).hosts@,
                        q,
                    ) || q == ip) by {
                        let k = choose|k: int|
                            0 <= k < self.hosts@.len() && self.hosts@[k].ip == q;
                        if k < n {
                            assert(old(self).hosts@[k].ip == q);
                        }
                    }
                    assert forall|q: u32| contains_ip(old(self).hosts@, q) implies contains_ip(
                        self.hosts@,
                        q,
                    ) by {
                        let k = choose|k: int|
                            0 <= k < old(self).hosts@.len() && old(self).hosts@[k].ip == q;
                        assert(self.hosts@[k].ip == q);
                    }
                }
            },
        }
    }

    /// Records the lookup phase's findings for `ip`: vendor (via the OUI
    /// map) and reverse name, each left as it was when already set or when
    /// resolution failed. An unknown IP changes nothing.
    pub fn enrich_lookup(&mut self, ip: u32, vendor: Option<String>, host_name: Option<String>)
        requires
            old(self).wf(),
        ensures
            final(self).wf(),
            !contains_ip(old(self).hosts@, ip) ==> final(self).hosts@ == old(self).hosts@,
            contains_ip(old(self).hosts@, ip) ==> exists|j: int|
                0 <= j < old(self).hosts@.len() && old(self).hosts@[j].ip == ip && final(self).hosts@ == old(self).hosts@.update(
                    j,
                    merge_lookup(old(self).hosts@[j], vendor, host_name),
                ),
    {
        let found = self.find_index(ip);
        match found {
            Some(j) => {
                let r = &self.hosts[j];
                let updated = HostRecord {
                    ip: r.ip,
                    mac: r.mac,
                    vendor: if r.vendor.is_none() {
                        vendor
                    } else {
                        r.vendor.clone()
                    },
                    host_name: if r.host_name.is_none() {
                        host_name
                    } else {
                        r.host_name.clone()
                    },
                    os_family: r.os_family.clone(),
                };
                self.hosts.set(j, updated);
            },
            None => {},
        }
    }

    /// Records an OS guess for `ip`, kept only where none was set yet. An
    /// unknown IP changes nothing.
    pub fn enrich_os(&mut self, ip: u32, os_family: Option<String>)
        requires
            old(self).wf(),
        ensures
            final(self).wf(),
            !contains_ip(old(self).hosts@, ip) ==> final(self).hosts@ == old(self).hosts@,
            contains_ip(old(self).hosts@, ip) ==> exists|j: int|
                0 <= j < old(self).hosts@.len() && old(self).hosts@[j].ip == ip && final(self).hosts@ == old(self).hosts@.update(j, merge_os(old(self).hosts@[j], os_family)),
    {
        let found = self.find_index(ip);
        match found {
            Some(j) => {
                let r = &self.hosts[j];
                let updated = HostRecord {
                    ip: r.ip,
                    mac: r.mac,
                    vendor: r.vendor.clone(),
                    host_name: r.host_name.clone(),
                    os_family: if r.os_family.is_none() {
                        os_family
                    } else {
                        r.os_family.clone()
                    },
                };
                self.hosts.set(j, updated);
            },
            None => {},
        }
    }

    /// Builds the discovery phase's result from the sweep responses, in
    /// arrival order. The result carries exactly the responding addresses,
    /// never duplicated; when the responses name pairwise-distinct
    /// addresses, the result has exactly one record per response, in order.
    pub fn from_discoveries(discoveries: &Vec<(u32, Option<u64>)>) -> (r: HostScanResult)
        ensures
            r.wf(),
            forall|i: int|
                0 <= i < discoveries@.len() ==> contains_ip(
                    r.hosts@,
                    #[trigger] discoveries@[i].0,
                ),
            forall|j: int|
                0 <= j < r.hosts@.len() ==> exists|i: int|
                    0 <= i < discoveries@.len() && discoveries@[i].0 == #[trigger] r.hosts@[j].ip,
            discovery_ips_distinct(discoveries@) ==> r.hosts@.len() == discoveries@.len()
                && forall|i: int|
                0 <= i < discoveries@.len() ==> #[trigger] r.hosts@[i] == fresh_record(
                    discoveries@[i].0,
                    discoveries@[i].1,
                ),
    {
        let mut r = HostScanResult::new();
        let mut i: usize = 0;
        while i < discoveries.len()
            invariant
                r.wf(),
                i <= discoveries@.len(),
                forall|k: int|
                    0 <= k < i ==> contains_ip(r.hosts@, #[trigger] discoveries@[k].0),
                forall|j: int|
                    0 <= j < r.hosts@.len() ==> exists|k: int|
                        0 <= k < i && discoveries@[k].0 == #[trigger] r.hosts@[j].ip,
                discovery_ips_distinct(discoveries@) ==> r.hosts@.len() == i && forall|k: int|
                    0 <= k < i ==> #[trigger] r.hosts@[k] == fresh_record(
                        discoveries@[k].0,
                        discoveries@[k].1,
                    ),
            decreases discoveries@.len() - i,
        {
            let (ip, mac) = discoveries[i];
            proof {
                if discovery_ips_distinct(discoveries@) {
                    assert(forall|j: int|
                        0 <= j < r.hosts@.len() ==> #[trigger] r.hosts@[j].ip != ip);
                    assert(!contains_ip(r.hosts@, ip));
                }
            }
            r.upsert_discovery(ip, mac);
            i = i + 1;
        }
        r
    }
}

} // verus!
