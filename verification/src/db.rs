//! Signature databases: immutable lookup tables loaded once and shared
//! read-only across probes. The OUI map resolves a MAC prefix to a vendor
//! by longest matching prefix; the TTL table resolves an observed TTL to an
//! OS family by nearest canonical value at or above it, within a bounded
//! delta.

use vstd::prelude::*;

verus! {

/// One OUI entry: a MAC-address prefix and the vendor it is assigned to.
#[derive(Clone, Debug)]
pub struct OuiEntry {
    pub prefix: Vec<u8>,
    pub vendor: String,
}

/// MAC prefix → vendor map. Read-only after load.
#[derive(Clone, Debug)]
pub struct OuiMap {
    pub entries: Vec<OuiEntry>,
}

/// `p` is a prefix of `m`.
pub open spec fn is_prefix_of(p: Seq<u8>, m: Seq<u8>) -> bool {
    p.len() <= m.len() && forall|i: int| 0 <= i < p.len() ==> p[i] == m[i]
}

/// `j` is the entry a lookup of `mac` owes: it matches, no entry matches
/// with a longer prefix, and no earlier entry matches with the same length.
pub open spec fn is_best_oui_match(entries: Seq<OuiEntry>, mac: Seq<u8>, j: int) -> bool {
    &&& 0 <= j < entries.len()
    &&& is_prefix_of(entries[j].prefix@, mac)
    &&& forall|k: int|
        0 <= k < entries.len() && is_prefix_of(#[trigger] entries[k].prefix@, mac)
            ==> entries[k].prefix@.len() <= entries[j].prefix@.len()
    &&& forall|k: int|
        0 <= k < entries.len() && is_prefix_of(#[trigger] entries[k].prefix@, mac)
            && entries[k].prefix@.len() == entries[j].prefix@.len() ==> j <= k
}

/// Byte-wise prefix test.
pub fn is_prefix(p: &Vec<u8>, m: &Vec<u8>) -> (b: bool)
    ensures
        b == is_prefix_of(p@, m@),
{
    if p.len() > m.len() {
        return false;
    }
    let mut i: usize = 0;
    while i < p.len()
        invariant
            p@.len() <= m@.len(),
            i <= p@.len(),
            forall|k: int| 0 <= k < i ==> p@[k] == m@[k],
        decreases p@.len() - i,
    {
        if p[i] != m[i] {
            return false;
        }
        i = i + 1;
    }
    true
}

impl OuiMap {
    /// Resolves the vendor of `mac` by longest matching prefix (the
    /// earliest entry on equal length); `None` when no prefix matches.
    pub fn lookup_vendor(&self, mac: &Vec<u8>) -> (r: Option<String>)
        ensures
            match r {
                Some(v) => exists|j: int|
                    #[trigger] is_best_oui_match(self.entries@, mac@, j) && v == self.entries@[
                        j
                    ].vendor,
                None => forall|k: int|
                    0 <= k < self.entries@.len() ==> !is_prefix_of(
                        #[trigger] self.entries@[k].prefix@,
                        mac@,
                    ),
            },
    {
        let mut best: usize = 0;
        let mut found = false;
        let mut i: usize = 0;
        while i < self.entries.len()
            invariant
                i <= self.entries@.len(),
                found ==> best < i,
                found ==> is_prefix_of(self.entries@[best as int].prefix@, mac@),
                found ==> forall|k: int|
                    0 <= k < i && is_prefix_of(#[trigger] self.entries@[k].prefix@, mac@)
                        ==> self.entries@[k].prefix@.len() <= self.entries@[
                        best as int
                    ].prefix@.len(),
                found ==> forall|k: int|
                    0 <= k < i && is_prefix_of(#[trigger] self.entries@[k].prefix@, mac@)
                        && self.entries@[k].prefix@.len() == self.entries@[best as int].prefix@.len()
                        ==> best <= k,
                !found ==> forall|k: int|
                    0 <= k < i ==> !is_prefix_of(#[trigger] self.entries@[k].prefix@, mac@),
            decreases self.entries@.len() - i,
        {
            if is_prefix(&self.entries[i].prefix, mac) {
                if !found || self.entries[i].prefix.len() > self.entries[best].prefix.len() {
                    best = i;
                    found = true;
                }
            }
            i = i + 1;
        }
        if found {
            proof {
                assert(is_best_oui_match(self.entries@, mac@, best as int));
            }
            Some(self.entries[best].vendor.clone())
        } else {
            None
        }
    }
}

/// Bound on how far below a canonical TTL an observed TTL may fall and
/// still match it: intermediate hops decrement the TTL, so the match policy
/// is nearest canonical value at or above the observation, never equality.
pub const TTL_MATCH_DELTA: u8 = 32;

/// One TTL fingerprint: a canonical initial TTL and its OS family.
#[derive(Clone, Debug)]
pub struct TtlFingerprint {
    pub ttl: u8,
    pub os_family: String,
}

/// Canonical TTL → OS family table. Read-only after load.
#[derive(Clone, Debug)]
pub struct TtlFingerprintTable {
    pub entries: Vec<TtlFingerprint>,
}

/// The entry can explain the observation: its canonical TTL is at or above
/// the observed value, within the fixed delta.
pub open spec fn ttl_matches(e: TtlFingerprint, observed: u8) -> bool {
    e.ttl >= observed && e.ttl - observed <= TTL_MATCH_DELTA
}

/// `j` is the entry a lookup of `observed` owes: it matches, no matching
/// entry has a nearer (smaller) canonical TTL, and no earlier entry matches
/// with the same canonical TTL.
pub open spec fn is_best_ttl_match(entries: Seq<TtlFingerprint>, observed: u8, j: int) -> bool {
    &&& 0 <= j < entries.len()
    &&& ttl_matches(entries[j], observed)
    &&& forall|k: int|
        0 <= k < entries.len() && ttl_matches(#[trigger] entries[k], observed) ==> entries[
            j
        ].ttl <= entries[k].ttl
    &&& forall|k: int|
        0 <= k < entries.len() && ttl_matches(#[trigger] entries[k], observed) && entries[k].ttl
            == entries[j].ttl ==> j <= k
}

/// The best match is unique: given the same observed TTL and the same
/// table, repeated lookups can only name one entry. OS fingerprinting is
/// therefore deterministic.
pub proof fn lemma_ttl_match_unique(
    entries: Seq<TtlFingerprint>,
    observed: u8,
    j1: int,
    j2: int,
)
    requires
        is_best_ttl_match(entries, observed, j1),
        is_best_ttl_match(entries, observed, j2),
    ensures
        j1 == j2,
{
    assert(entries[j1].ttl <= entries[j2].ttl);
    assert(entries[j2].ttl <= entries[j1].ttl);
}

impl TtlFingerprintTable {
    /// Guesses the OS family from the TTL observed on the first successful
    /// response: nearest canonical TTL at or above it within the delta (the
    /// earliest entry on a tie); `None` — not an error — when no entry is
    /// within the delta.
    pub fn lookup_os(&self, observed: u8) -> (r: Option<String>)
        ensures
            match r {
                Some(v) => exists|j: int|
                    #[trigger] is_best_ttl_match(self.entries@, observed, j) && v == self.entries@[
                        j
                    ].os_family,
                None => forall|k: int|
                    0 <= k < self.entries@.len() ==> !ttl_matches(
                        #[trigger] self.entries@[k],
                        observed,
                    ),
            },
    {
        let mut best: usize = 0;
        let mut found = false;
        let mut i: usize = 0;
        while i < self.entries.len()
            invariant
                i <= self.entries@.len(),
                found ==> best < i,
                found ==> ttl_matches(self.entries@[best as int], observed),
                found ==> forall|k: int|
                    0 <= k < i && ttl_matches(#[trigger] self.entries@[k], observed)
                        ==> self.entries@[best as int].ttl <= self.entries@[k].ttl,
                found ==> forall|k: int|
                    0 <= k < i && ttl_matches(#[trigger] self.entries@[k], observed)
                        && self.entries@[k].ttl == self.entries@[best as int].ttl ==> best <= k,
                !found ==> forall|k: int|
                    0 <= k < i ==> !ttl_matches(#[trigger] self.entries@[k], observed),
            decreases self.entries@.len() - i,
        {
            let e_ttl = self.entries[i].ttl;
            if e_ttl >= observed && e_ttl - observed <= TTL_MATCH_DELTA {
                if !found || e_ttl < self.entries[best].ttl {
                    best = i;
                    found = true;
                }
            }
            i = i + 1;
        }
        if found {
            proof {
                assert(is_best_ttl_match(self.entries@, observed, best as int));
            }
            Some(self.entries[best].os_family.clone())
        } else {
            None
        }
    }
}

} // verus!
