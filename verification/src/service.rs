//! Service detection: a captured banner is compared against the signature
//! table by longest specific match; an unmatched banner on a well-known
//! port falls back to the conventional name for that port; a fully
//! unmatched port gets no service name, which is not an error.

use vstd::prelude::*;

verus! {

/// One banner signature: a byte pattern and the service it identifies.
#[derive(Clone, Debug)]
pub struct ServiceSignature {
    pub pattern: Vec<u8>,
    pub service: String,
}

/// The conventional service name of a well-known port.
#[derive(Clone, Debug)]
pub struct WellKnownService {
    pub port: u16,
    pub service: String,
}

/// `p` occurs at position `k` of `s`.
pub open spec fn match_at(p: Seq<u8>, s: Seq<u8>, k: int) -> bool {
    0 <= k && k + p.len() <= s.len() && forall|i: int| 0 <= i < p.len() ==> s[k + i] == p[i]
}

/// `p` occurs somewhere in `s`.
pub open spec fn is_substring_of(p: Seq<u8>, s: Seq<u8>) -> bool {
    exists|k: int| match_at(p, s, k)
}

/// The signature's pattern occurs in the banner.
pub open spec fn sig_matches(e: ServiceSignature, banner: Seq<u8>) -> bool {
    is_substring_of(e.pattern@, banner)
}

/// `j` is the signature a match of `banner` owes: it matches, no matching
/// signature has a longer (more specific) pattern, and no earlier one
/// matches with the same length.
pub open spec fn is_best_signature(sigs: Seq<ServiceSignature>, banner: Seq<u8>, j: int) -> bool {
    &&& 0 <= j < sigs.len()
    &&& sig_matches(sigs[j], banner)
    &&& forall|k: int|
        0 <= k < sigs.len() && sig_matches(#[trigger] sigs[k], banner) ==> sigs[k].pattern@.len()
            <= sigs[j].pattern@.len()
    &&& forall|k: int|
        0 <= k < sigs.len() && sig_matches(#[trigger] sigs[k], banner) && sigs[k].pattern@.len()
            == sigs[j].pattern@.len() ==> j <= k
}

/// Some signature matches the banner, when one was captured at all.
pub open spec fn has_signature_match(sigs: Seq<ServiceSignature>, banner: Option<Vec<u8>>) -> bool {
    match banner {
        Some(b) => exists|k: int| 0 <= k < sigs.len() && sig_matches(#[trigger] sigs[k], b@),
        None => false,
    }
}

/// The table names `port`.
pub open spec fn contains_port(table: Seq<WellKnownService>, port: u16) -> bool {
    exists|k: int| 0 <= k < table.len() && table[k].port == port
}

/// `j` is the fallback entry for `port`: the first with that port number.
pub open spec fn is_first_well_known(table: Seq<WellKnownService>, port: u16, j: int) -> bool {
    &&& 0 <= j < table.len()
    &&& table[j].port == port
    &&& forall|k: int| 0 <= k < j ==> (#[trigger] table[k]).port != port
}

/// Byte-wise substring search.
pub fn contains_bytes(hay: &Vec<u8>, needle: &Vec<u8>) -> (b: bool)
    ensures
        b == is_substring_of(needle@, hay@),
{
    if needle.len() > hay.len() {
        proof {
            assert(forall|k: int| !match_at(needle@, hay@, k));
        }
        return false;
    }
    if needle.len() == 0 {
        proof {
            assert(match_at(needle@, hay@, 0));
        }
        return true;
    }
    let bound = hay.len() - needle.len();
    let mut k: usize = 0;
    while k <= bound
        invariant
            1 <= needle@.len() <= hay@.len(),
            hay@.len() <= usize::MAX,
            bound == hay@.len() - needle@.len(),
            bound < usize::MAX,
            k <= bound + 1,
            forall|k2: int| 0 <= k2 < k ==> !match_at(needle@, hay@, k2),
        decreases bound + 1 - k,
    {
        let mut i: usize = 0;
        let mut mismatch = false;
        while !mismatch && i < needle.len()
            invariant
                needle@.len() <= hay@.len(),
                hay@.len() <= usize::MAX,
                k + needle@.len() <= hay@.len(),
                i <= needle@.len(),
                forall|i2: int| 0 <= i2 < i ==> hay@[k + i2] == needle@[i2],
                mismatch ==> i < needle@.len() && hay@[k + i] != needle@[i as int],
            decreases needle@.len() - i + (if mismatch { 0int } else { 1int }),
        {
            if hay[k + i] != needle[i] {
                mismatch = true;
            } else {
                i = i + 1;
            }
        }
        if !mismatch {
            proof {
                assert(match_at(needle@, hay@, k as int));
            }
            return true;
        }
        proof {
            assert(!match_at(needle@, hay@, k as int));
        }
        k = k + 1;
    }
    proof {
        assert(forall|k2: int| !match_at(needle@, hay@, k2));
    }
    false
}

/// Identifies the service behind an open port. A captured banner is
/// matched against the signatures by longest specific pattern (the
/// earliest on equal length); with no banner match the port number falls
/// back to its conventional name; otherwise no name is detected.
pub fn detect_service(
    port: u16,
    banner: &Option<Vec<u8>>,
    sigs: &Vec<ServiceSignature>,
    well_known: &Vec<WellKnownService>,
) -> (r: Option<String>)
    ensures
        has_signature_match(sigs@, *banner) ==> exists|j: int|
            #[trigger] is_best_signature(sigs@, banner->0@, j) && r == Some(sigs@[j].service),
        !has_signature_match(sigs@, *banner) && contains_port(well_known@, port) ==> exists|j: int|
            #[trigger] is_first_well_known(well_known@, port, j) && r == Some(
                well_known@[j].service,
            ),
        !has_signature_match(sigs@, *banner) && !contains_port(well_known@, port) ==> r is None,
{
    match banner {
        Some(b) => {
            let mut best: usize = 0;
            let mut found = false;
            let mut i: usize = 0;
            while i < sigs.len()
                invariant
                    i <= sigs@.len(),
                    found ==> best < i,
                    found ==> sig_matches(sigs@[best as int], b@),
                    found ==> forall|k: int|
                        0 <= k < i && sig_matches(#[trigger] sigs@[k], b@) ==> sigs@[
                            k
                        ].pattern@.len() <= sigs@[best as int].pattern@.len(),
                    found ==> forall|k: int|
                        0 <= k < i && sig_matches(#[trigger] sigs@[k], b@) && sigs@[
                            k
                        ].pattern@.len() == sigs@[best as int].pattern@.len() ==> best <= k,
                    !found ==> forall|k: int|
                        0 <= k < i ==> !sig_matches(#[trigger] sigs@[k], b@),
                decreases sigs@.len() - i,
            {
                if contains_bytes(b, &sigs[i].pattern) {
                    if !found || sigs[i].pattern.len() > sigs[best].pattern.len() {
                        best = i;
                        found = true;
                    }
                }
                i = i + 1;
            }
            if found {
                proof {
                    assert(is_best_signature(sigs@, b@, best as int));
                }
                return Some(sigs[best].service.clone());
            }
            proof {
                assert(!has_signature_match(sigs@, *banner));
            }
        },
        None => {
            proof {
                assert(!has_signature_match(sigs@, *banner));
            }
        },
    }
    let mut i: usize = 0;
    while i < well_known.len()
        invariant
            i <= well_known@.len(),
            !has_signature_match(sigs@, *banner),
            forall|k: int| 0 <= k < i ==> (#[trigger] well_known@[k]).port != port,
        decreases well_known@.len() - i,
    {
        if well_known[i].port == port {
            proof {
                assert(is_first_well_known(well_known@, port, i as int));
            }
            return Some(well_known[i].service.clone());
        }
        i = i + 1;
    }
    None
}

} // verus!
