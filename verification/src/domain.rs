//! Domain enumeration: every candidate name is resolved; a name that does
//! not resolve is recorded with no records, never omitted.

use vstd::prelude::*;

verus! {

/// One queried name with the addresses it resolved to (empty when it did
/// not resolve).
#[derive(Clone, Debug)]
pub struct DomainEntry {
    pub name: String,
    /// Resolved addresses (IPv4 as `u32`); empty for an unresolved name.
    pub records: Vec<u32>,
}

/// Result of a domain scan: one entry per queried name, in query order.
#[derive(Clone, Debug)]
pub struct DomainScanResult {
    pub domains: Vec<DomainEntry>,
}

impl DomainScanResult {
    /// Builds the result from the candidate names and their resolver
    /// answers, aligned by index: exactly one entry per queried name, each
    /// carrying exactly its answer.
    pub fn from_answers(names: &Vec<String>, answers: &Vec<Vec<u32>>) -> (r: DomainScanResult)
        requires
            names@.len() == answers@.len(),
        ensures
            r.domains@.len() == names@.len(),
            forall|i: int|
                0 <= i < names@.len() ==> (#[trigger] r.domains@[i]).name@ == names@[i]@
                    && r.domains@[i].records@ == answers@[i]@,
    {
        let mut domains: Vec<DomainEntry> = Vec::new();
        let mut i: usize = 0;
        while i < names.len()
            invariant
                names@.len() == answers@.len(),
                i <= names@.len(),
                domains@.len() == i,
                forall|k: int|
                    0 <= k < i ==> (#[trigger] domains@[k]).name@ == names@[k]@ && domains@[
                        k
                    ].records@ == answers@[k]@,
            decreases names@.len() - i,
        {
            let mut records: Vec<u32> = Vec::new();
            let answer = &answers[i];
            let mut j: usize = 0;
            while j < answer.len()
                invariant
                    j <= answer@.len(),
                    records@ == answer@.subrange(0, j as int),
                decreases answer@.len() - j,
            {
                records.push(answer[j]);
                proof {
                    assert(records@ =~= answer@.subrange(0, j + 1));
                }
                j = j + 1;
            }
            proof {
                assert(records@ =~= answer@);
            }
            domains.push(DomainEntry { name: names[i].clone(), records });
            i = i + 1;
        }
        DomainScanResult { domains }
    }
}

} // verus!
