//! Cross-phase deduplication.
use vstd::hash_map::StringHashMap;
use vstd::prelude::*;

use crate::finding::VulnerabilityFinding;
use crate::pipeline::key::dedup_key;
use crate::pipeline::key::key;
use crate::pipeline::key::keys_tell_spots_apart;
use crate::pipeline::key::same_spot;

verus! {

/// Whether the finding at `i` is the best of its type at its spot: no other has a higher
/// confidence, and none before it has the same.
pub open spec fn is_best(findings: Seq<VulnerabilityFinding>, i: int) -> bool {
    forall|j: int|
        0 <= j < findings.len() && #[trigger] same_spot(findings[j], findings[i]) ==> {
            ||| findings[j].confidence < findings[i].confidence
            ||| findings[j].confidence == findings[i].confidence && i <= j
        }
}

/// The positions below `n` of the best findings, in ascending order.
pub open spec fn best_below(findings: Seq<VulnerabilityFinding>, n: nat) -> Seq<int>
    decreases n,
{
    if n == 0 {
        Seq::empty()
    } else if is_best(findings, n - 1) {
        best_below(findings, (n - 1) as nat).push(n - 1)
    } else {
        best_below(findings, (n - 1) as nat)
    }
}

/// The positions of the findings that deduplication keeps.
pub open spec fn kept(findings: Seq<VulnerabilityFinding>) -> Seq<int> {
    best_below(findings, findings.len())
}

/// The findings at the given positions.
pub open spec fn at<T>(items: Seq<T>, positions: Seq<int>) -> Seq<T> {
    positions.map_values(|i: int| items[i])
}

/// The best finding of each type at each spot, in the order of the list.
pub open spec fn deduped(findings: Seq<VulnerabilityFinding>) -> Seq<VulnerabilityFinding> {
    at(findings, kept(findings))
}

/// Whether `best` is the position and the confidence of the best finding with the key `k`
/// among the first `n`.
pub open spec fn leads(
    findings: Seq<VulnerabilityFinding>,
    n: int,
    k: Seq<char>,
    best: (usize, u8),
) -> bool {
    &&& best.0 < n
    &&& key(findings[best.0 as int]) == k
    &&& findings[best.0 as int].confidence == best.1
    &&& forall|j: int|
        0 <= j < n && #[trigger] key(findings[j]) == k ==> {
            ||| findings[j].confidence < best.1
            ||| findings[j].confidence == best.1 && best.0 <= j
        }
}

/// Keeps only the finding with the highest confidence per type, location and line, the first of
/// them where several have it. Where the line is not known the function stands in for it. The
/// order of the findings stays as it was.
pub fn dedup_findings(findings: &mut Vec<VulnerabilityFinding>)
    ensures
        final(findings)@ == deduped(old(findings)@),
{
    let ghost all = findings@;
    let mut keys: Vec<String> = Vec::new();
    let mut best: StringHashMap<(usize, u8)> = StringHashMap::new();
    let count: usize = findings.len();
    let mut i: usize = 0;
    while i < count
        invariant
            count == all.len(),
            findings@ == all,
            i <= count,
            keys@.len() == i,
            forall|j: int| 0 <= j < i ==> (#[trigger] keys@[j])@ == key(all[j]),
            forall|j: int| 0 <= j < i ==> best@.contains_key(#[trigger] key(all[j])),
            forall|k: Seq<char>| #[trigger] best@.contains_key(k) ==> leads(all, i as int, k, best@[k]),
        decreases count - i,
    {
        let finding = &findings[i];
        let text = dedup_key(finding);
        let better: bool = match best.get(text.as_str()) {
            Some(entry) => finding.confidence > entry.1,
            None => true,
        };
        if better {
            best.insert(text.clone(), (i, finding.confidence));
        }
        keys.push(text);
        i += 1;
    }
    proof {
        assert forall|m: int, n: int|
            0 <= m < all.len() && 0 <= n < all.len() implies (#[trigger] same_spot(all[m], all[n])
            <==> key(all[m]) == key(all[n])) by {
            keys_tell_spots_apart(all[m], all[n]);
        }
        assert forall|m: int| 0 <= m < all.len() implies (#[trigger] is_best(all, m)
            <==> best@[key(all[m])].0 == m) by {
            let lead = best@[key(all[m])].0 as int;
            assert(leads(all, count as int, key(all[m]), best@[key(all[m])]));
            assert(same_spot(all[lead], all[m]));
        }
    }
    let mut rest: Vec<VulnerabilityFinding> = Vec::new();
    std::mem::swap(findings, &mut rest);
    let mut position: usize = 0;
    for finding in it: rest
        invariant
            it.seq() == all,
            position == it.index(),
            keys@.len() == all.len(),
            count == all.len(),
            forall|j: int| 0 <= j < count ==> (#[trigger] keys@[j])@ == key(all[j]),
            forall|j: int| 0 <= j < count ==> best@.contains_key(#[trigger] key(all[j])),
            forall|m: int|
                0 <= m < count ==> (#[trigger] is_best(all, m) <==> best@[key(all[m])].0 == m),
            findings@ == at(all, best_below(all, position as nat)),
    {
        let keep: bool = match best.get(keys[position].as_str()) {
            Some(entry) => entry.0 == position,
            None => false,
        };
        if keep {
            findings.push(finding);
        }
        position += 1;
    }
}

} // verus!
