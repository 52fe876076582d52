//! What holds of deduplication.
use vstd::prelude::*;

use crate::finding::VulnerabilityFinding;
use crate::pipeline::dedup::best_below;
use crate::pipeline::dedup::deduped;
use crate::pipeline::dedup::is_best;
use crate::pipeline::dedup::kept;
use crate::pipeline::key::same_spot;

verus! {

/// The kept positions are those of the best findings, each once, in ascending order.
pub proof fn kept_positions(findings: Seq<VulnerabilityFinding>)
    ensures
        forall|m: int|
            0 <= m < kept(findings).len() ==> 0 <= #[trigger] kept(findings)[m] < findings.len()
                && is_best(findings, kept(findings)[m]),
        forall|m: int, n: int|
            0 <= m < n < kept(findings).len() ==> kept(findings)[m] < kept(findings)[n],
        forall|i: int|
            0 <= i < findings.len() && is_best(findings, i) ==> kept(findings).contains(i),
{
    best_below_positions(findings, findings.len());
}

proof fn best_below_positions(findings: Seq<VulnerabilityFinding>, n: nat)
    requires
        n <= findings.len(),
    ensures
        forall|m: int|
            0 <= m < best_below(findings, n).len() ==> 0 <= #[trigger] best_below(findings, n)[m] < n
                && is_best(findings, best_below(findings, n)[m]),
        forall|l: int, m: int|
            0 <= l < m < best_below(findings, n).len() ==> best_below(findings, n)[l]
                < best_below(findings, n)[m],
        forall|i: int|
            0 <= i < n && is_best(findings, i) ==> best_below(findings, n).contains(i),
    decreases n,
{
    if n > 0 {
        let shorter = best_below(findings, (n - 1) as nat);
        best_below_positions(findings, (n - 1) as nat);
        assert forall|i: int| 0 <= i < n && is_best(findings, i) implies best_below(
            findings,
            n,
        ).contains(i) by {
            if i == n - 1 {
                assert(best_below(findings, n).last() == i);
            } else {
                let m = choose|m: int| 0 <= m < shorter.len() && shorter[m] == i;
                assert(best_below(findings, n)[m] == i);
            }
        }
    }
}

/// The position of the best finding at the spot of `i` among the first `n`.
proof fn leader(findings: Seq<VulnerabilityFinding>, n: int, i: int) -> (best: int)
    requires
        0 <= n <= findings.len(),
        exists|j: int| 0 <= j < n && #[trigger] same_spot(findings[j], findings[i]),
    ensures
        0 <= best < n,
        same_spot(findings[best], findings[i]),
        forall|j: int|
            0 <= j < n && #[trigger] same_spot(findings[j], findings[i]) ==> {
                ||| findings[j].confidence < findings[best].confidence
                ||| findings[j].confidence == findings[best].confidence && best <= j
            },
    decreases n,
{
    let last = n - 1;
    if exists|j: int| 0 <= j < last && #[trigger] same_spot(findings[j], findings[i]) {
        let earlier = leader(findings, last, i);
        if same_spot(findings[last], findings[i]) && findings[last].confidence
            > findings[earlier].confidence {
            last
        } else {
            earlier
        }
    } else {
        last
    }
}

/// Of every type at every spot in the list one finding survives, and none of that type at that
/// spot has a higher confidence.
pub proof fn best_of_each_spot_survives(findings: Seq<VulnerabilityFinding>, i: int)
    requires
        0 <= i < findings.len(),
    ensures
        exists|m: int|
            {
                &&& 0 <= m < deduped(findings).len()
                &&& same_spot(#[trigger] deduped(findings)[m], findings[i])
                &&& forall|j: int|
                    0 <= j < findings.len() && #[trigger] same_spot(findings[j], findings[i])
                        ==> findings[j].confidence <= deduped(findings)[m].confidence
            },
{
    assert(same_spot(findings[i], findings[i]));
    let best = leader(findings, findings.len() as int, i);
    assert(is_best(findings, best)) by {
        assert forall|j: int|
            0 <= j < findings.len() && #[trigger] same_spot(findings[j], findings[best]) implies {
            ||| findings[j].confidence < findings[best].confidence
            ||| findings[j].confidence == findings[best].confidence && best <= j
        } by {
            assert(same_spot(findings[j], findings[i]));
        }
    }
    kept_positions(findings);
    let m = choose|m: int| 0 <= m < kept(findings).len() && kept(findings)[m] == best;
    assert(deduped(findings)[m] == findings[best]);
}

/// No two findings that survive are of one type at one spot.
pub proof fn one_finding_survives_per_spot(findings: Seq<VulnerabilityFinding>)
    ensures
        forall|m: int, n: int|
            0 <= m < n < deduped(findings).len() ==> !same_spot(
                #[trigger] deduped(findings)[m],
                #[trigger] deduped(findings)[n],
            ),
{
    kept_positions(findings);
    assert forall|m: int, n: int| 0 <= m < n < deduped(findings).len() implies !same_spot(
        #[trigger] deduped(findings)[m],
        #[trigger] deduped(findings)[n],
    ) by {
        let i = kept(findings)[m];
        let j = kept(findings)[n];
        assert(i < j);
        assert(is_best(findings, i) && is_best(findings, j));
        if same_spot(findings[i], findings[j]) {
            assert(findings[i].confidence < findings[j].confidence);
            assert(same_spot(findings[j], findings[i]));
        }
    }
}

/// A list without duplicates is left as it is.
pub proof fn distinct_findings_all_survive(findings: Seq<VulnerabilityFinding>)
    requires
        forall|i: int, j: int|
            0 <= i < j < findings.len() ==> !same_spot(
                #[trigger] findings[i],
                #[trigger] findings[j],
            ),
    ensures
        deduped(findings) == findings,
{
    assert forall|i: int| 0 <= i < findings.len() implies is_best(findings, i) by {
        assert forall|j: int|
            0 <= j < findings.len() && #[trigger] same_spot(findings[j], findings[i]) implies i
            == j by {
            if i < j {
                assert(!same_spot(findings[i], findings[j]));
            } else if j < i {
                assert(!same_spot(findings[j], findings[i]));
            }
        }
    }
    all_best(findings, findings.len());
    assert(deduped(findings) =~= findings);
}

proof fn all_best(findings: Seq<VulnerabilityFinding>, n: nat)
    requires
        n <= findings.len(),
        forall|i: int| 0 <= i < findings.len() ==> is_best(findings, i),
    ensures
        best_below(findings, n) == Seq::new(n, |i: int| i),
    decreases n,
{
    if n > 0 {
        all_best(findings, (n - 1) as nat);
        assert(is_best(findings, n - 1));
    }
    assert(best_below(findings, n) =~= Seq::new(n, |i: int| i));
}

/// Deduplicating a second time changes nothing.
pub proof fn dedup_is_idempotent(findings: Seq<VulnerabilityFinding>)
    ensures
        deduped(deduped(findings)) == deduped(findings),
{
    one_finding_survives_per_spot(findings);
    distinct_findings_all_survive(deduped(findings));
}

/// What survives are findings of the list themselves, equal in every field, in the order of the
/// list. They are those, and only those, that no finding of the same type at the same spot
/// exceeds in confidence, and that none before them equals.
pub proof fn survivors_are_the_best_findings_unchanged(findings: Seq<VulnerabilityFinding>)
    ensures
        exists|positions: Seq<int>|
            {
                &&& #[trigger] positions.len() == deduped(findings).len()
                &&& forall|m: int|
                    0 <= m < positions.len() ==> 0 <= #[trigger] positions[m] < findings.len()
                &&& forall|m: int, n: int|
                    0 <= m < n < positions.len() ==> positions[m] < positions[n]
                &&& forall|m: int|
                    0 <= m < positions.len() ==> #[trigger] deduped(findings)[m]
                        == findings[positions[m]]
                &&& forall|m: int, j: int|
                    0 <= m < positions.len() && 0 <= j < findings.len() && #[trigger] same_spot(
                        findings[j],
                        findings[positions[m]],
                    ) ==> findings[j].confidence <= findings[positions[m]].confidence
                &&& forall|m: int, j: int|
                    0 <= m < positions.len() && 0 <= j < positions[m] && #[trigger] same_spot(
                        findings[j],
                        findings[positions[m]],
                    ) ==> findings[j].confidence < findings[positions[m]].confidence
                &&& forall|i: int|
                    {
                        &&& 0 <= i < findings.len()
                        &&& forall|j: int|
                            0 <= j < findings.len() && #[trigger] same_spot(
                                findings[j],
                                findings[i],
                            ) ==> findings[j].confidence <= findings[i].confidence
                        &&& forall|j: int|
                            0 <= j < i && #[trigger] same_spot(findings[j], findings[i])
                                ==> findings[j].confidence < findings[i].confidence
                    } ==> #[trigger] positions.contains(i)
            },
{
    kept_positions(findings);
    let positions = kept(findings);
    assert(positions.len() == deduped(findings).len());
    assert forall|m: int, j: int|
        0 <= m < positions.len() && 0 <= j < findings.len() && #[trigger] same_spot(
            findings[j],
            findings[positions[m]],
        ) implies findings[j].confidence <= findings[positions[m]].confidence && (j < positions[m]
        ==> findings[j].confidence < findings[positions[m]].confidence) by {
        assert(is_best(findings, positions[m]));
    }
    assert forall|i: int|
        {
            &&& 0 <= i < findings.len()
            &&& forall|j: int|
                0 <= j < findings.len() && #[trigger] same_spot(findings[j], findings[i])
                    ==> findings[j].confidence <= findings[i].confidence
            &&& forall|j: int|
                0 <= j < i && #[trigger] same_spot(findings[j], findings[i])
                    ==> findings[j].confidence < findings[i].confidence
        } implies #[trigger] positions.contains(i) by {
        assert(is_best(findings, i));
    }
}

/// Every finding that survives was in the list: it is equal in every field to one of the
/// findings that went in.
pub proof fn every_survivor_was_in_the_list(findings: Seq<VulnerabilityFinding>, m: int)
    requires
        0 <= m < deduped(findings).len(),
    ensures
        findings.contains(deduped(findings)[m]),
{
    kept_positions(findings);
    assert(deduped(findings)[m] == findings[kept(findings)[m]]);
}

} // verus!
