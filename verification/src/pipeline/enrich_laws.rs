//! What holds of enrichment, and of enrichment together with deduplication.
use vstd::prelude::*;

use crate::finding::AccountInsight;
use crate::finding::DefenseInsight;
use crate::finding::KnowledgeEntry;
use crate::finding::VulnerabilityFinding;
use crate::pipeline::dedup::best_below;
use crate::pipeline::dedup::deduped;
use crate::pipeline::dedup::is_best;
use crate::pipeline::dedup::kept;
use crate::pipeline::dedup_laws::distinct_findings_all_survive;
use crate::pipeline::dedup_laws::kept_positions;
use crate::pipeline::dedup_laws::one_finding_survives_per_spot;
use crate::pipeline::enrich::all_enriched_by;
use crate::pipeline::enrich::askable;
use crate::pipeline::enrich::covers;
use crate::pipeline::enrich::enriched;
use crate::pipeline::enrich::enriched_by;
use crate::pipeline::enrich::entry_for;
use crate::pipeline::key::same_spot;

verus! {

/// The entry that enrichment uses is in the knowledge base, speaks of the id, and no entry
/// before it does; where there is none, no entry speaks of the id.
pub proof fn entry_is_the_first(kb: Seq<KnowledgeEntry>, id: Seq<char>)
    ensures
        match entry_for(kb, id) {
            Some(entry) => exists|i: int|
                {
                    &&& 0 <= i < kb.len()
                    &&& #[trigger] kb[i] == entry
                    &&& covers(entry, id)
                    &&& forall|j: int| 0 <= j < i ==> !covers(#[trigger] kb[j], id)
                },
            None => forall|j: int| 0 <= j < kb.len() ==> !covers(#[trigger] kb[j], id),
        },
    decreases kb.len(),
{
    if kb.len() > 0 && !covers(kb[0], id) {
        let rest = kb.drop_first();
        entry_is_the_first(rest, id);
        assert forall|j: int| 1 <= j < kb.len() implies kb[j] == rest[j - 1] by {}
        match entry_for(rest, id) {
            Some(entry) => {
                let i = choose|i: int|
                    {
                        &&& 0 <= i < rest.len()
                        &&& #[trigger] rest[i] == entry
                        &&& covers(entry, id)
                        &&& forall|j: int| 0 <= j < i ==> !covers(#[trigger] rest[j], id)
                    };
                assert(kb[i + 1] == entry);
                assert forall|j: int| 0 <= j < i + 1 implies !covers(#[trigger] kb[j], id) by {
                    if j > 0 {
                        assert(kb[j] == rest[j - 1]);
                    }
                }
            },
            None => {
                assert forall|j: int| 0 <= j < kb.len() implies !covers(#[trigger] kb[j], id) by {
                    if j > 0 {
                        assert(kb[j] == rest[j - 1]);
                    }
                }
            },
        }
    }
}

/// Enrichment overwrites nothing: a field that is set keeps its value.
pub proof fn enrichment_keeps_what_is_set(
    finding: VulnerabilityFinding,
    account: Option<AccountInsight>,
    defense: Option<DefenseInsight>,
    kb: Seq<KnowledgeEntry>,
)
    ensures
        ({
            let after = enriched(finding, account, defense, kb);
            &&& finding.prevention@.len() > 0 ==> after.prevention == finding.prevention
            &&& finding.attack_scenario@.len() > 0 ==> after.attack_scenario
                == finding.attack_scenario
            &&& finding.real_world_incident is Some ==> after.real_world_incident
                == finding.real_world_incident
        }),
{
}

/// Enrichment touches the prevention, the attack scenario and the incident of a finding and
/// nothing else. In particular its type, its spot and its confidence stay.
pub proof fn enrichment_touches_three_fields(
    finding: VulnerabilityFinding,
    account: Option<AccountInsight>,
    defense: Option<DefenseInsight>,
    kb: Seq<KnowledgeEntry>,
)
    ensures
        ({
            let after = enriched(finding, account, defense, kb);
            &&& finding == (VulnerabilityFinding {
                prevention: finding.prevention,
                attack_scenario: finding.attack_scenario,
                real_world_incident: finding.real_world_incident,
                ..after
            })
            &&& same_spot(after, finding)
            &&& after.confidence == finding.confidence
        }),
{
}

/// What the account expert says takes precedence: where it has a text for an empty field, no
/// other source is used for that field.
pub proof fn account_expert_comes_first(
    finding: VulnerabilityFinding,
    insight: AccountInsight,
    defense: Option<DefenseInsight>,
    kb: Seq<KnowledgeEntry>,
)
    ensures
        ({
            let after = enriched(finding, Some(insight), defense, kb);
            &&& finding.prevention@.len() == 0 && insight.secure_pattern@.len() > 0
                ==> after.prevention == insight.secure_pattern
            &&& finding.attack_scenario@.len() == 0 && insight.attack_vector@.len() > 0
                ==> after.attack_scenario == insight.attack_vector
        }),
{
}

/// A field that some source has a text for does not stay empty.
pub proof fn enrichment_populates_empty_fields(
    finding: VulnerabilityFinding,
    account: Option<AccountInsight>,
    defense: Option<DefenseInsight>,
    kb: Seq<KnowledgeEntry>,
)
    ensures
        ({
            let after = enriched(finding, account, defense, kb);
            let entry = entry_for(kb, finding.id@);
            &&& account is Some && account->0.secure_pattern@.len() > 0
                ==> after.prevention@.len() > 0
            &&& defense is Some && defense->0.defense_strategy@.len() > 0
                ==> after.prevention@.len() > 0
            &&& account is Some && account->0.attack_vector@.len() > 0
                ==> after.attack_scenario@.len() > 0
            &&& entry is Some && entry->0.description@.len() > 0
                ==> after.attack_scenario@.len() > 0
            &&& entry is Some && entry->0.real_incident is Some
                ==> after.real_world_incident is Some
        }),
{
}

/// Enriching a finding a second time from the same sources changes nothing.
pub proof fn enrichment_is_idempotent(
    finding: VulnerabilityFinding,
    account: Option<AccountInsight>,
    defense: Option<DefenseInsight>,
    kb: Seq<KnowledgeEntry>,
)
    ensures
        enriched(enriched(finding, account, defense, kb), account, defense, kb) == enriched(
            finding,
            account,
            defense,
            kb,
        ),
{
}

proof fn same_spots_same_best(
    before: Seq<VulnerabilityFinding>,
    after: Seq<VulnerabilityFinding>,
    n: nat,
)
    requires
        n <= before.len(),
        before.len() == after.len(),
        forall|i: int| 0 <= i < before.len() ==> same_spot(#[trigger] after[i], before[i]),
        forall|i: int|
            0 <= i < before.len() ==> (#[trigger] after[i]).confidence == before[i].confidence,
    ensures
        best_below(after, n) == best_below(before, n),
    decreases n,
{
    if n > 0 {
        same_spots_same_best(before, after, (n - 1) as nat);
        let i = n - 1;
        if is_best(before, i) {
            assert forall|j: int|
                0 <= j < after.len() && #[trigger] same_spot(after[j], after[i]) implies {
                ||| after[j].confidence < after[i].confidence
                ||| after[j].confidence == after[i].confidence && i <= j
            } by {
                assert(same_spot(after[j], before[j]) && same_spot(after[i], before[i]));
                assert(same_spot(before[j], before[i]));
            }
        }
        if is_best(after, i) {
            assert forall|j: int|
                0 <= j < before.len() && #[trigger] same_spot(before[j], before[i]) implies {
                ||| before[j].confidence < before[i].confidence
                ||| before[j].confidence == before[i].confidence && i <= j
            } by {
                assert(same_spot(after[j], before[j]) && same_spot(after[i], before[i]));
                assert(same_spot(after[j], after[i]));
            }
        }
    }
}

/// Enrichment does not change which findings survive: post-processing keeps the positions that
/// deduplication alone would keep, and each survivor is the enrichment of the finding that was
/// there.
pub proof fn enrichment_and_dedup_commute<A, D>(
    before: Seq<VulnerabilityFinding>,
    complete: Seq<VulnerabilityFinding>,
    account: A,
    defense: D,
    kb: Seq<KnowledgeEntry>,
) where A: Fn(&String) -> Option<AccountInsight>, D: Fn(&String) -> Option<DefenseInsight>
    requires
        all_enriched_by(before, complete, account, defense, kb),
    ensures
        kept(complete) == kept(before),
        all_enriched_by(deduped(before), deduped(complete), account, defense, kb),
{
    assert forall|i: int| 0 <= i < before.len() implies same_spot(
        #[trigger] complete[i],
        before[i],
    ) && complete[i].confidence == before[i].confidence by {
        assert(enriched_by(before[i], complete[i], account, defense, kb));
    }
    same_spots_same_best(before, complete, before.len());
    kept_positions(before);
    assert forall|m: int| 0 <= m < deduped(before).len() implies enriched_by(
        #[trigger] deduped(before)[m],
        deduped(complete)[m],
        account,
        defense,
        kb,
    ) by {
        let i = kept(before)[m];
        assert(enriched_by(before[i], complete[i], account, defense, kb));
    }
}

/// Whether a lookup always says the same of one id.
pub open spec fn is_consistent<L, I>(lookup: L) -> bool where L: Fn(&String) -> Option<I> {
    forall|id: &String, a: Option<I>, b: Option<I>|
        #[trigger] call_ensures(lookup, (id,), a) && #[trigger] call_ensures(lookup, (id,), b)
            ==> a == b
}

/// Post-processing a second time, with lookups that always say the same of one id, changes
/// nothing.
pub proof fn post_process_is_idempotent<A, D>(
    findings: Seq<VulnerabilityFinding>,
    complete: Seq<VulnerabilityFinding>,
    again: Seq<VulnerabilityFinding>,
    account: A,
    defense: D,
    kb: Seq<KnowledgeEntry>,
) where A: Fn(&String) -> Option<AccountInsight>, D: Fn(&String) -> Option<DefenseInsight>
    requires
        is_consistent(account),
        is_consistent(defense),
        all_enriched_by(findings, complete, account, defense, kb),
        all_enriched_by(deduped(complete), again, account, defense, kb),
    ensures
        deduped(again) == deduped(complete),
{
    let once = deduped(complete);
    kept_positions(complete);
    assert forall|m: int| 0 <= m < once.len() implies again[m] == #[trigger] once[m] by {
        let i = kept(complete)[m];
        assert(once[m] == complete[i]);
        assert(enriched_by(findings[i], complete[i], account, defense, kb));
        assert(enriched_by(once[m], again[m], account, defense, kb));
        let (a, d) = choose|a: Option<AccountInsight>, d: Option<DefenseInsight>|
            {
                &&& #[trigger] call_ensures(account, (&findings[i].id,), a)
                &&& #[trigger] call_ensures(defense, (&findings[i].id,), d)
                &&& complete[i] == enriched(findings[i], a, d, kb)
            };
        let (b, e) = choose|b: Option<AccountInsight>, e: Option<DefenseInsight>|
            {
                &&& #[trigger] call_ensures(account, (&once[m].id,), b)
                &&& #[trigger] call_ensures(defense, (&once[m].id,), e)
                &&& again[m] == enriched(once[m], b, e, kb)
            };
        assert(once[m].id == findings[i].id);
        assert(a == b && d == e);
        enrichment_is_idempotent(findings[i], a, d, kb);
    }
    assert(again =~= once);
    one_finding_survives_per_spot(complete);
    distinct_findings_all_survive(once);
}

/// Whether the entry at `i` is the first of the knowledge base whose detector ids hold `id`.
pub open spec fn first_with_id(kb: Seq<KnowledgeEntry>, id: Seq<char>, i: int) -> bool {
    &&& 0 <= i < kb.len()
    &&& exists|d: int|
        0 <= d < kb[i].detector_ids@.len() && (#[trigger] kb[i].detector_ids@[d])@ == id
    &&& forall|j: int, d: int|
        0 <= j < i && 0 <= d < kb[j].detector_ids@.len() ==> (
        #[trigger] kb[j].detector_ids@[d])@ != id
}

/// Whether no entry of the knowledge base has `id` among its detector ids.
pub open spec fn none_with_id(kb: Seq<KnowledgeEntry>, id: Seq<char>) -> bool {
    forall|j: int, d: int|
        0 <= j < kb.len() && 0 <= d < kb[j].detector_ids@.len() ==> (
        #[trigger] kb[j].detector_ids@[d])@ != id
}

/// The entry for an id is the first whose detector ids hold the very id, and there is none where
/// no detector ids do.
pub proof fn entry_has_the_id_itself(kb: Seq<KnowledgeEntry>, id: Seq<char>, i: int)
    ensures
        first_with_id(kb, id, i) ==> entry_for(kb, id) == Some(kb[i]),
        none_with_id(kb, id) ==> entry_for(kb, id) is None,
{
    entry_is_the_first(kb, id);
    if first_with_id(kb, id, i) {
        assert(covers(kb[i], id));
        assert forall|j: int| 0 <= j < i implies !covers(#[trigger] kb[j], id) by {
            if covers(kb[j], id) {
                let d = choose|d: int|
                    0 <= d < kb[j].detector_ids@.len() && (#[trigger] kb[j].detector_ids@[d])@ == id;
                assert(kb[j].detector_ids@[d]@ != id);
            }
        }
        let entry = entry_for(kb, id)->0;
        let k = choose|k: int|
            {
                &&& 0 <= k < kb.len()
                &&& #[trigger] kb[k] == entry
                &&& covers(entry, id)
                &&& forall|j: int| 0 <= j < k ==> !covers(#[trigger] kb[j], id)
            };
        assert(k == i);
    }
    if none_with_id(kb, id) && entry_for(kb, id) is Some {
        let entry = entry_for(kb, id)->0;
        let k = choose|k: int|
            {
                &&& 0 <= k < kb.len()
                &&& #[trigger] kb[k] == entry
                &&& covers(entry, id)
                &&& forall|j: int| 0 <= j < k ==> !covers(#[trigger] kb[j], id)
            };
        let d = choose|d: int|
            0 <= d < kb[k].detector_ids@.len() && (#[trigger] kb[k].detector_ids@[d])@ == id;
        assert(kb[k].detector_ids@[d]@ != id);
    }
}

/// Where a finding has no incident, it gets that of the first entry whose detector ids hold the
/// finding's own id, and of no other entry. It stays without one where that entry has none, or
/// where there is no such entry. An incident that is set stays.
pub proof fn the_incident_is_that_of_the_own_id(
    finding: VulnerabilityFinding,
    account: Option<AccountInsight>,
    defense: Option<DefenseInsight>,
    kb: Seq<KnowledgeEntry>,
    i: int,
)
    ensures
        ({
            let after = enriched(finding, account, defense, kb);
            &&& finding.real_world_incident is None && first_with_id(kb, finding.id@, i)
                ==> after.real_world_incident == kb[i].real_incident
            &&& finding.real_world_incident is None && none_with_id(kb, finding.id@)
                ==> after.real_world_incident is None
            &&& finding.real_world_incident is Some ==> after.real_world_incident
                == finding.real_world_incident
        }),
{
    entry_has_the_id_itself(kb, finding.id@, i);
}

/// Where a finding has no attack scenario, it gets the attack vector of the account expert; where
/// that is missing or empty, the description of the first entry whose detector ids hold the
/// finding's own id; and where there is no such entry, it stays empty. A scenario that is set
/// stays.
pub proof fn the_attack_scenario_is_that_of_the_own_id(
    finding: VulnerabilityFinding,
    account: Option<AccountInsight>,
    defense: Option<DefenseInsight>,
    kb: Seq<KnowledgeEntry>,
    i: int,
)
    ensures
        ({
            let after = enriched(finding, account, defense, kb);
            let silent = account is None || account->0.attack_vector@.len() == 0;
            &&& finding.attack_scenario@.len() > 0 ==> after.attack_scenario
                == finding.attack_scenario
            &&& finding.attack_scenario@.len() == 0 && !silent ==> after.attack_scenario
                == account->0.attack_vector
            &&& finding.attack_scenario@.len() == 0 && silent && first_with_id(kb, finding.id@, i)
                ==> after.attack_scenario == kb[i].description
            &&& finding.attack_scenario@.len() == 0 && silent && none_with_id(kb, finding.id@)
                ==> after.attack_scenario@.len() == 0
        }),
{
    entry_has_the_id_itself(kb, finding.id@, i);
}

/// Where a finding has no prevention, it gets the secure pattern of the account expert; where
/// that is missing or empty, the strategy of the DeFi expert; and where that is missing too, it
/// stays empty. A prevention that is set stays. The knowledge base plays no part.
pub proof fn the_prevention_is_that_of_an_expert(
    finding: VulnerabilityFinding,
    account: Option<AccountInsight>,
    defense: Option<DefenseInsight>,
    kb: Seq<KnowledgeEntry>,
)
    ensures
        ({
            let after = enriched(finding, account, defense, kb);
            let silent = account is None || account->0.secure_pattern@.len() == 0;
            &&& finding.prevention@.len() > 0 ==> after.prevention == finding.prevention
            &&& finding.prevention@.len() == 0 && !silent ==> after.prevention
                == account->0.secure_pattern
            &&& finding.prevention@.len() == 0 && silent && defense is Some ==> after.prevention
                == defense->0.defense_strategy
            &&& finding.prevention@.len() == 0 && silent && defense is None
                ==> after.prevention@.len() == 0
        }),
{
}

/// Lookups that take every id can be asked about any list of findings.
pub proof fn total_lookups_can_be_asked<A, D>(
    findings: Seq<VulnerabilityFinding>,
    account: A,
    defense: D,
) where A: Fn(&String) -> Option<AccountInsight>, D: Fn(&String) -> Option<DefenseInsight>
    requires
        forall|id: &String| #[trigger] call_requires(account, (id,)),
        forall|id: &String| #[trigger] call_requires(defense, (id,)),
    ensures
        askable(findings, account, defense),
{
}

/// Both experts are asked about the finding's own id, and the finding is enriched with what they
/// answer.
pub proof fn experts_are_asked_about_the_own_id<A, D>(
    before: VulnerabilityFinding,
    after: VulnerabilityFinding,
    account: A,
    defense: D,
    kb: Seq<KnowledgeEntry>,
) where A: Fn(&String) -> Option<AccountInsight>, D: Fn(&String) -> Option<DefenseInsight>
    requires
        enriched_by(before, after, account, defense, kb),
    ensures
        exists|insight: Option<AccountInsight>, advice: Option<DefenseInsight>|
            {
                &&& #[trigger] call_ensures(account, (&before.id,), insight)
                &&& #[trigger] call_ensures(defense, (&before.id,), advice)
                &&& after == enriched(before, insight, advice, kb)
            },
        after == (VulnerabilityFinding {
            prevention: after.prevention,
            attack_scenario: after.attack_scenario,
            real_world_incident: after.real_world_incident,
            ..before
        }),
{
}

/// Every finding of a list is enriched for itself, and none is added, dropped or moved.
pub proof fn every_finding_is_enriched_in_its_place<A, D>(
    before: Seq<VulnerabilityFinding>,
    after: Seq<VulnerabilityFinding>,
    account: A,
    defense: D,
    kb: Seq<KnowledgeEntry>,
    i: int,
) where A: Fn(&String) -> Option<AccountInsight>, D: Fn(&String) -> Option<DefenseInsight>
    requires
        all_enriched_by(before, after, account, defense, kb),
    ensures
        after.len() == before.len(),
        0 <= i < before.len() ==> exists|
            insight: Option<AccountInsight>,
            advice: Option<DefenseInsight>,
        |
            {
                &&& #[trigger] call_ensures(account, (&before[i].id,), insight)
                &&& #[trigger] call_ensures(defense, (&before[i].id,), advice)
                &&& after[i] == enriched(before[i], insight, advice, kb)
            },
{
    if 0 <= i < before.len() {
        assert(enriched_by(before[i], after[i], account, defense, kb));
    }
}

/// What post-processing leaves are findings that went in, each enriched for itself, in the order
/// of the list: those, and only those, that no finding of the same type at the same spot exceeds
/// in confidence, and that none before them equals.
pub proof fn post_process_leaves_the_best_findings<A, D>(
    before: Seq<VulnerabilityFinding>,
    complete: Seq<VulnerabilityFinding>,
    account: A,
    defense: D,
    kb: Seq<KnowledgeEntry>,
) where A: Fn(&String) -> Option<AccountInsight>, D: Fn(&String) -> Option<DefenseInsight>
    requires
        all_enriched_by(before, complete, account, defense, kb),
    ensures
        exists|positions: Seq<int>|
            {
                &&& #[trigger] positions.len() == deduped(complete).len()
                &&& forall|m: int|
                    0 <= m < positions.len() ==> 0 <= #[trigger] positions[m] < before.len()
                &&& forall|m: int, n: int|
                    0 <= m < n < positions.len() ==> positions[m] < positions[n]
                &&& forall|m: int|
                    0 <= m < positions.len() ==> enriched_by(
                        before[positions[m]],
                        #[trigger] deduped(complete)[m],
                        account,
                        defense,
                        kb,
                    )
                &&& forall|m: int, j: int|
                    0 <= m < positions.len() && 0 <= j < before.len() && #[trigger] same_spot(
                        before[j],
                        before[positions[m]],
                    ) ==> {
                        ||| before[j].confidence < before[positions[m]].confidence
                        ||| before[j].confidence == before[positions[m]].confidence
                            && positions[m] <= j
                    }
                &&& forall|i: int|
                    {
                        &&& 0 <= i < before.len()
                        &&& forall|j: int|
                            0 <= j < before.len() && #[trigger] same_spot(before[j], before[i])
                                ==> {
                                ||| before[j].confidence < before[i].confidence
                                ||| before[j].confidence == before[i].confidence && i <= j
                            }
                    } ==> #[trigger] positions.contains(i)
            },
{
    enrichment_and_dedup_commute(before, complete, account, defense, kb);
    kept_positions(before);
    let positions = kept(before);
    assert(positions.len() == deduped(complete).len());
    assert forall|m: int| 0 <= m < positions.len() implies enriched_by(
        before[positions[m]],
        #[trigger] deduped(complete)[m],
        account,
        defense,
        kb,
    ) by {
        assert(deduped(before)[m] == before[positions[m]]);
    }
    assert forall|m: int, j: int|
        0 <= m < positions.len() && 0 <= j < before.len() && #[trigger] same_spot(
            before[j],
            before[positions[m]],
        ) implies {
        ||| before[j].confidence < before[positions[m]].confidence
        ||| before[j].confidence == before[positions[m]].confidence && positions[m] <= j
    } by {
        assert(is_best(before, positions[m]));
    }
    assert forall|i: int|
        {
            &&& 0 <= i < before.len()
            &&& forall|j: int|
                0 <= j < before.len() && #[trigger] same_spot(before[j], before[i]) ==> {
                    ||| before[j].confidence < before[i].confidence
                    ||| before[j].confidence == before[i].confidence && i <= j
                }
        } implies #[trigger] positions.contains(i) by {
        assert(is_best(before, i));
    }
}

} // verus!
