//! Enrichment of findings with attack scenarios, defenses and incidents.
use vstd::prelude::*;

use crate::finding::AccountInsight;
use crate::finding::DefenseInsight;
use crate::finding::KnowledgeEntry;
use crate::finding::VulnerabilityFinding;

verus! {

/// Whether a knowledge base entry speaks of a finding id.
pub open spec fn covers(entry: KnowledgeEntry, id: Seq<char>) -> bool {
    exists|j: int| 0 <= j < entry.detector_ids@.len() && (#[trigger] entry.detector_ids@[j])@ == id
}

/// The first entry of the knowledge base that speaks of a finding id.
pub open spec fn entry_for(kb: Seq<KnowledgeEntry>, id: Seq<char>) -> Option<KnowledgeEntry>
    decreases kb.len(),
{
    if kb.len() == 0 {
        None
    } else if covers(kb[0], id) {
        Some(kb[0])
    } else {
        entry_for(kb.drop_first(), id)
    }
}

/// The text, or the first of two replacements for it where it is empty. An empty first
/// replacement gives way to the second.
pub open spec fn filled(text: String, first: Option<String>, second: Option<String>) -> String {
    let once = if text@.len() == 0 && first is Some {
        first->0
    } else {
        text
    };
    if once@.len() == 0 && second is Some {
        second->0
    } else {
        once
    }
}

/// A finding with its empty fields filled: the prevention from the account expert, else from
/// the DeFi expert; the attack scenario from the account expert, else from the knowledge base;
/// the incident from the knowledge base.
pub open spec fn enriched(
    finding: VulnerabilityFinding,
    account: Option<AccountInsight>,
    defense: Option<DefenseInsight>,
    kb: Seq<KnowledgeEntry>,
) -> VulnerabilityFinding {
    let entry = entry_for(kb, finding.id@);
    VulnerabilityFinding {
        prevention: filled(
            finding.prevention,
            match account {
                Some(insight) => Some(insight.secure_pattern),
                None => None,
            },
            match defense {
                Some(insight) => Some(insight.defense_strategy),
                None => None,
            },
        ),
        attack_scenario: filled(
            finding.attack_scenario,
            match account {
                Some(insight) => Some(insight.attack_vector),
                None => None,
            },
            match entry {
                Some(known) => Some(known.description),
                None => None,
            },
        ),
        real_world_incident: match (finding.real_world_incident, entry) {
            (None, Some(known)) => known.real_incident,
            (incident, _) => incident,
        },
        ..finding
    }
}

/// Finds the first entry of the knowledge base that speaks of a finding id.
pub fn find_entry<'a>(kb: &'a Vec<KnowledgeEntry>, id: &String) -> (found: Option<&'a KnowledgeEntry>)
    ensures
        match found {
            Some(entry) => entry_for(kb@, id@) == Some(*entry),
            None => entry_for(kb@, id@) is None,
        },
{
    let mut i: usize = 0;
    assert(kb@.skip(0) == kb@);
    while i < kb.len()
        invariant
            i <= kb.len(),
            entry_for(kb@, id@) == entry_for(kb@.skip(i as int), id@),
        decreases kb.len() - i,
    {
        let entry = &kb[i];
        assert(kb@.skip(i as int).drop_first() == kb@.skip(i + 1));
        let mut j: usize = 0;
        while j < entry.detector_ids.len()
            invariant
                i < kb.len(),
                *entry == kb@[i as int],
                entry_for(kb@, id@) == entry_for(kb@.skip(i as int), id@),
                forall|m: int| 0 <= m < j ==> (#[trigger] entry.detector_ids@[m])@ != id@,
            decreases entry.detector_ids.len() - j,
        {
            if entry.detector_ids[j] == *id {
                assert(covers(*entry, id@));
                return Some(entry);
            }
            j += 1;
        }
        i += 1;
    }
    None
}

/// Fills the empty fields of one finding from what is known of its id.
pub fn enrich_finding(
    finding: &mut VulnerabilityFinding,
    account: &Option<AccountInsight>,
    defense: &Option<DefenseInsight>,
    kb: &Vec<KnowledgeEntry>,
)
    ensures
        *final(finding) == enriched(*old(finding), *account, *defense, kb@),
{
    if let Some(insight) = account {
        if finding.prevention.as_str().is_empty() {
            finding.prevention = insight.secure_pattern.clone();
        }
        if finding.attack_scenario.as_str().is_empty() {
            finding.attack_scenario = insight.attack_vector.clone();
        }
    }
    if let Some(insight) = defense {
        if finding.prevention.as_str().is_empty() {
            finding.prevention = insight.defense_strategy.clone();
        }
    }
    if let Some(entry) = find_entry(kb, &finding.id) {
        if finding.attack_scenario.as_str().is_empty() {
            finding.attack_scenario = entry.description.clone();
        }
        if finding.real_world_incident.is_none() {
            if let Some(incident) = &entry.real_incident {
                finding.real_world_incident = Some(incident.clone());
            }
        }
    }
}

/// Whether `after` is `before`, enriched with what the lookups say of its id.
pub open spec fn enriched_by<A, D>(
    before: VulnerabilityFinding,
    after: VulnerabilityFinding,
    account: A,
    defense: D,
    kb: Seq<KnowledgeEntry>,
) -> bool where
    A: Fn(&String) -> Option<AccountInsight>,
    D: Fn(&String) -> Option<DefenseInsight>,
 {
    exists|insight: Option<AccountInsight>, advice: Option<DefenseInsight>|
        {
            &&& #[trigger] call_ensures(account, (&before.id,), insight)
            &&& #[trigger] call_ensures(defense, (&before.id,), advice)
            &&& after == enriched(before, insight, advice, kb)
        }
}

/// Whether `after` holds the findings of `before` in their order, each enriched with what the
/// lookups say of its id.
pub open spec fn all_enriched_by<A, D>(
    before: Seq<VulnerabilityFinding>,
    after: Seq<VulnerabilityFinding>,
    account: A,
    defense: D,
    kb: Seq<KnowledgeEntry>,
) -> bool where
    A: Fn(&String) -> Option<AccountInsight>,
    D: Fn(&String) -> Option<DefenseInsight>,
 {
    &&& after.len() == before.len()
    &&& forall|i: int|
        0 <= i < before.len() ==> enriched_by(
            #[trigger] before[i],
            after[i],
            account,
            defense,
            kb,
        )
}

/// Whether the two lookups can be asked about every finding.
pub open spec fn askable<A, D>(
    findings: Seq<VulnerabilityFinding>,
    account: A,
    defense: D,
) -> bool where
    A: Fn(&String) -> Option<AccountInsight>,
    D: Fn(&String) -> Option<DefenseInsight>,
 {
    forall|i: int|
        0 <= i < findings.len() ==> {
            &&& call_requires(account, (&(#[trigger] findings[i]).id,))
            &&& call_requires(defense, (&findings[i].id,))
        }
}

/// Fills the empty `prevention`, `attack_scenario` and `real_world_incident` fields of the
/// findings from the two experts, which `account` and `defense` ask about a finding id, and
/// from the knowledge base.
pub fn enrich_findings<A, D>(
    findings: &mut Vec<VulnerabilityFinding>,
    account: A,
    defense: D,
    kb: &Vec<KnowledgeEntry>,
) where A: Fn(&String) -> Option<AccountInsight>, D: Fn(&String) -> Option<DefenseInsight>
    requires
        askable(old(findings)@, account, defense),
    ensures
        all_enriched_by(old(findings)@, final(findings)@, account, defense, kb@),
{
    let ghost all = findings@;
    let mut i: usize = 0;
    while i < findings.len()
        invariant
            i <= findings@.len(),
            findings@.len() == all.len(),
            askable(all, account, defense),
            forall|j: int|
                0 <= j < i ==> enriched_by(
                    #[trigger] all[j],
                    findings@[j],
                    account,
                    defense,
                    kb@,
                ),
            forall|j: int| i <= j < all.len() ==> findings@[j] == #[trigger] all[j],
        decreases findings.len() - i,
    {
        assert(findings@[i as int] == all[i as int]);
        let insight = account(&findings[i].id);
        let advice = defense(&findings[i].id);
        enrich_finding(&mut findings[i], &insight, &advice, kb);
        i += 1;
    }
}

} // verus!
