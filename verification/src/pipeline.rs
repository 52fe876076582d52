//! Finding enrichment (attack scenarios, defenses) and cross-phase deduplication.
//! Runs after all scanning phases, before the validation pipeline.
use vstd::prelude::*;

use crate::finding::AccountInsight;
use crate::finding::DefenseInsight;
use crate::finding::KnowledgeEntry;
use crate::finding::VulnerabilityFinding;

pub mod dedup;
pub mod dedup_laws;
pub mod enrich;
pub mod enrich_laws;
pub mod key;

pub use crate::pipeline::dedup::dedup_findings;
pub use crate::pipeline::enrich::enrich_findings;

verus! {

/// Enriches the findings, then deduplicates them.
pub fn post_process<A, D>(
    findings: &mut Vec<VulnerabilityFinding>,
    account: A,
    defense: D,
    kb: &Vec<KnowledgeEntry>,
) where A: Fn(&String) -> Option<AccountInsight>, D: Fn(&String) -> Option<DefenseInsight>
    requires
        enrich::askable(old(findings)@, account, defense),
    ensures
        exists|complete: Seq<VulnerabilityFinding>|
            {
                &&& #[trigger] enrich::all_enriched_by(
                    old(findings)@,
                    complete,
                    account,
                    defense,
                    kb@,
                )
                &&& final(findings)@ == dedup::deduped(complete)
            },
{
    enrich_findings(findings, account, defense, kb);
    dedup_findings(findings);
}

} // verus!
