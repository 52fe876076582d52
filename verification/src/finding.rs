//! Findings, and what the expert systems and the knowledge base say of them.
use vstd::prelude::*;

verus! {

/// A real-world incident in which a vulnerability was exploited.
#[derive(Debug)]
pub struct Incident {
    pub project: String,
    pub loss: String,
    pub date: String,
}

impl Clone for Incident {
    fn clone(&self) -> (copy: Self)
        ensures
            copy == *self,
    {
        Incident {
            project: self.project.clone(),
            loss: self.loss.clone(),
            date: self.date.clone(),
        }
    }
}

/// One vulnerability reported by a scanning phase.
#[derive(Debug)]
pub struct VulnerabilityFinding {
    pub category: String,
    pub vuln_type: String,
    pub severity: u8,
    pub severity_label: String,
    pub id: String,
    pub cwe: Option<String>,
    pub location: String,
    pub function_name: String,
    /// The line of the finding; 0 where it is not known.
    pub line_number: usize,
    pub vulnerable_code: String,
    pub description: String,
    pub attack_scenario: String,
    pub real_world_incident: Option<Incident>,
    pub secure_fix: String,
    pub prevention: String,
    pub confidence: u8,
}

/// What the account security expert says of a finding id.
#[derive(Debug)]
pub struct AccountInsight {
    pub secure_pattern: String,
    pub attack_vector: String,
}

/// What the DeFi security expert says of a finding id.
#[derive(Debug)]
pub struct DefenseInsight {
    pub defense_strategy: String,
}

/// An entry of the vulnerability knowledge base.
#[derive(Debug)]
pub struct KnowledgeEntry {
    /// The finding ids that the entry speaks of.
    pub detector_ids: Vec<String>,
    pub description: String,
    pub real_incident: Option<Incident>,
}

} // verus!
