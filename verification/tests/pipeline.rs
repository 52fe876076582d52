use program_analyzer::finding::{
    AccountInsight, DefenseInsight, Incident, KnowledgeEntry, VulnerabilityFinding,
};
use program_analyzer::pipeline::enrich::{enrich_finding, find_entry};
use program_analyzer::pipeline::key::{decimal_text, dedup_key};
use program_analyzer::pipeline::{dedup_findings, enrich_findings, post_process};

fn make_finding(
    vuln_type: &str,
    location: &str,
    line: usize,
    confidence: u8,
) -> VulnerabilityFinding {
    VulnerabilityFinding {
        category: "Test".to_string(),
        vuln_type: vuln_type.to_string(),
        severity: 3,
        severity_label: "Medium".to_string(),
        id: "SOL-001".to_string(),
        cwe: None,
        location: location.to_string(),
        function_name: "test".to_string(),
        line_number: line,
        vulnerable_code: String::new(),
        description: String::new(),
        attack_scenario: String::new(),
        real_world_incident: None,
        secure_fix: String::new(),
        prevention: String::new(),
        confidence,
    }
}

fn in_function(function: &str, confidence: u8) -> VulnerabilityFinding {
    let mut finding = make_finding("overflow", "main.rs", 0, confidence);
    finding.function_name = function.to_string();
    finding
}

fn insight(pattern: &str, vector: &str) -> AccountInsight {
    AccountInsight { secure_pattern: pattern.to_string(), attack_vector: vector.to_string() }
}

fn advice(strategy: &str) -> DefenseInsight {
    DefenseInsight { defense_strategy: strategy.to_string() }
}

fn entry(ids: &[&str], description: &str, project: Option<&str>) -> KnowledgeEntry {
    KnowledgeEntry {
        detector_ids: ids.iter().map(|id| id.to_string()).collect(),
        description: description.to_string(),
        real_incident: project.map(|name| Incident {
            project: name.to_string(),
            loss: "$1M".to_string(),
            date: "2022-02-02".to_string(),
        }),
    }
}

fn nothing(_id: &String) -> Option<AccountInsight> {
    None
}

fn no_defense(_id: &String) -> Option<DefenseInsight> {
    None
}

#[test]
fn test_dedup_keeps_highest_confidence() {
    let mut findings = vec![
        make_finding("overflow", "main.rs", 10, 40),
        make_finding("overflow", "main.rs", 10, 80),
        make_finding("overflow", "main.rs", 10, 60),
    ];
    dedup_findings(&mut findings);
    assert_eq!(findings.len(), 1);
    assert_eq!(findings[0].confidence, 80);
}

#[test]
fn test_dedup_different_lines_kept() {
    let mut findings = vec![
        make_finding("overflow", "main.rs", 10, 50),
        make_finding("overflow", "main.rs", 20, 50),
    ];
    dedup_findings(&mut findings);
    assert_eq!(findings.len(), 2);
}

#[test]
fn test_dedup_different_types_kept() {
    let mut findings = vec![
        make_finding("overflow", "main.rs", 10, 50),
        make_finding("signer", "main.rs", 10, 50),
    ];
    dedup_findings(&mut findings);
    assert_eq!(findings.len(), 2);
}

/// Three groups of duplicates at different lines, the best of each group second.
#[test]
fn test_dedup_stale_index_regression() {
    let mut findings = vec![
        make_finding("overflow", "main.rs", 10, 50),
        make_finding("overflow", "main.rs", 10, 90),
        make_finding("overflow", "main.rs", 20, 30),
        make_finding("overflow", "main.rs", 20, 80),
        make_finding("overflow", "main.rs", 30, 20),
        make_finding("overflow", "main.rs", 30, 70),
    ];
    dedup_findings(&mut findings);
    assert_eq!(findings.len(), 3);
    assert_eq!(findings[0].confidence, 90);
    assert_eq!(findings[1].confidence, 80);
    assert_eq!(findings[2].confidence, 70);
}

#[test]
fn test_enrichment_populates_empty_fields() {
    let mut findings = vec![make_finding("test", "main.rs", 1, 50)];
    enrich_findings(&mut findings, nothing, no_defense, &Vec::new());
    assert_eq!(findings.len(), 1);
    assert_eq!(findings[0].prevention, "");

    let kb = vec![entry(&["SOL-001"], "drained vault", Some("Wormhole"))];
    enrich_findings(
        &mut findings,
        |id: &String| if id == "SOL-001" { Some(insight("check the signer", "")) } else { None },
        no_defense,
        &kb,
    );
    assert_eq!(findings[0].prevention, "check the signer");
    assert_eq!(findings[0].attack_scenario, "drained vault");
    let incident = findings[0].real_world_incident.as_ref().unwrap();
    assert_eq!(incident.project, "Wormhole");
    assert_eq!(incident.loss, "$1M");
    assert_eq!(incident.date, "2022-02-02");
}

#[test]
fn test_post_process_runs_both() {
    let mut findings = vec![
        make_finding("overflow", "main.rs", 10, 40),
        make_finding("overflow", "main.rs", 10, 80),
    ];
    post_process(&mut findings, nothing, no_defense, &Vec::new());
    assert_eq!(findings.len(), 1);
    assert_eq!(findings[0].confidence, 80);
}

#[test]
fn post_process_enriches_what_it_keeps_and_is_idempotent() {
    let account = |_id: &String| Some(insight("pattern", "vector"));
    let mut findings = vec![
        make_finding("overflow", "main.rs", 10, 40),
        make_finding("overflow", "main.rs", 10, 80),
        make_finding("signer", "main.rs", 10, 1),
    ];
    post_process(&mut findings, account, no_defense, &Vec::new());
    assert_eq!(findings.len(), 2);
    post_process(&mut findings, account, no_defense, &Vec::new());
    assert_eq!(findings.len(), 2);
    assert_eq!(findings[0].confidence, 80);
    assert_eq!(findings[0].prevention, "pattern");
    assert_eq!(findings[1].vuln_type, "signer");
    assert_eq!(findings[1].attack_scenario, "vector");
}

#[test]
fn an_empty_list_stays_empty() {
    let mut findings: Vec<VulnerabilityFinding> = Vec::new();
    dedup_findings(&mut findings);
    assert!(findings.is_empty());
}

#[test]
fn of_equal_confidence_the_first_survives() {
    let mut first = make_finding("overflow", "main.rs", 10, 50);
    first.description = "first".to_string();
    let mut second = make_finding("overflow", "main.rs", 10, 50);
    second.description = "second".to_string();
    let mut findings = vec![first, second];
    dedup_findings(&mut findings);
    assert_eq!(findings.len(), 1);
    assert_eq!(findings[0].description, "first");
}

#[test]
fn survivors_keep_their_order() {
    let mut findings = vec![
        make_finding("c", "main.rs", 1, 10),
        make_finding("a", "main.rs", 1, 20),
        make_finding("b", "main.rs", 1, 30),
        make_finding("c", "main.rs", 1, 40),
        make_finding("a", "main.rs", 1, 5),
    ];
    dedup_findings(&mut findings);
    let types: Vec<String> = findings.iter().map(|f| f.vuln_type.clone()).collect();
    assert_eq!(types, vec!["a", "b", "c"]);
    assert_eq!(findings[2].confidence, 40);
    dedup_findings(&mut findings);
    assert_eq!(findings.len(), 3);
}

#[test]
fn without_a_line_the_function_tells_findings_apart() {
    let mut findings = vec![in_function("deposit", 10), in_function("withdraw", 20), in_function("deposit", 30)];
    dedup_findings(&mut findings);
    assert_eq!(findings.len(), 2);
    assert_eq!(findings[0].function_name, "withdraw");
    assert_eq!(findings[1].confidence, 30);
}

#[test]
fn colons_do_not_merge_spots() {
    let mut findings = vec![
        make_finding("a:b", "c", 10, 40),
        make_finding("a", "b:c", 10, 80),
    ];
    dedup_findings(&mut findings);
    assert_eq!(findings.len(), 2);
    assert_eq!(findings[0].confidence, 40);
    assert_eq!(findings[1].confidence, 80);

    let mut same = vec![make_finding("a:b", "c:d", 10, 40), make_finding("a:b", "c:d", 10, 80)];
    dedup_findings(&mut same);
    assert_eq!(same.len(), 1);
    assert_eq!(same[0].confidence, 80);
}

#[test]
fn a_function_named_like_a_line_is_no_line() {
    let mut findings = vec![make_finding("overflow", "main.rs", 10, 9), in_function("10", 8)];
    dedup_findings(&mut findings);
    assert_eq!(findings.len(), 2);
    assert_eq!(findings[0].confidence, 9);
    assert_eq!(findings[1].confidence, 8);
}

#[test]
fn texts_that_look_like_frames_do_not_merge_spots() {
    let mut findings = vec![
        make_finding("a", "1:bL1", 10, 1),
        make_finding("a1", ":bL1", 10, 2),
        make_finding("a1:bL1", "", 10, 3),
        make_finding("", "a1:bL1", 10, 4),
        make_finding("\u{e9}", "\u{e9}", 10, 5),
    ];
    dedup_findings(&mut findings);
    assert_eq!(findings.len(), 5);
}

#[test]
fn on_a_known_line_the_function_does_not_matter() {
    let mut inner = make_finding("overflow", "main.rs", 10, 60);
    inner.function_name = "inner".to_string();
    let mut findings = vec![make_finding("overflow", "main.rs", 10, 50), inner];
    dedup_findings(&mut findings);
    assert_eq!(findings.len(), 1);
    assert_eq!(findings[0].function_name, "inner");
}

#[test]
fn keys_frame_type_and_location_and_mark_the_site() {
    assert_eq!(dedup_key(&make_finding("overflow", "main.rs", 10, 1)), "8:overflow7:main.rsL10");
    assert_eq!(dedup_key(&in_function("deposit", 1)), "8:overflow7:main.rsFdeposit");
    assert_eq!(dedup_key(&make_finding("\u{e9}", "", 3, 1)), "1:\u{e9}0:L3");
}

#[test]
fn decimal_notation() {
    for n in [0usize, 7, 9, 10, 19, 90, 99, 100, 1000, 1234567890, usize::MAX] {
        assert_eq!(decimal_text(n), n.to_string());
    }
}

#[test]
fn the_first_covering_entry_is_found() {
    let kb = vec![
        entry(&["SOL-002"], "two", None),
        entry(&["SOL-009", "SOL-001"], "one", None),
        entry(&["SOL-001"], "other one", Some("Mango")),
    ];
    assert_eq!(find_entry(&kb, &"SOL-001".to_string()).unwrap().description, "one");
    assert_eq!(find_entry(&kb, &"SOL-002".to_string()).unwrap().description, "two");
    assert!(find_entry(&kb, &"SOL-00".to_string()).is_none());

    // The first entry has no incident, so none is taken from the second.
    let mut finding = make_finding("test", "main.rs", 1, 50);
    enrich_finding(&mut finding, &None, &None, &kb);
    assert_eq!(finding.attack_scenario, "one");
    assert!(finding.real_world_incident.is_none());
}

#[test]
fn enrichment_overwrites_nothing() {
    let kb = vec![entry(&["SOL-001"], "described", Some("Mango"))];
    let mut finding = make_finding("test", "main.rs", 1, 50);
    finding.prevention = "mine".to_string();
    finding.attack_scenario = "my scenario".to_string();
    finding.real_world_incident = Some(Incident {
        project: "Cashio".to_string(),
        loss: "$48M".to_string(),
        date: "2022-03-23".to_string(),
    });
    enrich_finding(&mut finding, &Some(insight("p", "v")), &Some(advice("d")), &kb);
    assert_eq!(finding.prevention, "mine");
    assert_eq!(finding.attack_scenario, "my scenario");
    assert_eq!(finding.real_world_incident.unwrap().project, "Cashio");
}

#[test]
fn the_account_expert_comes_before_the_others() {
    let kb = vec![entry(&["SOL-001"], "described", None)];
    let mut both = make_finding("test", "main.rs", 1, 50);
    enrich_finding(&mut both, &Some(insight("pattern", "vector")), &Some(advice("defense")), &kb);
    assert_eq!(both.prevention, "pattern");
    assert_eq!(both.attack_scenario, "vector");

    let mut fallback = make_finding("test", "main.rs", 1, 50);
    enrich_finding(&mut fallback, &None, &Some(advice("defense")), &kb);
    assert_eq!(fallback.prevention, "defense");
    assert_eq!(fallback.attack_scenario, "described");

    // An expert without a text does not stand in the way.
    let mut silent = make_finding("test", "main.rs", 1, 50);
    enrich_finding(&mut silent, &Some(insight("", "")), &Some(advice("defense")), &kb);
    assert_eq!(silent.prevention, "defense");
    assert_eq!(silent.attack_scenario, "described");
}

#[test]
fn lookups_are_asked_about_each_id() {
    let mut other = make_finding("test", "main.rs", 2, 50);
    other.id = "SOL-002".to_string();
    let mut findings = vec![make_finding("test", "main.rs", 1, 50), other];
    enrich_findings(
        &mut findings,
        |id: &String| if id == "SOL-002" { Some(insight("two", "vector")) } else { None },
        |id: &String| if id == "SOL-001" { Some(advice("one")) } else { None },
        &Vec::new(),
    );
    assert_eq!(findings[0].prevention, "one");
    assert_eq!(findings[0].attack_scenario, "");
    assert_eq!(findings[1].prevention, "two");
    assert_eq!(findings[1].attack_scenario, "vector");
}
