use std::collections::HashMap;

use upgrade_worker::changes::{manifest_change_for, manifest_file, manifest_fragment, synthesize};
use upgrade_worker::oracle::placeholder_reports;
use upgrade_worker::{
    ChangeType, CompatibilityScore, Ecosystem, PerformanceImpact, PlaceholderOracle,
    RiskAssessment, RiskLevel, UpgradeRequest, UpgradeWorker, VulnerabilityOracle,
};

struct Fixed(bool);

impl VulnerabilityOracle for Fixed {
    fn has_known_vulnerability(&self, _package_name: &str, _version: &str) -> bool {
        self.0
    }
}

struct Recording(std::cell::RefCell<Vec<(String, String)>>);

impl VulnerabilityOracle for Recording {
    fn has_known_vulnerability(&self, package_name: &str, version: &str) -> bool {
        self.0.borrow_mut().push((package_name.to_string(), version.to_string()));
        false
    }
}

fn upgrade(ecosystem: &str, current: &str, target: &str) -> UpgradeRequest {
    UpgradeRequest {
        repository: "test/repo".to_string(),
        ecosystem: ecosystem.to_string(),
        package_name: "lodash".to_string(),
        current_version: current.to_string(),
        target_version: target.to_string(),
        metadata: HashMap::new(),
    }
}

#[test]
fn ecosystems_are_known_by_their_exact_names() {
    assert_eq!(Ecosystem::from_name("npm"), Ecosystem::Npm);
    assert_eq!(Ecosystem::from_name("cargo"), Ecosystem::Cargo);
    assert_eq!(Ecosystem::from_name("pip"), Ecosystem::Pip);
    assert_eq!(Ecosystem::from_name("go"), Ecosystem::Go);
    assert_eq!(Ecosystem::from_name("maven"), Ecosystem::Unrecognized);
    assert_eq!(Ecosystem::from_name(""), Ecosystem::Unrecognized);
    assert_eq!(Ecosystem::from_name("NPM"), Ecosystem::Unrecognized);
    assert_eq!(Ecosystem::from_name("npm "), Ecosystem::Unrecognized);
}

#[test]
fn the_score_is_base_confidence_times_the_factor_of_the_ecosystem() {
    assert_eq!(CompatibilityScore::for_ecosystem(Ecosystem::Npm).basis_points(), 8000);
    assert_eq!(CompatibilityScore::for_ecosystem(Ecosystem::Cargo).basis_points(), 7200);
    assert_eq!(CompatibilityScore::for_ecosystem(Ecosystem::Pip).basis_points(), 6800);
    assert_eq!(CompatibilityScore::for_ecosystem(Ecosystem::Go).basis_points(), 7600);
    assert_eq!(CompatibilityScore::for_ecosystem(Ecosystem::Unrecognized).basis_points(), 5600);
    assert_eq!(Ecosystem::Npm.coverage_factor(), 100);
    assert_eq!(Ecosystem::Unrecognized.coverage_factor(), 70);
}

#[test]
fn every_ecosystem_name_has_a_score_between_nothing_and_full_confidence() {
    let worker = UpgradeWorker::new(None);
    for name in ["npm", "cargo", "pip", "go", "", "maven", "NPM", "\u{1f980}", "n p m"] {
        let points = worker.assess_compatibility(&upgrade(name, "1.0", "2.0")).unwrap().basis_points();
        assert!(points <= 10_000, "{:?}", name);
        let score = f64::from(points) / 10_000.0;
        assert!((0.0..=1.0).contains(&score), "{:?}", name);
    }
    let unknown = worker.assess_compatibility(&upgrade("maven", "1.0", "2.0")).unwrap();
    assert_eq!(unknown.basis_points(), 5600);
}

#[test]
fn npm_upgrades_modify_package_json() {
    let changes = synthesize(&upgrade("npm", "1.0.0", "2.0.0"));
    assert_eq!(changes.len(), 1);
    assert_eq!(changes[0].file_path, "package.json");
    assert_eq!(changes[0].change_type, ChangeType::Modify);
    assert_eq!(changes[0].content, r#"{"dependencies": {"lodash": "2.0.0"}}"#);
    assert!(changes[0].metadata.is_empty());
}

#[test]
fn cargo_upgrades_modify_cargo_toml() {
    let worker = UpgradeWorker::new(None);
    let changes = worker.generate_changes(&upgrade("cargo", "1.0.0", "2.0.0")).unwrap();
    assert_eq!(changes.len(), 1);
    assert_eq!(changes[0].file_path, "Cargo.toml");
    assert_eq!(changes[0].change_type, ChangeType::Modify);
    assert_eq!(changes[0].content, r#"[dependencies]lodash = "2.0.0""#);
    assert!(changes[0].metadata.is_empty());
}

#[test]
fn ecosystems_without_a_rule_imply_no_change() {
    let worker = UpgradeWorker::new(None);
    for name in ["pip", "go", "maven", "", "Npm", "cargo "] {
        assert!(synthesize(&upgrade(name, "1.0.0", "2.0.0")).is_empty(), "{:?}", name);
        assert!(worker.generate_changes(&upgrade(name, "1.0.0", "2.0.0")).unwrap().is_empty());
    }
    assert_eq!(manifest_file(Ecosystem::Npm), Some("package.json"));
    assert_eq!(manifest_file(Ecosystem::Cargo), Some("Cargo.toml"));
    assert_eq!(manifest_file(Ecosystem::Pip), None);
    assert_eq!(manifest_file(Ecosystem::Go), None);
    assert_eq!(manifest_file(Ecosystem::Unrecognized), None);
    assert!(manifest_change_for(Ecosystem::Go, "a", "1.0").is_none());
    assert_eq!(manifest_fragment(Ecosystem::Pip, "a", "1.0"), "");
}

#[test]
fn manifest_fragments_hold_package_and_version_as_given() {
    assert_eq!(manifest_fragment(Ecosystem::Npm, "", ""), r#"{"dependencies": {"": ""}}"#);
    assert_eq!(
        manifest_fragment(Ecosystem::Npm, "@scope/pkg", "1.0.0-rc1"),
        r#"{"dependencies": {"@scope/pkg": "1.0.0-rc1"}}"#
    );
    assert_eq!(manifest_fragment(Ecosystem::Cargo, "serde", "1.0"), r#"[dependencies]serde = "1.0""#);
    let change = manifest_change_for(Ecosystem::Cargo, "serde", "1.0").unwrap();
    assert_eq!(change.file_path, "Cargo.toml");
    assert_eq!(change.content, r#"[dependencies]serde = "1.0""#);
}

#[test]
fn a_finding_makes_the_risk_critical_whatever_the_version_delta() {
    let worker = UpgradeWorker::new(None);
    for (current, target) in [("1.0.0", "2.0.0"), ("1.0.0", "1.5.0"), ("2.0.0", "1.0.0")] {
        let verdict = worker.assess_risk_with(&Fixed(true), &upgrade("npm", current, target), &[]);
        assert_eq!(verdict.risk_level, RiskLevel::Critical);
        assert_eq!(verdict.security_issues, vec!["Known security vulnerability detected"]);
    }
    for major_jump in [false, true] {
        for change_count in [0, 5, 6] {
            let verdict = RiskAssessment::combine_signals(major_jump, true, change_count);
            assert_eq!(verdict.risk_level, RiskLevel::Critical);
            assert_eq!(verdict.breaking_changes, major_jump);
        }
    }
}

#[test]
fn without_a_finding_the_version_delta_decides_the_risk() {
    let worker = UpgradeWorker::new(None);
    let verdict =
        worker.assess_risk_with(&Fixed(false), &upgrade("npm", "1.0.0", "2.0.0"), &[]);
    assert_eq!(verdict.risk_level, RiskLevel::High);
    assert!(verdict.breaking_changes);
    assert!(verdict.security_issues.is_empty());

    let verdict =
        worker.assess_risk_with(&Fixed(false), &upgrade("npm", "2.0.0", "1.0.0"), &[]);
    assert_eq!(verdict.risk_level, RiskLevel::Low);
    assert!(!verdict.breaking_changes);
}

#[test]
fn the_performance_impact_is_medium_above_five_changes_and_none_otherwise() {
    for change_count in [0usize, 1, 4, 5] {
        for major_jump in [false, true] {
            for vulnerable in [false, true] {
                let verdict = RiskAssessment::combine_signals(major_jump, vulnerable, change_count);
                assert_eq!(verdict.performance_impact, PerformanceImpact::NoImpact);
            }
        }
    }
    for change_count in [6usize, 7, 1000, usize::MAX] {
        for major_jump in [false, true] {
            for vulnerable in [false, true] {
                let verdict = RiskAssessment::combine_signals(major_jump, vulnerable, change_count);
                assert_eq!(verdict.performance_impact, PerformanceImpact::Medium);
            }
        }
    }
}

#[test]
fn the_volume_of_changes_leaves_the_risk_level_alone() {
    let few = RiskAssessment::combine_signals(false, false, 0);
    let many = RiskAssessment::combine_signals(false, false, 100);
    assert_eq!(few.risk_level, RiskLevel::Low);
    assert_eq!(many.risk_level, RiskLevel::Low);
    let few = RiskAssessment::combine_signals(true, false, 0);
    let many = RiskAssessment::combine_signals(true, false, 100);
    assert_eq!(few.risk_level, RiskLevel::High);
    assert_eq!(many.risk_level, RiskLevel::High);
}

#[test]
fn signals_raise_the_risk_and_never_lower_it() {
    let critical = RiskAssessment::baseline().apply_security(true);
    assert_eq!(critical.risk_level, RiskLevel::Critical);
    let still_critical = critical.apply_version_delta(true);
    assert_eq!(still_critical.risk_level, RiskLevel::Critical);
    assert!(still_critical.breaking_changes);
    let unchanged = still_critical.apply_version_delta(false).apply_security(false).apply_volume(0);
    assert_eq!(unchanged.risk_level, RiskLevel::Critical);
    assert_eq!(unchanged.security_issues.len(), 1);
    assert_eq!(unchanged.performance_impact, PerformanceImpact::NoImpact);

    let baseline = RiskAssessment::baseline();
    assert_eq!(baseline.risk_level, RiskLevel::Low);
    assert!(!baseline.breaking_changes);
    assert!(baseline.security_issues.is_empty());
    assert_eq!(baseline.performance_impact, PerformanceImpact::NoImpact);
}

#[test]
fn risk_levels_are_ordered_from_low_to_critical() {
    let levels = [RiskLevel::Low, RiskLevel::Medium, RiskLevel::High, RiskLevel::Critical];
    for (i, a) in levels.iter().enumerate() {
        for (j, b) in levels.iter().enumerate() {
            let expected = if i >= j { *a } else { *b };
            assert_eq!(a.raised_to(*b), expected);
        }
    }
}

#[test]
fn the_oracle_is_asked_about_the_target_version() {
    let worker = UpgradeWorker::new(None);
    let oracle = Recording(std::cell::RefCell::new(Vec::new()));
    let response = worker.process_upgrade_with(&oracle, upgrade("npm", "1.0.0", "2.0.0")).unwrap();
    assert_eq!(response.risk_assessment.risk_level, RiskLevel::High);
    assert_eq!(*oracle.0.borrow(), vec![("lodash".to_string(), "2.0.0".to_string())]);
}

#[test]
fn a_request_with_a_defect_fails_before_the_oracle_is_asked() {
    let worker = UpgradeWorker::new(None);
    let oracle = Recording(std::cell::RefCell::new(Vec::new()));
    let error = worker.process_upgrade_with(&oracle, upgrade("npm", "1", "2.0.0")).unwrap_err();
    assert_eq!(error.message, "Invalid current version: 1");
    assert!(oracle.0.borrow().is_empty());
}

#[test]
fn another_oracle_changes_the_verdict_and_nothing_else() {
    let worker = UpgradeWorker::new(None);
    let flagged = worker.process_upgrade_with(&Fixed(true), upgrade("cargo", "1.0", "1.1")).unwrap();
    let clean = worker.process_upgrade_with(&Fixed(false), upgrade("cargo", "1.0", "1.1")).unwrap();
    let default = worker.process_upgrade_with(&PlaceholderOracle {}, upgrade("cargo", "1.0", "1.1")).unwrap();

    assert_eq!(flagged.risk_assessment.risk_level, RiskLevel::Critical);
    assert_eq!(clean.risk_assessment.risk_level, RiskLevel::Low);
    assert_eq!(default.risk_assessment.risk_level, RiskLevel::Low);
    assert_eq!(flagged.compatibility_score, clean.compatibility_score);
    assert_eq!(flagged.changes.len(), clean.changes.len());
    assert_eq!(flagged.changes[0].content, clean.changes[0].content);
    assert_eq!(flagged.message, clean.message);
}

#[test]
fn the_placeholder_oracle_goes_by_name_and_version() {
    let oracle = PlaceholderOracle {};
    assert!(oracle.has_known_vulnerability("vulnerable-package", "1.0.0"));
    assert!(oracle.has_known_vulnerability("normal-package", "0.0.0"));
    assert!(!oracle.has_known_vulnerability("normal-package", "1.0.0"));
    assert!(placeholder_reports("a-vulnerable-b", "3.2.1"));
    assert!(!placeholder_reports("normal-package", "0.0.00"));
}
