use huginn::models::finding::{Category, Finding, Severity};
use huginn::models::report::{Report, SeveritySummary, VERSION};
use huginn::models::system_info::SystemInfo;
use huginn::output::bloodhound::build_bloodhound_output;
use huginn::output::html::risk_level;

fn critical_fail() -> Finding {
    Finding::fail("X", "X", Severity::Critical, Category::NetworkSecurity, "d", "c", "e", "r")
}

fn high_fail() -> Finding {
    Finding::fail("X", "X", Severity::High, Category::NetworkSecurity, "d", "c", "e", "r")
}

fn a_pass() -> Finding {
    Finding::pass("X", "X", Category::AccountPolicy)
}

fn a_skip() -> Finding {
    Finding::skip("X", "X", "reason", Category::AccountPolicy)
}

#[test]
fn severity_summary_counts_correctly() {
    let findings = vec![
        critical_fail(), critical_fail(),
        high_fail(),
        a_pass(), a_pass(), a_pass(),
        a_skip(),
    ];
    let s = SeveritySummary::from_findings(&findings);
    assert_eq!(s.critical, 2);
    assert_eq!(s.high, 1);
    assert_eq!(s.medium, 0);
    assert_eq!(s.passed, 3);
    assert_eq!(s.skipped, 1);
}

#[test]
fn risk_score_all_passed_is_zero() {
    let findings = vec![a_pass(), a_pass(), a_pass()];
    let s = SeveritySummary::from_findings(&findings);
    assert_eq!(s.risk_score, 0);
}

#[test]
fn risk_score_all_critical_is_100() {
    let findings = vec![critical_fail(), critical_fail()];
    let s = SeveritySummary::from_findings(&findings);
    assert_eq!(s.risk_score, 100);
}

#[test]
fn risk_score_empty_is_zero() {
    let s = SeveritySummary::from_findings(&[]);
    assert_eq!(s.risk_score, 0);
}

#[test]
fn risk_score_skipped_excluded_from_denominator() {
    // 1 critical fail + 1 skipped → total (excl. skipped) = 1 → raw/max = 5/5 = 100
    let findings = vec![critical_fail(), a_skip()];
    let s = SeveritySummary::from_findings(&findings);
    assert_eq!(s.risk_score, 100);
}

#[test]
fn failed_findings_excludes_passed_and_skipped() {
    let findings = vec![critical_fail(), a_pass(), a_skip(), high_fail()];
    let report = Report::new(SystemInfo::default(), findings);
    let failed = report.failed_findings();
    assert_eq!(failed.len(), 2);
    assert!(failed.iter().all(|f| !f.passed && !f.skipped));
}

#[test]
fn report_sorts_findings_by_severity_descending() {
    let findings = vec![
        Finding::fail("C", "C", Severity::Low, Category::NetworkSecurity, "d", "c", "e", "r"),
        Finding::fail("A", "A", Severity::Critical, Category::NetworkSecurity, "d", "c", "e", "r"),
        Finding::fail("B", "B", Severity::High, Category::NetworkSecurity, "d", "c", "e", "r"),
    ];
    let report = Report::new(SystemInfo::default(), findings);
    assert_eq!(report.findings[0].severity, Severity::Critical);
    assert_eq!(report.findings[1].severity, Severity::High);
    assert_eq!(report.findings[2].severity, Severity::Low);
}

#[test]
fn risk_score_mixed_findings() {
    // raw = 5 + 3 + 1 = 9; counted = 4; 900 / 20 = 45
    let findings = vec![
        critical_fail(),
        Finding::fail("M", "M", Severity::Medium, Category::AuditPolicy, "d", "c", "e", "r"),
        Finding::fail("I", "I", Severity::Info, Category::AuditPolicy, "d", "c", "e", "r"),
        a_pass(),
        a_skip(),
    ];
    let s = SeveritySummary::from_findings(&findings);
    assert_eq!(s.risk_score, 45);
    assert_eq!(s.info, 1);
    assert_eq!(s.total_failed(), 3);
}

#[test]
fn compute_risk_score_from_counts() {
    let s = SeveritySummary { critical: 0, high: 1, medium: 0, low: 1, info: 0, passed: 2, skipped: 7, risk_score: 0 };
    // raw = 4 + 2 = 6; counted = 4; 600 / 20 = 30
    assert_eq!(s.compute_risk_score(), 30);
}

#[test]
fn same_severity_is_ordered_by_rule_id_and_stable() {
    let a = Finding::fail("B-2", "first", Severity::High, Category::AuditPolicy, "d", "c", "e", "r");
    let b = Finding::fail("A-1", "x", Severity::High, Category::AuditPolicy, "d", "c", "e", "r");
    let c = Finding::fail("B-2", "second", Severity::High, Category::AuditPolicy, "d", "c", "e", "r");
    let report = Report::new(SystemInfo::default(), vec![a, b, c]);
    assert_eq!(report.findings[0].rule_id, "A-1");
    assert_eq!(report.findings[1].title, "first");
    assert_eq!(report.findings[2].title, "second");
}

#[test]
fn report_carries_version_host_and_display_time() {
    let mut info = SystemInfo::default();
    info.os.hostname = "web01".to_string();
    info.os.name = "Ubuntu 22.04".to_string();
    let report = Report::assemble(info, vec![], 1_700_000_000_000_000);
    assert_eq!(report.version, VERSION);
    assert_eq!(report.target_hostname, "web01");
    assert_eq!(report.target_os, "Ubuntu 22.04");
    assert_eq!(report.generated_at_display, "2023-11-14 22:13:20 UTC");
    assert_eq!(report.summary.risk_score, 0);
}

#[test]
fn bloodhound_output_meta_is_correct() {
    let report = Report::new(SystemInfo::default(), vec![]);
    let output = build_bloodhound_output(&report);
    assert_eq!(output.meta.kind, "computers");
    assert_eq!(output.meta.count, 1);
    assert_eq!(output.meta.version, 4);
}

#[test]
fn bloodhound_output_has_one_computer() {
    let report = Report::new(SystemInfo::default(), vec![]);
    let output = build_bloodhound_output(&report);
    assert_eq!(output.data.len(), 1);
}

#[test]
fn bloodhound_risk_score_matches_report() {
    let report = Report::new(SystemInfo::default(), vec![]);
    let expected_score = report.summary.risk_score;
    let output = build_bloodhound_output(&report);
    assert_eq!(output.data[0].huginn_assessment.risk_score, expected_score);
}

#[test]
fn bloodhound_total_findings_matches_report() {
    let report = Report::new(SystemInfo::default(), vec![]);
    let output = build_bloodhound_output(&report);
    assert_eq!(
        output.data[0].huginn_assessment.total_findings,
        report.summary.total_failed()
    );
}

#[test]
fn bloodhound_names_computer_and_lists_top_findings() {
    let mut info = SystemInfo::default();
    info.os.hostname = "dc01".to_string();
    info.os.domain = Some("corp.local".to_string());
    let mut findings = Vec::new();
    for i in 0..12 {
        findings.push(Finding::fail(&format!("R-{:02}", i), "t", Severity::Medium, Category::AuditPolicy, "d", "c", "e", "r"));
    }
    findings.push(a_pass());
    let report = Report::assemble(info, findings, -1);
    let output = build_bloodhound_output(&report);
    let c = &output.data[0];
    assert_eq!(c.object_identifier, "HUGINN-DC01");
    assert_eq!(c.properties.name, "DC01.CORP.LOCAL");
    assert_eq!(c.properties.lastlogon, -1);
    assert_eq!(c.huginn_assessment.top_findings.len(), 10);
    assert_eq!(c.huginn_assessment.top_findings[0].rule_id, "R-00");
    assert_eq!(c.huginn_assessment.top_findings[0].severity, "MEDIUM");
    assert_eq!(c.huginn_assessment.total_findings, 12);
    assert_eq!(
        c.properties.description.as_deref(),
        Some("Huginn assessment v0.1.0 | Risk Score: 55")
    );
}

#[test]
fn bloodhound_uses_first_user_sid() {
    let mut info = SystemInfo::default();
    let mut u = huginn::models::system_info::LocalUser::default();
    u.sid = Some("S-1-5-21-1".to_string());
    info.users.users = vec![u];
    let report = Report::assemble(info, vec![], 2_500_000);
    let output = build_bloodhound_output(&report);
    assert_eq!(output.data[0].object_identifier, "S-1-5-21-1");
    assert_eq!(output.data[0].properties.lastlogontimestamp, 2);
}

#[test]
fn risk_levels_follow_score_bands() {
    assert_eq!(risk_level(0), "info");
    assert_eq!(risk_level(1), "low");
    assert_eq!(risk_level(29), "low");
    assert_eq!(risk_level(30), "medium");
    assert_eq!(risk_level(50), "high");
    assert_eq!(risk_level(69), "high");
    assert_eq!(risk_level(70), "critical");
    assert_eq!(risk_level(100), "critical");
    assert_eq!(risk_level(101), "info");
}

#[test]
fn tally_counts_every_finding_once() {
    let findings = vec![critical_fail(), high_fail(), a_pass(), a_skip(), a_skip()];
    let n = findings.len();
    let s = SeveritySummary::from_findings(&findings);
    assert_eq!(s.critical + s.high + s.medium + s.low + s.info + s.passed + s.skipped, n);
}

#[test]
fn failed_findings_are_as_many_as_total_failed() {
    let findings = vec![a_pass(), critical_fail(), a_skip(), high_fail(), high_fail()];
    let report = Report::new(SystemInfo::default(), findings);
    assert_eq!(report.failed_findings().len(), report.summary.total_failed());
    assert_eq!(report.summary.total_failed(), 3);
}

#[test]
fn ranking_keeps_the_tally_of_the_input() {
    let findings = || vec![a_skip(), high_fail(), critical_fail(), a_pass()];
    let direct = SeveritySummary::from_findings(&findings());
    let report = Report::new(SystemInfo::default(), findings());
    assert_eq!(report.summary.critical, direct.critical);
    assert_eq!(report.summary.high, direct.high);
    assert_eq!(report.summary.passed, direct.passed);
    assert_eq!(report.summary.skipped, direct.skipped);
    assert_eq!(report.summary.risk_score, direct.risk_score);
    assert_eq!(report.findings.len(), 4);
}

#[test]
fn bloodhound_node_carries_risk_score_and_critical_count() {
    let findings = vec![critical_fail(), critical_fail(), high_fail(), a_pass()];
    let report = Report::assemble(SystemInfo::default(), findings, 0);
    let output = build_bloodhound_output(&report);
    let p = &output.data[0].properties;
    assert_eq!(p.huginn_critical, 2);
    assert_eq!(p.huginn_risk_score, report.summary.risk_score);
    assert_eq!(p.huginn_risk_score, 70);
}

#[test]
fn summary_is_the_same_in_any_order() {
    let a = vec![critical_fail(), a_pass(), high_fail(), a_skip(), critical_fail()];
    let b = vec![a_skip(), critical_fail(), critical_fail(), a_pass(), high_fail()];
    let sa = SeveritySummary::from_findings(&a);
    let sb = SeveritySummary::from_findings(&b);
    assert_eq!((sa.critical, sa.high, sa.passed, sa.skipped, sa.risk_score), (sb.critical, sb.high, sb.passed, sb.skipped, sb.risk_score));
    assert_eq!(sa.critical, 2);
}

#[test]
fn every_constructor_gives_a_version_4_id() {
    for f in [critical_fail(), a_pass(), a_skip()] {
        assert_eq!((f.id >> 76) & 0xf, 4);
        assert_eq!((f.id >> 62) & 0x3, 2);
    }
}
