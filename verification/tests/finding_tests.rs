use huginn::models::finding::{Category, ComplianceRef, Finding, Severity, CIS_URL};

#[test]
fn severity_weights_are_ordered() {
    assert!(Severity::Critical.weight() > Severity::High.weight());
    assert!(Severity::High.weight() > Severity::Medium.weight());
    assert!(Severity::Medium.weight() > Severity::Low.weight());
    assert!(Severity::Low.weight() > Severity::Info.weight());
}

#[test]
fn severity_labels_are_correct() {
    assert_eq!(Severity::Critical.label(), "CRITICAL");
    assert_eq!(Severity::High.label(), "HIGH");
    assert_eq!(Severity::Medium.label(), "MEDIUM");
    assert_eq!(Severity::Low.label(), "LOW");
    assert_eq!(Severity::Info.label(), "INFO");
}

#[test]
fn fail_creates_failed_finding() {
    let f = Finding::fail(
        "TEST-1", "Title", Severity::High, Category::NetworkSecurity,
        "desc", "current", "expected", "rec",
    );
    assert!(!f.passed);
    assert!(!f.skipped);
    assert_eq!(f.rule_id, "TEST-1");
    assert_eq!(f.severity, Severity::High);
    assert_eq!(f.severity_label, "HIGH");
    assert_eq!(f.current_value, "current");
    assert_eq!(f.expected_value, "expected");
    assert!(f.references.is_empty());
    assert!(f.evidence.is_none());
}

#[test]
fn pass_creates_passed_finding() {
    let f = Finding::pass("TEST-2", "Title", Category::AccountPolicy);
    assert!(f.passed);
    assert!(!f.skipped);
    assert_eq!(f.severity, Severity::Info);
}

#[test]
fn skip_creates_skipped_finding() {
    let f = Finding::skip("TEST-3", "Title", "reason", Category::ServiceSecurity);
    assert!(!f.passed);
    assert!(f.skipped);
    assert_eq!(f.severity, Severity::Info);
    assert_eq!(f.description, "reason");
}

#[test]
fn with_refs_attaches_compliance_refs() {
    let f = Finding::fail(
        "TEST-4", "Title", Severity::Low, Category::FirewallPolicy,
        "d", "c", "e", "r",
    )
    .with_refs(vec![ComplianceRef::cis("1.1", "Title")]);
    assert_eq!(f.references.len(), 1);
    assert_eq!(f.references[0].framework, "CIS");
}

#[test]
fn with_evidence_attaches_evidence() {
    let f = Finding::fail(
        "TEST-5", "Title", Severity::Medium, Category::SystemIntegrity,
        "d", "c", "e", "r",
    )
    .with_evidence("evidence string");
    assert_eq!(f.evidence.as_deref(), Some("evidence string"));
}

#[test]
fn compliance_ref_cis_sets_framework_and_url() {
    let r = ComplianceRef::cis("1.2.3", "Some control");
    assert_eq!(r.framework, "CIS");
    assert_eq!(r.id, "1.2.3");
    assert_eq!(r.title, "Some control");
    assert!(r.url.is_some());
}

#[test]
fn compliance_ref_nist_has_no_url() {
    let r = ComplianceRef::nist("IA-5", "Authenticator Management");
    assert_eq!(r.framework, "NIST");
    assert!(r.url.is_none());
}

#[test]
fn cis_reference_links_the_benchmark_page() {
    let r = ComplianceRef::cis("5.2.1", "SSH");
    assert_eq!(r.url.as_deref(), Some(CIS_URL));
    assert_eq!(CIS_URL, "https://www.cisecurity.org/cis-benchmarks");
}

#[test]
fn category_labels_are_display_names() {
    assert_eq!(Category::AccountPolicy.label(), "Account Policy");
    assert_eq!(Category::FirewallPolicy.label(), "Firewall Policy");
    assert_eq!(Category::PatchManagement.label(), "Patch Management");
}

#[test]
fn fail_labels_its_severity_and_category() {
    let f = Finding::fail("R", "T", Severity::Critical, Category::UserRights, "d", "c", "e", "r");
    assert_eq!(f.severity_label, "CRITICAL");
    assert_eq!(f.category_label, "User Rights");
    assert_eq!(f.os_target, "");
}

#[test]
fn finding_ids_are_version_4_uuids() {
    let a = Finding::pass("A", "A", Category::AccountPolicy);
    let b = Finding::pass("B", "B", Category::AccountPolicy);
    assert_eq!((a.id >> 76) & 0xf, 4);
    assert_eq!((a.id >> 62) & 0x3, 2);
    assert_ne!(a.id, b.id);
}

#[test]
fn with_evidence_keeps_id_and_time() {
    let f = Finding::fail("R", "T", Severity::Low, Category::AuditPolicy, "d", "c", "e", "r");
    let id = f.id;
    let t = f.timestamp_micros;
    let g = f.with_evidence("x");
    assert_eq!(g.id, id);
    assert_eq!(g.timestamp_micros, t);
    assert_eq!(g.rule_id, "R");
}
