use huginn::analyzers::cis::services::{UnquotedServicePathAnalyzer, WeakServicePermissionsAnalyzer};
use huginn::analyzers::Analyzer;
use huginn::models::finding::Severity;
use huginn::models::system_info::{ServiceInfo, SystemInfo};

fn svc(name: &str, unquoted: bool, weak_perms: bool) -> ServiceInfo {
    ServiceInfo {
        name: name.to_string(),
        display_name: format!("{} Display", name),
        binary_path: Some(format!("C:\\Program Files\\{}\\svc.exe", name)),
        unquoted_path: unquoted,
        weak_permissions: weak_perms,
        ..Default::default()
    }
}

#[test]
fn unquoted_path_empty_services_skips() {
    let findings = UnquotedServicePathAnalyzer.analyze(&SystemInfo::default(), "windows").unwrap();
    assert!(findings.iter().any(|f| f.skipped));
}

#[test]
fn unquoted_path_detected_fails() {
    let mut info = SystemInfo::default();
    info.services.services = vec![svc("MySvc", true, false)];
    let findings = UnquotedServicePathAnalyzer.analyze(&info, "windows").unwrap();
    let f = findings.iter().find(|f| f.rule_id == "SVC-UNQUOTED-PATH" && !f.skipped).unwrap();
    assert!(!f.passed);
}

#[test]
fn no_unquoted_path_passes() {
    let mut info = SystemInfo::default();
    info.services.services = vec![svc("MySvc", false, false)];
    let findings = UnquotedServicePathAnalyzer.analyze(&info, "windows").unwrap();
    let f = findings.iter().find(|f| f.rule_id == "SVC-UNQUOTED-PATH").unwrap();
    assert!(f.passed);
}

#[test]
fn weak_permissions_empty_services_skips() {
    let findings = WeakServicePermissionsAnalyzer.analyze(&SystemInfo::default(), "windows").unwrap();
    assert!(findings.iter().any(|f| f.skipped));
}

#[test]
fn weak_permissions_detected_fails_high() {
    let mut info = SystemInfo::default();
    info.services.services = vec![svc("MySvc", false, true)];
    let findings = WeakServicePermissionsAnalyzer.analyze(&info, "windows").unwrap();
    let f = findings.iter().find(|f| f.rule_id == "SVC-WEAK-PERMS" && !f.skipped).unwrap();
    assert!(!f.passed);
    assert_eq!(f.severity, Severity::High);
}

#[test]
fn no_weak_permissions_passes() {
    let mut info = SystemInfo::default();
    info.services.services = vec![svc("MySvc", false, false)];
    let findings = WeakServicePermissionsAnalyzer.analyze(&info, "windows").unwrap();
    let f = findings.iter().find(|f| f.rule_id == "SVC-WEAK-PERMS").unwrap();
    assert!(f.passed);
}

#[test]
fn unquoted_path_finding_names_service_and_path() {
    let mut info = SystemInfo::default();
    info.services.services = vec![svc("MySvc", true, false), svc("Other", false, false)];
    let findings = UnquotedServicePathAnalyzer.analyze(&info, "windows").unwrap();
    assert_eq!(findings.len(), 1);
    let f = &findings[0];
    assert_eq!(f.title, "Service 'MySvc Display' has an unquoted binary path with spaces");
    assert_eq!(f.current_value, "Unquoted path: C:\\Program Files\\MySvc\\svc.exe");
    assert_eq!(f.evidence.as_deref(), Some("Service: MySvc | Path: C:\\Program Files\\MySvc\\svc.exe"));
    assert_eq!(f.severity, Severity::High);
}


#[test]
fn unquoted_path_finding_is_high_with_evidence() {
    let mut info = SystemInfo::default();
    info.services.services = vec![svc("MySvc", true, false)];
    let fs = UnquotedServicePathAnalyzer.analyze(&info, "windows").unwrap();
    assert_eq!(fs.len(), 1);
    assert_eq!(fs[0].rule_id, "SVC-UNQUOTED-PATH");
    assert!(!fs[0].passed && !fs[0].skipped);
    assert_eq!(fs[0].severity, Severity::High);
    assert_eq!(fs[0].evidence.as_deref(), Some("Service: MySvc | Path: C:\\Program Files\\MySvc\\svc.exe"));
}
