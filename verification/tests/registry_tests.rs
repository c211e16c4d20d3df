use huginn::analyzers::registry::{analyzer_progress_line, build_analyzer_registry, AnalyzerKind, AnalyzerRegistry};
use huginn::analyzers::cis::network::SmbV1Analyzer;
use huginn::analyzers::{Analyzer, OsTarget};
use huginn::cli::{Cli, Command, OutputFormat};
use huginn::collectors::{build_collector_registry, collector_progress_line, Collector, CollectorKind, CollectorRegistry, UsersCollector};
use huginn::models::finding::{Category, Finding, Severity};
use huginn::models::system_info::SystemInfo;
use huginn::runner::{keep_reported, RunnerConfig};

#[test]
fn os_targets_match_hosts() {
    assert!(OsTarget::Any.matches("linux"));
    assert!(OsTarget::Windows.matches("windows"));
    assert!(!OsTarget::Windows.matches("linux"));
    assert_eq!(OsTarget::Linux.label(), "linux");
}

#[test]
fn registry_runs_matching_analyzers_in_order() {
    let reg = AnalyzerRegistry::new()
        .register(AnalyzerKind::SmbV1)
        .register(AnalyzerKind::UnquotedServicePath);
    let mut lines: Vec<String> = Vec::new();
    let cell = std::cell::RefCell::new(&mut lines);
    let mut info = SystemInfo::default();
    info.security.smb_v1_enabled = Some(true);
    let findings = reg.run_all(&info, "linux", &|s: &str| cell.borrow_mut().push(s.to_string()));
    assert_eq!(lines.len(), 1);
    assert!(lines[0].starts_with("  [cis-18.smbv1"));
    assert!(findings.iter().all(|f| f.os_target == "any"));
    assert_eq!(findings.len(), 1);
    assert_eq!(findings[0].rule_id, "CIS-18.3.3");
    assert_eq!(findings[0].severity, Severity::High);
}

#[test]
fn full_run_registers_eight_analyzers() {
    let reg = build_analyzer_registry();
    assert_eq!(reg.analyzers().len(), 8);
    assert_eq!(reg.analyzers()[0].id(), "cis-1.1");
}

#[test]
fn collectors_are_selected_by_name() {
    let reg = build_collector_registry();
    assert_eq!(reg.collectors().len(), 7);
    let names = vec!["users".to_string(), "network".to_string(), "nope".to_string()];
    let sel = build_collector_registry().filtered(Some(&names));
    assert_eq!(sel.collectors().clone(), vec![CollectorKind::Users, CollectorKind::Network]);
    let all = build_collector_registry().filtered(None);
    assert_eq!(all.collectors().len(), 7);
    assert!(CollectorRegistry::new().collectors().is_empty());
}

#[test]
fn collector_descriptions_and_progress() {
    assert!(UsersCollector.requires_elevation());
    assert!(!CollectorKind::Network.requires_elevation());
    assert_eq!(CollectorKind::ScheduledTasks.name(), "scheduled_tasks");
    assert_eq!(
        collector_progress_line(CollectorKind::Users),
        "  [users               ] Local users, groups, password and lockout policies"
    );
}

#[test]
fn output_formats_and_command_line() {
    assert!(OutputFormat::All.wants_json() && OutputFormat::All.wants_html() && OutputFormat::All.wants_bloodhound());
    assert!(OutputFormat::Json.wants_json() && !OutputFormat::Json.wants_html());
    let cli = Cli {
        command: None,
        output: OutputFormat::Html,
        dir: "./out".to_string(),
        quiet: true,
        collectors: None,
        include_passed: false,
    };
    let (cfg, cmd) = RunnerConfig::from_cli(cli);
    assert_eq!(cfg.output_dir, "./out");
    assert!(cfg.quiet);
    assert!(cmd.is_none());
    let cli2 = Cli { command: Some(Command::Collect), output: OutputFormat::Json, dir: String::new(), quiet: false, collectors: None, include_passed: true };
    assert!(matches!(cli2.command_or_default(), Command::Collect));
}

#[test]
fn passed_findings_are_dropped_unless_included() {
    let fs = || vec![
        Finding::pass("P", "p", Category::AccountPolicy),
        Finding::fail("F", "f", Severity::Low, Category::AccountPolicy, "d", "c", "e", "r"),
        Finding::skip("S", "s", "why", Category::AccountPolicy),
    ];
    let kept = keep_reported(fs(), false);
    assert_eq!(kept.iter().map(|f| f.rule_id.as_str()).collect::<Vec<_>>(), vec!["F", "S"]);
    assert_eq!(keep_reported(fs(), true).len(), 3);
}

#[test]
fn analyzer_progress_line_pads_the_id() {
    assert_eq!(
        analyzer_progress_line(AnalyzerKind::SshHardening),
        "  [cis-9.ssh           ] SSH — Server Hardening"
    );
}

#[test]
fn smb_v1_enabled_is_high() {
    let mut info = SystemInfo::default();
    info.security.smb_v1_enabled = Some(true);
    let fs = SmbV1Analyzer.analyze(&info, "windows").unwrap();
    assert_eq!(fs.len(), 1);
    assert_eq!(fs[0].rule_id, "CIS-18.3.3");
    assert!(!fs[0].passed && !fs[0].skipped);
    assert_eq!(fs[0].severity, Severity::High);
    info.security.smb_v1_enabled = Some(false);
    let fs = SmbV1Analyzer.analyze(&info, "windows").unwrap();
    assert_eq!(fs.len(), 1);
    assert!(fs[0].passed);
    info.security.smb_v1_enabled = None;
    assert!(SmbV1Analyzer.analyze(&info, "windows").unwrap().is_empty());
}
