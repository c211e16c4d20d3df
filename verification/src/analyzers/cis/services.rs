//! Service binaries: unquoted paths and weak permissions (Windows hosts).
use vstd::prelude::*;

use crate::analyzers::{Analyzer, OsTarget};
use crate::error::HuginnError;
use crate::models::finding::{
    cis_ref, fail_view, fails_with, is_skipped, passes, findings_view, nist_ref, pass_view, refs_view, skip_view,
    with_evidence_view, with_refs_view, Category, ComplianceRef, Finding,
    FindingView, Severity,
};
use crate::models::system_info::{ServiceInfo, SystemInfo};
use crate::text::{concat, concat3};

verus! {

/// The binary path of a service as the findings cite it.
pub open spec fn service_path(s: ServiceInfo) -> Seq<char> {
    match s.binary_path {
        Some(p) => p@,
        None => "unknown"@,
    }
}

fn path_of(s: &ServiceInfo) -> (r: &str)
    ensures
        r@ == service_path(*s),
{
    match &s.binary_path {
        Some(p) => p.as_str(),
        None => "unknown",
    }
}

pub open spec fn unquoted_finding(s: ServiceInfo) -> FindingView {
    let path = service_path(s);
    with_evidence_view(
        with_refs_view(
            fail_view(
                "SVC-UNQUOTED-PATH"@,
                "Service '"@ + s.display_name@ + "' has an unquoted binary path with spaces"@,
                Severity::High,
                Category::ServiceSecurity,
                "When a service binary path contains spaces and is not quoted, Windows will attempt to execute each space-separated segment as a potential binary path before reaching the real one. An attacker who can write to an intermediate directory can place a malicious binary that runs as SYSTEM."@,
                "Unquoted path: "@ + path,
                "Quoted path: \"C:\\Path With Spaces\\service.exe\""@,
                "Wrap the binary path in double quotes for service '"@ + s.name@
                    + "'. Modify via: sc config \""@ + s.name@ + "\" binpath= \"\\\""@ + path
                    + "\\\"\""@,
            ),
            seq![nist_ref("NIST CM-7"@, "Least Functionality"@)],
        ),
        "Service: "@ + s.name@ + " | Path: "@ + path,
    )
}

/// The unquoted-path findings: a skip when no service was collected; a
/// failure for each service flagged with an unquoted path, in order; a pass
/// when none is flagged.
pub open spec fn unquoted_findings(svcs: Seq<ServiceInfo>) -> Seq<FindingView> {
    if svcs.len() == 0 {
        seq![
            skip_view(
                "SVC-UNQUOTED-PATH"@,
                "Unquoted service paths — data unavailable"@,
                "No service data was collected. Re-run with elevated privileges to enumerate services."@,
                Category::ServiceSecurity,
            ),
        ]
    } else {
        let flagged = svcs.filter(|s: ServiceInfo| s.unquoted_path);
        if flagged.len() == 0 {
            seq![
                pass_view(
                    "SVC-UNQUOTED-PATH"@,
                    "No services with unquoted binary paths detected"@,
                    Category::ServiceSecurity,
                ),
            ]
        } else {
            flagged.map_values(|s: ServiceInfo| unquoted_finding(s))
        }
    }
}

fn unquoted_fail(s: &ServiceInfo) -> (f: Finding)
    ensures
        f@ == unquoted_finding(*s),
{
    let path = path_of(s);
    let name = s.name.as_str();
    let title = concat3(
        "Service '",
        s.display_name.as_str(),
        "' has an unquoted binary path with spaces",
    );
    let current = concat("Unquoted path: ", path);
    let mut rec = concat3("Wrap the binary path in double quotes for service '", name, "'. Modify via: sc config \"");
    rec.append(name);
    rec.append("\" binpath= \"\\\"");
    rec.append(path);
    rec.append("\\\"\"");
    let mut evidence = concat3("Service: ", name, " | Path: ");
    evidence.append(path);
    let refs = vec![ComplianceRef::nist("NIST CM-7", "Least Functionality")];
    assert(refs_view(refs@) =~= seq![refs@[0]@]);
    Finding::fail(
        "SVC-UNQUOTED-PATH",
        title.as_str(),
        Severity::High,
        Category::ServiceSecurity,
        "When a service binary path contains spaces and is not quoted, Windows will attempt to execute each space-separated segment as a potential binary path before reaching the real one. An attacker who can write to an intermediate directory can place a malicious binary that runs as SYSTEM.",
        current.as_str(),
        "Quoted path: \"C:\\Path With Spaces\\service.exe\"",
        rec.as_str(),
    ).with_refs(refs).with_evidence(evidence.as_str())
}

/// Service binary paths with spaces and no quotes (Windows hosts).
pub struct UnquotedServicePathAnalyzer;

impl Analyzer for UnquotedServicePathAnalyzer {
    open spec fn spec_id(&self) -> Seq<char> {
        "cis-5.svc.unquoted"@
    }

    open spec fn spec_name(&self) -> Seq<char> {
        "Service — Unquoted Binary Paths"@
    }

    open spec fn spec_target_os(&self) -> OsTarget {
        OsTarget::Windows
    }

    open spec fn spec_findings(&self, info: SystemInfo, host_os: Seq<char>) -> Seq<FindingView> {
        unquoted_findings(info.services.services@)
    }

    fn id(&self) -> (r: &'static str) {
        "cis-5.svc.unquoted"
    }

    fn name(&self) -> (r: &'static str) {
        "Service — Unquoted Binary Paths"
    }

    fn target_os(&self) -> (r: OsTarget) {
        OsTarget::Windows
    }

    fn analyze(&self, info: &SystemInfo, host_os: &str) -> (r: Result<Vec<Finding>, HuginnError>)
        ensures
            r is Ok,
    {
        let services = &info.services.services;
        let mut findings: Vec<Finding> = Vec::new();
        if services.len() == 0 {
            findings.push(
                Finding::skip(
                    "SVC-UNQUOTED-PATH",
                    "Unquoted service paths — data unavailable",
                    "No service data was collected. Re-run with elevated privileges to enumerate services.",
                    Category::ServiceSecurity,
                ),
            );
            assert(findings_view(findings@) =~= unquoted_findings(services@));
            return Ok(findings);
        }
        let ghost pred = |s: ServiceInfo| s.unquoted_path;
        let ghost mk = |s: ServiceInfo| unquoted_finding(s);
        let mut flagged: usize = 0;
        let mut i: usize = 0;
        while i < services.len()
            invariant
                i <= services.len(),
                pred == (|s: ServiceInfo| s.unquoted_path),
                mk == (|s: ServiceInfo| unquoted_finding(s)),
                findings_view(findings@) == services@.take(i as int).filter(pred).map_values(mk),
                flagged == services@.take(i as int).filter(pred).len(),
                flagged <= i,
            decreases services.len() - i,
        {
            proof {
                services@.take(i as int).lemma_filter_push(services@[i as int], pred);
                assert(services@.take(i + 1) =~= services@.take(i as int).push(services@[i as int]));
            }
            let svc = &services[i];
            if svc.unquoted_path {
                let f = unquoted_fail(svc);
                let ghost before = findings_view(findings@);
                findings.push(f);
                assert(findings_view(findings@) =~= before.push(f@));
                assert(services@.take(i as int).filter(pred).push(*svc).map_values(mk)
                    =~= services@.take(i as int).filter(pred).map_values(mk).push(mk(*svc)));
                flagged = flagged + 1;
            }
            i = i + 1;
        }
        assert(services@.take(services.len() as int) =~= services@);
        if flagged == 0 {
            findings.push(
                Finding::pass(
                    "SVC-UNQUOTED-PATH",
                    "No services with unquoted binary paths detected",
                    Category::ServiceSecurity,
                ),
            );
            assert(findings_view(findings@) =~= unquoted_findings(services@));
        }
        Ok(findings)
    }
}

pub open spec fn weak_perms_finding(s: ServiceInfo) -> FindingView {
    let path = service_path(s);
    with_evidence_view(
        with_refs_view(
            fail_view(
                "SVC-WEAK-PERMS"@,
                "Service '"@ + s.display_name@ + "' binary has weak permissions (world-writable)"@,
                Severity::High,
                Category::ServiceSecurity,
                "A service binary or its parent directory is writable by non-administrative users. An attacker with local user access can replace the binary with a malicious executable that runs with the service's privileges (often SYSTEM)."@,
                "Weak ACL on: "@ + path,
                "Only SYSTEM and Administrators have write access"@,
                "Restrict write permissions on '"@ + path
                    + "' and its parent directories to SYSTEM and Administrators only. Use icacls to inspect and fix: icacls \""@
                    + path + "\" /inheritance:d /grant:r \"SYSTEM:(F)\" \"Administrators:(F)\""@,
            ),
            seq![
                cis_ref("CIS WS2022 5.x"@, "Ensure service binary ACLs are configured correctly"@),
                nist_ref("NIST CM-6"@, "Configuration Settings"@),
            ],
        ),
        "Service: "@ + s.name@ + " | Binary: "@ + path,
    )
}

/// The weak-permission findings: a skip when no service was collected; a
/// failure for each service flagged with weak permissions, in order; a pass
/// when none is flagged.
pub open spec fn weak_perms_findings(svcs: Seq<ServiceInfo>) -> Seq<FindingView> {
    if svcs.len() == 0 {
        seq![
            skip_view(
                "SVC-WEAK-PERMS"@,
                "Service binary permissions — data unavailable"@,
                "No service data was collected. Re-run with elevated privileges to enumerate services."@,
                Category::ServiceSecurity,
            ),
        ]
    } else {
        let flagged = svcs.filter(|s: ServiceInfo| s.weak_permissions);
        if flagged.len() == 0 {
            seq![
                pass_view(
                    "SVC-WEAK-PERMS"@,
                    "No services with weak binary permissions detected"@,
                    Category::ServiceSecurity,
                ),
            ]
        } else {
            flagged.map_values(|s: ServiceInfo| weak_perms_finding(s))
        }
    }
}

fn weak_perms_fail(s: &ServiceInfo) -> (f: Finding)
    ensures
        f@ == weak_perms_finding(*s),
{
    let path = path_of(s);
    let name = s.name.as_str();
    let title = concat3(
        "Service '",
        s.display_name.as_str(),
        "' binary has weak permissions (world-writable)",
    );
    let current = concat("Weak ACL on: ", path);
    let mut rec = concat3(
        "Restrict write permissions on '",
        path,
        "' and its parent directories to SYSTEM and Administrators only. Use icacls to inspect and fix: icacls \"",
    );
    rec.append(path);
    rec.append("\" /inheritance:d /grant:r \"SYSTEM:(F)\" \"Administrators:(F)\"");
    let mut evidence = concat3("Service: ", name, " | Binary: ");
    evidence.append(path);
    let refs = vec![
        ComplianceRef::cis("CIS WS2022 5.x", "Ensure service binary ACLs are configured correctly"),
        ComplianceRef::nist("NIST CM-6", "Configuration Settings"),
    ];
    assert(refs_view(refs@) =~= seq![refs@[0]@, refs@[1]@]);
    Finding::fail(
        "SVC-WEAK-PERMS",
        title.as_str(),
        Severity::High,
        Category::ServiceSecurity,
        "A service binary or its parent directory is writable by non-administrative users. An attacker with local user access can replace the binary with a malicious executable that runs with the service's privileges (often SYSTEM).",
        current.as_str(),
        "Only SYSTEM and Administrators have write access",
        rec.as_str(),
    ).with_refs(refs).with_evidence(evidence.as_str())
}

/// Service binaries writable by non-administrators (Windows hosts).
pub struct WeakServicePermissionsAnalyzer;

impl Analyzer for WeakServicePermissionsAnalyzer {
    open spec fn spec_id(&self) -> Seq<char> {
        "cis-5.svc.permissions"@
    }

    open spec fn spec_name(&self) -> Seq<char> {
        "Service — Weak Binary Permissions"@
    }

    open spec fn spec_target_os(&self) -> OsTarget {
        OsTarget::Windows
    }

    open spec fn spec_findings(&self, info: SystemInfo, host_os: Seq<char>) -> Seq<FindingView> {
        weak_perms_findings(info.services.services@)
    }

    fn id(&self) -> (r: &'static str) {
        "cis-5.svc.permissions"
    }

    fn name(&self) -> (r: &'static str) {
        "Service — Weak Binary Permissions"
    }

    fn target_os(&self) -> (r: OsTarget) {
        OsTarget::Windows
    }

    fn analyze(&self, info: &SystemInfo, host_os: &str) -> (r: Result<Vec<Finding>, HuginnError>)
        ensures
            r is Ok,
    {
        let services = &info.services.services;
        let mut findings: Vec<Finding> = Vec::new();
        if services.len() == 0 {
            findings.push(
                Finding::skip(
                    "SVC-WEAK-PERMS",
                    "Service binary permissions — data unavailable",
                    "No service data was collected. Re-run with elevated privileges to enumerate services.",
                    Category::ServiceSecurity,
                ),
            );
            assert(findings_view(findings@) =~= weak_perms_findings(services@));
            return Ok(findings);
        }
        let ghost pred = |s: ServiceInfo| s.weak_permissions;
        let ghost mk = |s: ServiceInfo| weak_perms_finding(s);
        let mut flagged: usize = 0;
        let mut i: usize = 0;
        while i < services.len()
            invariant
                i <= services.len(),
                pred == (|s: ServiceInfo| s.weak_permissions),
                mk == (|s: ServiceInfo| weak_perms_finding(s)),
                findings_view(findings@) == services@.take(i as int).filter(pred).map_values(mk),
                flagged == services@.take(i as int).filter(pred).len(),
                flagged <= i,
            decreases services.len() - i,
        {
            proof {
                services@.take(i as int).lemma_filter_push(services@[i as int], pred);
                assert(services@.take(i + 1) =~= services@.take(i as int).push(services@[i as int]));
            }
            let svc = &services[i];
            if svc.weak_permissions {
                let f = weak_perms_fail(svc);
                let ghost before = findings_view(findings@);
                findings.push(f);
                assert(findings_view(findings@) =~= before.push(f@));
                assert(services@.take(i as int).filter(pred).push(*svc).map_values(mk)
                    =~= services@.take(i as int).filter(pred).map_values(mk).push(mk(*svc)));
                flagged = flagged + 1;
            }
            i = i + 1;
        }
        assert(services@.take(services.len() as int) =~= services@);
        if flagged == 0 {
            findings.push(
                Finding::pass(
                    "SVC-WEAK-PERMS",
                    "No services with weak binary permissions detected",
                    Category::ServiceSecurity,
                ),
            );
            assert(findings_view(findings@) =~= weak_perms_findings(services@));
        }
        Ok(findings)
    }
}

/// Unquoted service paths: with no service collected the rule is skipped;
/// otherwise there is one high-severity failure for each service flagged
/// with an unquoted path, in order, naming that service and its path (or
/// `unknown`) in its evidence, and a single pass when none is flagged.
pub proof fn lemma_unquoted_rule(info: SystemInfo, host_os: Seq<char>)
    ensures
        ({
            let fs = UnquotedServicePathAnalyzer.spec_findings(info, host_os);
            let svcs = info.services.services@;
            let flagged = svcs.filter(|s: ServiceInfo| s.unquoted_path);
            &&& svcs.len() == 0 ==> fs.len() == 1 && is_skipped(fs[0]) && fs[0].rule_id == "SVC-UNQUOTED-PATH"@
            &&& svcs.len() > 0 && flagged.len() == 0 ==> fs.len() == 1 && passes(fs[0]) && fs[0].rule_id == "SVC-UNQUOTED-PATH"@
            &&& svcs.len() > 0 && flagged.len() > 0 ==> {
                &&& fs.len() == flagged.len()
                &&& forall|i: int| 0 <= i < fs.len() ==> {
                    &&& fails_with(#[trigger] fs[i], Severity::High)
                    &&& fs[i].rule_id == "SVC-UNQUOTED-PATH"@
                    &&& fs[i].evidence == Some("Service: "@ + flagged[i].name@ + " | Path: "@ + match flagged[i].binary_path {
                        Some(p) => p@,
                        None => "unknown"@,
                    })
                }
            }
        }),
{
}

/// Weak service permissions: with no service collected the rule is skipped;
/// otherwise there is one high-severity failure for each service flagged
/// with weak permissions, in order, naming that service and its binary (or
/// `unknown`) in its evidence, and a single pass when none is flagged.
pub proof fn lemma_weak_perms_rule(info: SystemInfo, host_os: Seq<char>)
    ensures
        ({
            let fs = WeakServicePermissionsAnalyzer.spec_findings(info, host_os);
            let svcs = info.services.services@;
            let flagged = svcs.filter(|s: ServiceInfo| s.weak_permissions);
            &&& svcs.len() == 0 ==> fs.len() == 1 && is_skipped(fs[0]) && fs[0].rule_id == "SVC-WEAK-PERMS"@
            &&& svcs.len() > 0 && flagged.len() == 0 ==> fs.len() == 1 && passes(fs[0]) && fs[0].rule_id == "SVC-WEAK-PERMS"@
            &&& svcs.len() > 0 && flagged.len() > 0 ==> {
                &&& fs.len() == flagged.len()
                &&& forall|i: int| 0 <= i < fs.len() ==> {
                    &&& fails_with(#[trigger] fs[i], Severity::High)
                    &&& fs[i].rule_id == "SVC-WEAK-PERMS"@
                    &&& fs[i].evidence == Some("Service: "@ + flagged[i].name@ + " | Binary: "@ + match flagged[i].binary_path {
                        Some(p) => p@,
                        None => "unknown"@,
                    })
                }
            }
        }),
{
}

} // verus!
