//! CIS §2.3.7 (User Account Control) and CIS §2.3.11 (LSA protection,
//! Credential Guard, Windows Defender).
use vstd::prelude::*;

use crate::analyzers::{Analyzer, OsTarget};
use crate::error::HuginnError;
use crate::models::finding::{
    cis_ref, fail_view, fails_with, is_skipped, passes, findings_view, nist_ref, opt_finding_view, pass_view, present, refs_view,
    with_refs_view, Category, ComplianceRef, Finding, FindingView, Severity,
};
use crate::models::system_info::{SecurityPolicies, SystemInfo};

verus! {

/// CIS 2.3.7.1: failed when UAC is disabled, passed when enabled, none when unknown.
pub open spec fn uac_enabled_finding(v: Option<bool>) -> Option<FindingView> {
    match v {
        Some(false) => Some(with_refs_view(fail_view("CIS-2.3.7.1"@, "User Account Control (UAC) is disabled"@, Severity::Critical, Category::SystemIntegrity, "UAC disabled means all processes run with full administrative privileges by default. This allows malware and malicious scripts to make system-wide changes without any elevation prompt, dramatically increasing the blast radius of any compromise."@, "Disabled"@, "Enabled"@, "Enable UAC via: Computer Configuration > Windows Settings > Security Settings > Local Policies > Security Options > 'User Account Control: Run all administrators in Admin Approval Mode' = Enabled. Registry: HKLM\\SOFTWARE\\Microsoft\\Windows\\CurrentVersion\\Policies\\System\\ EnableLUA = 1."@), seq![cis_ref("CIS WS2022 2.3.17.1"@, "Ensure 'User Account Control: Admin Approval Mode for the Built-in Administrator account' is set to 'Enabled'"@), nist_ref("NIST AC-6(5)"@, "Least Privilege | Privileged Accounts"@)])),
        Some(true) => Some(pass_view("CIS-2.3.7.1"@, "User Account Control (UAC) is enabled"@, Category::SystemIntegrity)),
        None => None,
    }
}

/// CIS 2.3.7.2: failed when the elevation prompt does not use the secure desktop.
pub open spec fn secure_desktop_finding(v: Option<bool>) -> Option<FindingView> {
    match v {
        Some(false) => Some(with_refs_view(fail_view("CIS-2.3.7.2"@, "UAC elevation prompt does not use secure desktop"@, Severity::Medium, Category::SystemIntegrity, "Without the secure desktop, the UAC prompt appears on the regular desktop where malicious software can spoof it or inject keystrokes. The secure desktop prevents other processes from interacting with the elevation dialog."@, "Disabled"@, "Enabled"@, "Enable: Computer Configuration > Windows Settings > Security Settings > Local Policies > Security Options > 'User Account Control: Switch to the secure desktop when prompting for elevation' = Enabled."@), seq![cis_ref("CIS WS2022 2.3.17.2"@, "Ensure 'User Account Control: Behavior of the elevation prompt for administrators in Admin Approval Mode' is set to 'Prompt for consent on the secure desktop'"@)])),
        _ => None,
    }
}

/// CIS 2.3.7.3: failed when UAC is set to never notify (level 0).
pub open spec fn uac_level_finding(v: Option<u32>) -> Option<FindingView> {
    match v {
        Some(0) => Some(with_refs_view(fail_view("CIS-2.3.7.3"@, "UAC is set to 'Never notify' mode"@, Severity::High, Category::SystemIntegrity, "UAC set to 'Never notify' means no elevation prompts are shown, allowing any process to silently elevate privileges. This is functionally equivalent to disabling UAC."@, "Never notify (level 0)"@, "Notify when apps make changes (level 2 or 3)"@, "Increase the UAC notification level via the Control Panel or Group Policy."@), seq![cis_ref("CIS WS2022 2.3.17.6"@, "Ensure 'User Account Control: Behavior of the elevation prompt for standard users' is set to 'Automatically deny elevation requests'"@)])),
        _ => None,
    }
}

/// The UAC findings, in the order 2.3.7.1, 2.3.7.2, 2.3.7.3, each where it applies.
pub open spec fn uac_findings(sec: SecurityPolicies) -> Seq<FindingView> {
    present(uac_enabled_finding(sec.uac_enabled)) + present(secure_desktop_finding(sec.secure_desktop))
        + present(uac_level_finding(sec.uac_level))
}

fn check_uac_enabled(v: Option<bool>) -> (f: Option<Finding>)
    ensures
        opt_finding_view(f) == uac_enabled_finding(v),
{
    match v {
        Some(false) => Some({
            let refs = vec![ComplianceRef::cis("CIS WS2022 2.3.17.1", "Ensure 'User Account Control: Admin Approval Mode for the Built-in Administrator account' is set to 'Enabled'"), ComplianceRef::nist("NIST AC-6(5)", "Least Privilege | Privileged Accounts")];
            assert(refs_view(refs@) =~= seq![refs@[0]@, refs@[1]@]);
            Finding::fail("CIS-2.3.7.1", "User Account Control (UAC) is disabled", Severity::Critical, Category::SystemIntegrity, "UAC disabled means all processes run with full administrative privileges by default. This allows malware and malicious scripts to make system-wide changes without any elevation prompt, dramatically increasing the blast radius of any compromise.", "Disabled", "Enabled", "Enable UAC via: Computer Configuration > Windows Settings > Security Settings > Local Policies > Security Options > 'User Account Control: Run all administrators in Admin Approval Mode' = Enabled. Registry: HKLM\\SOFTWARE\\Microsoft\\Windows\\CurrentVersion\\Policies\\System\\ EnableLUA = 1.").with_refs(refs)
        }),
        Some(true) => Some(Finding::pass("CIS-2.3.7.1", "User Account Control (UAC) is enabled", Category::SystemIntegrity)),
        None => None,
    }
}

fn check_secure_desktop(v: Option<bool>) -> (f: Option<Finding>)
    ensures
        opt_finding_view(f) == secure_desktop_finding(v),
{
    match v {
        Some(false) => Some({
            let refs = vec![ComplianceRef::cis("CIS WS2022 2.3.17.2", "Ensure 'User Account Control: Behavior of the elevation prompt for administrators in Admin Approval Mode' is set to 'Prompt for consent on the secure desktop'")];
            assert(refs_view(refs@) =~= seq![refs@[0]@]);
            Finding::fail("CIS-2.3.7.2", "UAC elevation prompt does not use secure desktop", Severity::Medium, Category::SystemIntegrity, "Without the secure desktop, the UAC prompt appears on the regular desktop where malicious software can spoof it or inject keystrokes. The secure desktop prevents other processes from interacting with the elevation dialog.", "Disabled", "Enabled", "Enable: Computer Configuration > Windows Settings > Security Settings > Local Policies > Security Options > 'User Account Control: Switch to the secure desktop when prompting for elevation' = Enabled.").with_refs(refs)
        }),
        _ => None,
    }
}

fn check_uac_level(v: Option<u32>) -> (f: Option<Finding>)
    ensures
        opt_finding_view(f) == uac_level_finding(v),
{
    match v {
        Some(0) => Some({
            let refs = vec![ComplianceRef::cis("CIS WS2022 2.3.17.6", "Ensure 'User Account Control: Behavior of the elevation prompt for standard users' is set to 'Automatically deny elevation requests'")];
            assert(refs_view(refs@) =~= seq![refs@[0]@]);
            Finding::fail("CIS-2.3.7.3", "UAC is set to 'Never notify' mode", Severity::High, Category::SystemIntegrity, "UAC set to 'Never notify' means no elevation prompts are shown, allowing any process to silently elevate privileges. This is functionally equivalent to disabling UAC.", "Never notify (level 0)", "Notify when apps make changes (level 2 or 3)", "Increase the UAC notification level via the Control Panel or Group Policy.").with_refs(refs)
        }),
        _ => None,
    }
}

/// Appends the finding, if there is one.
pub fn push_present(v: &mut Vec<Finding>, f: Option<Finding>)
    ensures
        findings_view(final(v)@) == findings_view(old(v)@) + present(opt_finding_view(f)),
{
    let ghost before = findings_view(v@);
    match f {
        Some(x) => {
            v.push(x);
            assert(findings_view(v@) =~= before + present(opt_finding_view(Some(x))));
        },
        None => {
            assert(findings_view(v@) =~= before + present(opt_finding_view(None)));
        },
    }
}

/// CIS §2.3.7 — User Account Control.
pub struct UacAnalyzer;

impl Analyzer for UacAnalyzer {
    open spec fn spec_id(&self) -> Seq<char> {
        "cis-2.3.7"@
    }

    open spec fn spec_name(&self) -> Seq<char> {
        "CIS §2.3.7 — User Account Control (UAC)"@
    }

    open spec fn spec_target_os(&self) -> OsTarget {
        OsTarget::Any
    }

    open spec fn spec_findings(&self, info: SystemInfo, host_os: Seq<char>) -> Seq<FindingView> {
        uac_findings(info.security)
    }

    fn id(&self) -> (r: &'static str) {
        "cis-2.3.7"
    }

    fn name(&self) -> (r: &'static str) {
        "CIS §2.3.7 — User Account Control (UAC)"
    }

    fn target_os(&self) -> (r: OsTarget) {
        OsTarget::Any
    }

    fn analyze(&self, info: &SystemInfo, host_os: &str) -> (r: Result<Vec<Finding>, HuginnError>)
        ensures
            r is Ok,
    {
        let sec = &info.security;
        let mut findings: Vec<Finding> = Vec::new();
        assert(findings_view(findings@) =~= Seq::<FindingView>::empty());
        push_present(&mut findings, check_uac_enabled(sec.uac_enabled));
        push_present(&mut findings, check_secure_desktop(sec.secure_desktop));
        push_present(&mut findings, check_uac_level(sec.uac_level));
        assert(findings_view(findings@) =~= uac_findings(*sec));
        Ok(findings)
    }
}

/// CIS 8.1.1: failed when LSA protection is off, passed when on, none when unknown.
pub open spec fn lsa_finding(v: Option<bool>) -> Option<FindingView> {
    match v {
        Some(false) => Some(with_refs_view(fail_view("CIS-8.1.1"@, "LSA Protection (RunAsPPL) is not enabled"@, Severity::High, Category::SystemIntegrity, "Without LSA protection, tools like Mimikatz can read credentials from LSASS memory using standard user-mode APIs. Enabling PPL (Protected Process Light) prevents non-protected processes from accessing LSASS memory, significantly raising the bar for credential theft."@, "Disabled"@, "Enabled (RunAsPPL = 1)"@, "Enable LSA protection via registry: HKLM\\SYSTEM\\CurrentControlSet\\ Control\\Lsa\\RunAsPPL = 1 (DWORD). A reboot is required. Also configure via Group Policy: Computer Configuration > Administrative Templates > System > Local Security Authority > 'Configure LSASS to run as a protected process'."@), seq![cis_ref("CIS WS2022 18.3.2"@, "Ensure 'Configure LSASS to run as a protected process' is set to 'Enabled: Enabled with UEFI Lock'"@), nist_ref("NIST SI-7"@, "Software, Firmware, and Information Integrity"@)])),
        Some(true) => Some(pass_view("CIS-8.1.1"@, "LSA Protection (RunAsPPL) is enabled"@, Category::SystemIntegrity)),
        None => None,
    }
}

/// CIS 8.1.2: failed when Credential Guard is off.
pub open spec fn credential_guard_finding(v: Option<bool>) -> Option<FindingView> {
    match v {
        Some(false) => Some(with_refs_view(fail_view("CIS-8.1.2"@, "Windows Credential Guard is not enabled"@, Severity::High, Category::SystemIntegrity, "Credential Guard uses hardware-based virtualization to protect credentials in an isolated environment. Without it, domain credentials stored in LSASS can be extracted by attackers with local admin access."@, "Disabled"@, "Enabled"@, "Enable Credential Guard via Group Policy: Computer Configuration > Administrative Templates > System > Device Guard > 'Turn On Virtualization Based Security'. Requires VBS-capable hardware (TPM 2.0, UEFI Secure Boot)."@), seq![cis_ref("CIS WS2022 18.9.4.1"@, "Ensure 'Turn On Virtualization Based Security' is set to 'Enabled'"@), nist_ref("NIST AC-17(2)"@, "Remote Access | Protection of Confidentiality and Integrity Using Encryption"@)])),
        _ => None,
    }
}

/// CIS 5.1 and 5.2: failed when Defender is disabled; when it is enabled,
/// failed when real-time protection is known to be off.
pub open spec fn defender_finding(enabled: Option<bool>, real_time: Option<bool>) -> Option<FindingView> {
    match enabled {
        Some(false) => Some(with_refs_view(fail_view("CIS-5.1"@, "Windows Defender is disabled"@, Severity::Critical, Category::SoftwareSecurity, "Windows Defender provides real-time malware protection. Disabling it leaves the system without any built-in malware detection and response capabilities."@, "Disabled"@, "Enabled"@, "Enable Windows Defender via Windows Security settings or Group Policy: Computer Configuration > Administrative Templates > Windows Components > Microsoft Defender Antivirus > 'Turn off Microsoft Defender Antivirus'."@), seq![nist_ref("NIST SI-3"@, "Malicious Code Protection"@)])),
        Some(true) => if real_time == Some(false) {
            Some(with_refs_view(fail_view("CIS-5.2"@, "Windows Defender real-time protection is disabled"@, Severity::High, Category::SoftwareSecurity, "Real-time protection monitors the system continuously for malware. Without it, threats are only detected on scheduled scans or manual inspection."@, "Real-time protection disabled"@, "Real-time protection enabled"@, "Enable real-time protection in Windows Security settings or via registry: HKLM\\SOFTWARE\\Policies\\Microsoft\\Windows Defender\\ Real-Time Protection\\DisableRealtimeMonitoring = 0."@), seq![nist_ref("NIST SI-3(1)"@, "Malicious Code Protection | Central Management"@)]))
        } else {
            None
        },
        None => None,
    }
}

/// The LSA findings, in the order 8.1.1, 8.1.2, 5.x, each where it applies.
pub open spec fn lsa_findings(sec: SecurityPolicies) -> Seq<FindingView> {
    present(lsa_finding(sec.lsa_protection)) + present(credential_guard_finding(sec.credential_guard))
        + present(defender_finding(sec.defender_enabled, sec.defender_real_time))
}

fn check_lsa(v: Option<bool>) -> (f: Option<Finding>)
    ensures
        opt_finding_view(f) == lsa_finding(v),
{
    match v {
        Some(false) => Some({
            let refs = vec![ComplianceRef::cis("CIS WS2022 18.3.2", "Ensure 'Configure LSASS to run as a protected process' is set to 'Enabled: Enabled with UEFI Lock'"), ComplianceRef::nist("NIST SI-7", "Software, Firmware, and Information Integrity")];
            assert(refs_view(refs@) =~= seq![refs@[0]@, refs@[1]@]);
            Finding::fail("CIS-8.1.1", "LSA Protection (RunAsPPL) is not enabled", Severity::High, Category::SystemIntegrity, "Without LSA protection, tools like Mimikatz can read credentials from LSASS memory using standard user-mode APIs. Enabling PPL (Protected Process Light) prevents non-protected processes from accessing LSASS memory, significantly raising the bar for credential theft.", "Disabled", "Enabled (RunAsPPL = 1)", "Enable LSA protection via registry: HKLM\\SYSTEM\\CurrentControlSet\\ Control\\Lsa\\RunAsPPL = 1 (DWORD). A reboot is required. Also configure via Group Policy: Computer Configuration > Administrative Templates > System > Local Security Authority > 'Configure LSASS to run as a protected process'.").with_refs(refs)
        }),
        Some(true) => Some(Finding::pass("CIS-8.1.1", "LSA Protection (RunAsPPL) is enabled", Category::SystemIntegrity)),
        None => None,
    }
}

fn check_credential_guard(v: Option<bool>) -> (f: Option<Finding>)
    ensures
        opt_finding_view(f) == credential_guard_finding(v),
{
    match v {
        Some(false) => Some({
            let refs = vec![ComplianceRef::cis("CIS WS2022 18.9.4.1", "Ensure 'Turn On Virtualization Based Security' is set to 'Enabled'"), ComplianceRef::nist("NIST AC-17(2)", "Remote Access | Protection of Confidentiality and Integrity Using Encryption")];
            assert(refs_view(refs@) =~= seq![refs@[0]@, refs@[1]@]);
            Finding::fail("CIS-8.1.2", "Windows Credential Guard is not enabled", Severity::High, Category::SystemIntegrity, "Credential Guard uses hardware-based virtualization to protect credentials in an isolated environment. Without it, domain credentials stored in LSASS can be extracted by attackers with local admin access.", "Disabled", "Enabled", "Enable Credential Guard via Group Policy: Computer Configuration > Administrative Templates > System > Device Guard > 'Turn On Virtualization Based Security'. Requires VBS-capable hardware (TPM 2.0, UEFI Secure Boot).").with_refs(refs)
        }),
        _ => None,
    }
}

fn check_defender(enabled: Option<bool>, real_time: Option<bool>) -> (f: Option<Finding>)
    ensures
        opt_finding_view(f) == defender_finding(enabled, real_time),
{
    match enabled {
        Some(false) => Some({
            let refs = vec![ComplianceRef::nist("NIST SI-3", "Malicious Code Protection")];
            assert(refs_view(refs@) =~= seq![refs@[0]@]);
            Finding::fail("CIS-5.1", "Windows Defender is disabled", Severity::Critical, Category::SoftwareSecurity, "Windows Defender provides real-time malware protection. Disabling it leaves the system without any built-in malware detection and response capabilities.", "Disabled", "Enabled", "Enable Windows Defender via Windows Security settings or Group Policy: Computer Configuration > Administrative Templates > Windows Components > Microsoft Defender Antivirus > 'Turn off Microsoft Defender Antivirus'.").with_refs(refs)
        }),
        Some(true) => if real_time == Some(false) {
            Some({
                let refs = vec![ComplianceRef::nist("NIST SI-3(1)", "Malicious Code Protection | Central Management")];
                assert(refs_view(refs@) =~= seq![refs@[0]@]);
                Finding::fail("CIS-5.2", "Windows Defender real-time protection is disabled", Severity::High, Category::SoftwareSecurity, "Real-time protection monitors the system continuously for malware. Without it, threats are only detected on scheduled scans or manual inspection.", "Real-time protection disabled", "Real-time protection enabled", "Enable real-time protection in Windows Security settings or via registry: HKLM\\SOFTWARE\\Policies\\Microsoft\\Windows Defender\\ Real-Time Protection\\DisableRealtimeMonitoring = 0.").with_refs(refs)
            })
        } else {
            None
        },
        None => None,
    }
}

/// CIS §2.3.11 — LSA protection, Credential Guard and Windows Defender.
pub struct LsaProtectionAnalyzer;

impl Analyzer for LsaProtectionAnalyzer {
    open spec fn spec_id(&self) -> Seq<char> {
        "cis-2.3.11"@
    }

    open spec fn spec_name(&self) -> Seq<char> {
        "CIS §2.3.11 — LSA Protection"@
    }

    open spec fn spec_target_os(&self) -> OsTarget {
        OsTarget::Any
    }

    open spec fn spec_findings(&self, info: SystemInfo, host_os: Seq<char>) -> Seq<FindingView> {
        lsa_findings(info.security)
    }

    fn id(&self) -> (r: &'static str) {
        "cis-2.3.11"
    }

    fn name(&self) -> (r: &'static str) {
        "CIS §2.3.11 — LSA Protection"
    }

    fn target_os(&self) -> (r: OsTarget) {
        OsTarget::Any
    }

    fn analyze(&self, info: &SystemInfo, host_os: &str) -> (r: Result<Vec<Finding>, HuginnError>)
        ensures
            r is Ok,
    {
        let sec = &info.security;
        let mut findings: Vec<Finding> = Vec::new();
        assert(findings_view(findings@) =~= Seq::<FindingView>::empty());
        push_present(&mut findings, check_lsa(sec.lsa_protection));
        push_present(&mut findings, check_credential_guard(sec.credential_guard));
        push_present(&mut findings, check_defender(sec.defender_enabled, sec.defender_real_time));
        assert(findings_view(findings@) =~= lsa_findings(*sec));
        Ok(findings)
    }
}

/// The UAC findings, in this order and each only where it applies:
/// CIS-2.3.7.1 when UAC's state is known, failing as critical when UAC is
/// disabled and passing when enabled; CIS-2.3.7.2, failing as medium, when
/// the secure desktop is off; CIS-2.3.7.3, failing as high, when the
/// notification level is 0 (never notify).
pub proof fn lemma_uac_rules(info: SystemInfo, host_os: Seq<char>)
    ensures
        ({
            let fs = UacAnalyzer.spec_findings(info, host_os);
            let sec = info.security;
            let a: int = if sec.uac_enabled is Some { 1 } else { 0 };
            let b: int = if sec.secure_desktop == Some(false) { 1 } else { 0 };
            let c: int = if sec.uac_level == Some(0u32) { 1 } else { 0 };
            &&& fs.len() == a + b + c
            &&& sec.uac_enabled == Some(false) ==> fails_with(fs[0], Severity::Critical) && fs[0].rule_id == "CIS-2.3.7.1"@
            &&& sec.uac_enabled == Some(true) ==> passes(fs[0]) && fs[0].rule_id == "CIS-2.3.7.1"@
            &&& b == 1 ==> fails_with(fs[a], Severity::Medium) && fs[a].rule_id == "CIS-2.3.7.2"@
            &&& c == 1 ==> fails_with(fs[a + b], Severity::High) && fs[a + b].rule_id == "CIS-2.3.7.3"@
        }),
{
}

/// The LSA findings, in this order and each only where it applies:
/// CIS-8.1.1 when LSA protection's state is known, failing as high when it
/// is off and passing when on; CIS-8.1.2, failing as high, when Credential
/// Guard is off; CIS-5.1, failing as critical, when Defender is disabled,
/// or else CIS-5.2, failing as high, when Defender is enabled without
/// real-time protection.
pub proof fn lemma_lsa_rules(info: SystemInfo, host_os: Seq<char>)
    ensures
        ({
            let fs = LsaProtectionAnalyzer.spec_findings(info, host_os);
            let sec = info.security;
            let a: int = if sec.lsa_protection is Some { 1 } else { 0 };
            let b: int = if sec.credential_guard == Some(false) { 1 } else { 0 };
            let c: int = if sec.defender_enabled == Some(false) || (sec.defender_enabled == Some(true)
                && sec.defender_real_time == Some(false)) { 1 } else { 0 };
            &&& fs.len() == a + b + c
            &&& sec.lsa_protection == Some(false) ==> fails_with(fs[0], Severity::High) && fs[0].rule_id == "CIS-8.1.1"@
            &&& sec.lsa_protection == Some(true) ==> passes(fs[0]) && fs[0].rule_id == "CIS-8.1.1"@
            &&& b == 1 ==> fails_with(fs[a], Severity::High) && fs[a].rule_id == "CIS-8.1.2"@
            &&& sec.defender_enabled == Some(false) ==> fails_with(fs[a + b], Severity::Critical) && fs[a + b].rule_id == "CIS-5.1"@
            &&& sec.defender_enabled == Some(true) && sec.defender_real_time == Some(false) ==> fails_with(
                fs[a + b],
                Severity::High,
            ) && fs[a + b].rule_id == "CIS-5.2"@
        }),
{
}

} // verus!
