//! CIS §9 (firewall profiles) and CIS §18 (SMBv1).
use vstd::prelude::*;

use crate::analyzers::{Analyzer, OsTarget};
use crate::error::HuginnError;
use crate::models::finding::{
    cis_ref, fail_view, fails_with, is_skipped, passes, findings_view, nist_ref, pass_view, refs_view, with_refs_view, Category,
    ComplianceRef, Finding, FindingView, Severity,
};
use crate::models::system_info::{FirewallProfile, SystemInfo};
use crate::text::{
    concat, concat3, contains_seq, replace_char, replace_char_spec, str_contains, str_eq,
    to_lowercase, unicode_lowercase,
};

verus! {

/// The section of CIS WS2022 §9 for a profile's lower-case name.
pub open spec fn profile_section(lname: Seq<char>) -> Seq<char> {
    if lname == "domain"@ {
        "1"@
    } else if lname == "private"@ {
        "2"@
    } else {
        "3"@
    }
}

fn section_of(lname: &str) -> (r: &'static str)
    ensures
        r@ == profile_section(lname@),
{
    if str_eq(lname, "domain") {
        "1"
    } else if str_eq(lname, "private") {
        "2"
    } else {
        "3"
    }
}

/// `CIS-9.` followed by the profile's lower-case name with spaces as dashes.
pub open spec fn profile_rule_id(name: Seq<char>) -> Seq<char> {
    "CIS-9."@ + replace_char_spec(unicode_lowercase(name), ' ', "-"@)
}

pub open spec fn disabled_profile_finding(name: Seq<char>) -> FindingView {
    let lname = unicode_lowercase(name);
    with_refs_view(
        fail_view(
            profile_rule_id(name),
            "Windows Firewall '"@ + name + "' profile is disabled"@,
            if contains_seq(lname, "public"@) {
                Severity::Critical
            } else {
                Severity::High
            },
            Category::FirewallPolicy,
            "The "@ + name
                + " firewall profile is disabled, leaving the system unprotected from network-based attacks in that network context. The Public profile is especially critical as it applies when connected to untrusted networks."@,
            "Disabled"@,
            "Enabled"@,
            "Enable the "@ + name
                + " firewall profile via Windows Defender Firewall with Advanced Security, or via Group Policy: Computer Configuration > Windows Settings > Security Settings > Windows Defender Firewall with Advanced Security > Windows Defender Firewall Properties > "@
                + name + " Profile > Firewall state: On."@,
        ),
        seq![
            cis_ref(
                "CIS WS2022 9."@ + profile_section(lname) + ".1"@,
                "Ensure 'Windows Firewall: "@ + name + " Profile: Firewall state' is set to 'On'"@,
            ),
        ],
    )
}

pub open spec fn inbound_allow_finding(name: Seq<char>) -> FindingView {
    let lname = unicode_lowercase(name);
    with_refs_view(
        fail_view(
            profile_rule_id(name) + "-inbound"@,
            "Windows Firewall '"@ + name + "' profile allows all inbound traffic by default"@,
            Severity::High,
            Category::FirewallPolicy,
            "The firewall is enabled but configured to allow all inbound connections by default. This negates the protective effect of the firewall — only explicitly blocked ports are protected."@,
            name + " profile inbound default: Allow"@,
            "Block (default deny, allow exceptions)"@,
            "Change the "@ + name
                + " profile default inbound action to 'Block'. Allow only specific required ports via firewall rules."@,
        ),
        seq![
            cis_ref(
                "CIS WS2022 9."@ + profile_section(lname) + ".2"@,
                "Ensure 'Windows Firewall: "@ + name
                    + " Profile: Inbound connections' is set to 'Block'"@,
            ),
        ],
    )
}

/// The finding for one firewall profile: failed when the profile is
/// disabled, failed when its default inbound action is allow, passed
/// otherwise.
pub open spec fn profile_finding(p: FirewallProfile) -> FindingView {
    if !p.enabled {
        disabled_profile_finding(p.name@)
    } else if unicode_lowercase(p.inbound_default@) == "allow"@ {
        inbound_allow_finding(p.name@)
    } else {
        pass_view(
            profile_rule_id(p.name@),
            "Windows Firewall '"@ + p.name@ + "' profile is enabled with default block"@,
            Category::FirewallPolicy,
        )
    }
}

/// The firewall findings: one failure when no profile was read, otherwise
/// one finding per profile, in order.
pub open spec fn firewall_findings(profiles: Seq<FirewallProfile>) -> Seq<FindingView> {
    if profiles.len() == 0 {
        seq![
            fail_view(
                "CIS-9.0"@,
                "Firewall status could not be determined"@,
                Severity::Medium,
                Category::FirewallPolicy,
                "Unable to retrieve firewall profile data. This may indicate the firewall management service is not running or access was denied."@,
                "Unknown"@,
                "All profiles enabled with inbound default block"@,
                "Ensure the firewall service is running and re-run with elevated privileges."@,
            ),
        ]
    } else {
        profiles.map_values(|p: FirewallProfile| profile_finding(p))
    }
}

fn check_profile(p: &FirewallProfile) -> (f: Finding)
    ensures
        f@ == profile_finding(*p),
{
    let name = p.name.as_str();
    let lname = to_lowercase(name);
    let dashed = replace_char(lname.as_str(), ' ', "-");
    let rule_id = concat("CIS-9.", dashed.as_str());
    if !p.enabled {
        let severity = if str_contains(lname.as_str(), "public") {
            Severity::Critical
        } else {
            Severity::High
        };
        let title = concat3("Windows Firewall '", name, "' profile is disabled");
        let desc = concat3(
            "The ",
            name,
            " firewall profile is disabled, leaving the system unprotected from network-based attacks in that network context. The Public profile is especially critical as it applies when connected to untrusted networks.",
        );
        let mut rec = concat3(
            "Enable the ",
            name,
            " firewall profile via Windows Defender Firewall with Advanced Security, or via Group Policy: Computer Configuration > Windows Settings > Security Settings > Windows Defender Firewall with Advanced Security > Windows Defender Firewall Properties > ",
        );
        rec.append(name);
        rec.append(" Profile > Firewall state: On.");
        let ref_id = concat3("CIS WS2022 9.", section_of(lname.as_str()), ".1");
        let ref_title = concat3(
            "Ensure 'Windows Firewall: ",
            name,
            " Profile: Firewall state' is set to 'On'",
        );
        let refs = vec![ComplianceRef::cis(ref_id.as_str(), ref_title.as_str())];
        assert(refs_view(refs@) =~= seq![refs@[0]@]);
        Finding::fail(
            rule_id.as_str(),
            title.as_str(),
            severity,
            Category::FirewallPolicy,
            desc.as_str(),
            "Disabled",
            "Enabled",
            rec.as_str(),
        ).with_refs(refs)
    } else {
        let inbound = to_lowercase(p.inbound_default.as_str());
        if str_eq(inbound.as_str(), "allow") {
            let rid = concat(rule_id.as_str(), "-inbound");
            let title = concat3(
                "Windows Firewall '",
                name,
                "' profile allows all inbound traffic by default",
            );
            let current = concat(name, " profile inbound default: Allow");
            let rec = concat3(
                "Change the ",
                name,
                " profile default inbound action to 'Block'. Allow only specific required ports via firewall rules.",
            );
            let ref_id = concat3("CIS WS2022 9.", section_of(lname.as_str()), ".2");
            let ref_title = concat3(
                "Ensure 'Windows Firewall: ",
                name,
                " Profile: Inbound connections' is set to 'Block'",
            );
            let refs = vec![ComplianceRef::cis(ref_id.as_str(), ref_title.as_str())];
            assert(refs_view(refs@) =~= seq![refs@[0]@]);
            Finding::fail(
                rid.as_str(),
                title.as_str(),
                Severity::High,
                Category::FirewallPolicy,
                "The firewall is enabled but configured to allow all inbound connections by default. This negates the protective effect of the firewall — only explicitly blocked ports are protected.",
                current.as_str(),
                "Block (default deny, allow exceptions)",
                rec.as_str(),
            ).with_refs(refs)
        } else {
            let title = concat3(
                "Windows Firewall '",
                name,
                "' profile is enabled with default block",
            );
            Finding::pass(rule_id.as_str(), title.as_str(), Category::FirewallPolicy)
        }
    }
}

/// CIS §9 — firewall profiles.
pub struct FirewallAnalyzer;

impl Analyzer for FirewallAnalyzer {
    open spec fn spec_id(&self) -> Seq<char> {
        "cis-9.fw"@
    }

    open spec fn spec_name(&self) -> Seq<char> {
        "CIS §9 — Windows Firewall"@
    }

    open spec fn spec_target_os(&self) -> OsTarget {
        OsTarget::Any
    }

    open spec fn spec_findings(&self, info: SystemInfo, host_os: Seq<char>) -> Seq<FindingView> {
        firewall_findings(info.network.firewall_profiles@)
    }

    fn id(&self) -> (r: &'static str) {
        "cis-9.fw"
    }

    fn name(&self) -> (r: &'static str) {
        "CIS §9 — Windows Firewall"
    }

    fn target_os(&self) -> (r: OsTarget) {
        OsTarget::Any
    }

    fn analyze(&self, info: &SystemInfo, host_os: &str) -> (r: Result<Vec<Finding>, HuginnError>)
        ensures
            r is Ok,
    {
        let profiles = &info.network.firewall_profiles;
        let mut findings: Vec<Finding> = Vec::new();
        if profiles.len() == 0 {
            findings.push(
                Finding::fail(
                    "CIS-9.0",
                    "Firewall status could not be determined",
                    Severity::Medium,
                    Category::FirewallPolicy,
                    "Unable to retrieve firewall profile data. This may indicate the firewall management service is not running or access was denied.",
                    "Unknown",
                    "All profiles enabled with inbound default block",
                    "Ensure the firewall service is running and re-run with elevated privileges.",
                ),
            );
            assert(findings_view(findings@) =~= firewall_findings(profiles@));
            return Ok(findings);
        }
        let mut i: usize = 0;
        while i < profiles.len()
            invariant
                i <= profiles.len(),
                findings_view(findings@) == profiles@.take(i as int).map_values(
                    |p: FirewallProfile| profile_finding(p),
                ),
            decreases profiles.len() - i,
        {
            let f = check_profile(&profiles[i]);
            let ghost before = findings_view(findings@);
            findings.push(f);
            assert(findings_view(findings@) =~= before.push(f@));
            assert(profiles@.take(i + 1).map_values(|p: FirewallProfile| profile_finding(p))
                =~= profiles@.take(i as int).map_values(|p: FirewallProfile| profile_finding(p)).push(
                profile_finding(profiles@[i as int]),
            ));
            i = i + 1;
        }
        assert(profiles@.take(profiles.len() as int) =~= profiles@);
        Ok(findings)
    }
}

/// The SMBv1 finding: failed when SMBv1 is enabled, passed when it is
/// disabled, none when its state is unknown.
pub open spec fn smb_v1_findings(enabled: Option<bool>) -> Seq<FindingView> {
    match enabled {
        Some(true) => seq![
            with_refs_view(
                fail_view(
                    "CIS-18.3.3"@,
                    "SMBv1 protocol is enabled"@,
                    Severity::High,
                    Category::NetworkSecurity,
                    "SMBv1 is a legacy protocol with multiple critical vulnerabilities, most notably exploited by the EternalBlue/WannaCry ransomware campaign. SMBv1 does not support modern security features like encryption, pre-authentication integrity, or secure dialects. There is virtually no legitimate reason to have it enabled in any modern environment."@,
                    "SMBv1 enabled"@,
                    "SMBv1 disabled"@,
                    "Disable SMBv1 on Windows via PowerShell (requires reboot): Set-SmbServerConfiguration -EnableSMB1Protocol $false. Or via DISM: dism /online /norestart /disable-feature /featurename:SMB1Protocol. On Linux/Samba, set 'min protocol = SMB2' in smb.conf."@,
                ),
                seq![
                    cis_ref(
                        "CIS WS2022 18.3.3"@,
                        "Ensure 'Configure use of passwords for fixed data drives' is set to 'Enabled'"@,
                    ),
                    cis_ref("MS-L1"@, "Disable SMBv1: Microsoft Security Advisory 2696547"@),
                    nist_ref(
                        "NIST CM-7(2)"@,
                        "Least Functionality | Prevent Use of Functions/Ports/Protocols/Services"@,
                    ),
                ],
            ),
        ],
        Some(false) => seq![
            pass_view("CIS-18.3.3"@, "SMBv1 protocol is disabled"@, Category::NetworkSecurity),
        ],
        None => Seq::empty(),
    }
}

/// CIS §18 — SMBv1.
pub struct SmbV1Analyzer;

impl Analyzer for SmbV1Analyzer {
    open spec fn spec_id(&self) -> Seq<char> {
        "cis-18.smbv1"@
    }

    open spec fn spec_name(&self) -> Seq<char> {
        "CIS §18 — SMBv1 Protocol"@
    }

    open spec fn spec_target_os(&self) -> OsTarget {
        OsTarget::Any
    }

    open spec fn spec_findings(&self, info: SystemInfo, host_os: Seq<char>) -> Seq<FindingView> {
        smb_v1_findings(info.security.smb_v1_enabled)
    }

    fn id(&self) -> (r: &'static str) {
        "cis-18.smbv1"
    }

    fn name(&self) -> (r: &'static str) {
        "CIS §18 — SMBv1 Protocol"
    }

    fn target_os(&self) -> (r: OsTarget) {
        OsTarget::Any
    }

    fn analyze(&self, info: &SystemInfo, host_os: &str) -> (r: Result<Vec<Finding>, HuginnError>)
        ensures
            r is Ok,
    {
        let mut findings: Vec<Finding> = Vec::new();
        match info.security.smb_v1_enabled {
            Some(true) => {
                let refs = vec![
                    ComplianceRef::cis(
                        "CIS WS2022 18.3.3",
                        "Ensure 'Configure use of passwords for fixed data drives' is set to 'Enabled'",
                    ),
                    ComplianceRef::cis("MS-L1", "Disable SMBv1: Microsoft Security Advisory 2696547"),
                    ComplianceRef::nist(
                        "NIST CM-7(2)",
                        "Least Functionality | Prevent Use of Functions/Ports/Protocols/Services",
                    ),
                ];
                assert(refs_view(refs@) =~= seq![refs@[0]@, refs@[1]@, refs@[2]@]);
                findings.push(
                    Finding::fail(
                        "CIS-18.3.3",
                        "SMBv1 protocol is enabled",
                        Severity::High,
                        Category::NetworkSecurity,
                        "SMBv1 is a legacy protocol with multiple critical vulnerabilities, most notably exploited by the EternalBlue/WannaCry ransomware campaign. SMBv1 does not support modern security features like encryption, pre-authentication integrity, or secure dialects. There is virtually no legitimate reason to have it enabled in any modern environment.",
                        "SMBv1 enabled",
                        "SMBv1 disabled",
                        "Disable SMBv1 on Windows via PowerShell (requires reboot): Set-SmbServerConfiguration -EnableSMB1Protocol $false. Or via DISM: dism /online /norestart /disable-feature /featurename:SMB1Protocol. On Linux/Samba, set 'min protocol = SMB2' in smb.conf.",
                    ).with_refs(refs),
                );
            },
            Some(false) => {
                findings.push(
                    Finding::pass(
                        "CIS-18.3.3",
                        "SMBv1 protocol is disabled",
                        Category::NetworkSecurity,
                    ),
                );
            },
            None => {},
        }
        assert(findings_view(findings@) =~= smb_v1_findings(info.security.smb_v1_enabled));
        Ok(findings)
    }
}

/// One firewall finding per profile read: a disabled profile fails, as
/// critical when its lowercase name contains `public` and as high
/// otherwise; an enabled profile whose default inbound action is allow in
/// any letter case (its lowercase form is `allow`) fails with high severity
/// under rule id `CIS-9.<profile>-inbound`; any other enabled profile passes
/// under `CIS-9.<profile>`.
pub proof fn lemma_inbound_allow_rule(info: SystemInfo, host_os: Seq<char>, k: int)
    requires
        0 <= k < info.network.firewall_profiles@.len(),
    ensures
        ({
            let fs = FirewallAnalyzer.spec_findings(info, host_os);
            let p = info.network.firewall_profiles@[k];
            let id = "CIS-9."@ + replace_char_spec(unicode_lowercase(p.name@), ' ', "-"@);
            &&& fs.len() == info.network.firewall_profiles@.len()
            &&& !p.enabled ==> fs[k].rule_id == id && fails_with(
                fs[k],
                if contains_seq(unicode_lowercase(p.name@), "public"@) {
                    Severity::Critical
                } else {
                    Severity::High
                },
            )
            &&& p.enabled && unicode_lowercase(p.inbound_default@) == "allow"@ ==> {
                &&& !fs[k].passed
                &&& !fs[k].skipped
                &&& fs[k].severity == Severity::High
                &&& fs[k].rule_id == id + "-inbound"@
            }
            &&& p.enabled && unicode_lowercase(p.inbound_default@) != "allow"@ ==> fs[k].passed && fs[k].rule_id == id
        }),
{
}

/// SMBv1: one finding, CIS-18.3.3, when its state is known: a high-severity
/// failure when SMBv1 is enabled, a pass when it is disabled; no finding
/// when its state is unknown.
pub proof fn lemma_smb_v1_rule(info: SystemInfo, host_os: Seq<char>)
    ensures
        ({
            let fs = SmbV1Analyzer.spec_findings(info, host_os);
            match info.security.smb_v1_enabled {
                Some(true) => fs.len() == 1 && fails_with(fs[0], Severity::High) && fs[0].rule_id == "CIS-18.3.3"@,
                Some(false) => fs.len() == 1 && passes(fs[0]) && fs[0].rule_id == "CIS-18.3.3"@,
                None => fs.len() == 0,
            }
        }),
{
}

/// With no profile read, the firewall gives a single medium-severity
/// failure, CIS-9.0.
pub proof fn lemma_no_profiles_rule(info: SystemInfo, host_os: Seq<char>)
    requires
        info.network.firewall_profiles@.len() == 0,
    ensures
        ({
            let fs = FirewallAnalyzer.spec_findings(info, host_os);
            fs.len() == 1 && fails_with(fs[0], Severity::Medium) && fs[0].rule_id == "CIS-9.0"@
        }),
{
}

} // verus!
