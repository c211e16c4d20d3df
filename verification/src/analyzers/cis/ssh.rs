//! SSH server hardening (Linux hosts), from the settings of `sshd_config`.
use vstd::prelude::*;

use crate::analyzers::{Analyzer, OsTarget};
use crate::error::HuginnError;
use crate::models::finding::{
    cis_ref, fail_view, fails_with, is_skipped, passes, findings_view, nist_ref, opt_finding_view, pass_view, present, refs_view,
    skip_view, with_refs_view, Category, ComplianceRef, Finding, FindingView,
    Severity,
};
use crate::models::system_info::{lookup, lookup_spec, SystemInfo};
use crate::num::{parse_u32, parse_u32_spec};
use crate::text::{concat, decimal, str_eq, to_chars};

verus! {

/// SSH-1: root login must not be allowed with a password.
pub open spec fn ssh1_finding(value: Option<Seq<char>>) -> FindingView {
    match value {
        None => skip_view("SSH-1"@, "SSH PermitRootLogin — not configured"@, "PermitRootLogin directive is absent from sshd_config; sshd will use its compiled-in default."@, Category::NetworkSecurity),
        Some(s) => if s == "yes"@ {
            with_refs_view(fail_view("SSH-1"@, "SSH allows root login with password"@, Severity::Critical, Category::NetworkSecurity, "PermitRootLogin yes allows direct SSH login as root. A successful brute-force or credential-stuffing attack immediately yields full system access."@, "PermitRootLogin yes"@, "no or prohibit-password"@, "Set 'PermitRootLogin no' (or 'prohibit-password' to allow key-only root login) in /etc/ssh/sshd_config, then run 'systemctl restart sshd'."@), seq![cis_ref("CIS Ubuntu 22.04 5.2.7"@, "Ensure SSH root login is disabled"@), nist_ref("NIST AC-6(9)"@, "Least Privilege | Log Use of Privileged Functions"@)])
        } else if s == "prohibit-password"@ || s == "without-password"@ {
            pass_view("SSH-1"@, "SSH root login restricted to key-based authentication"@, Category::NetworkSecurity)
        } else if s == "no"@ {
            pass_view("SSH-1"@, "SSH root login is disabled"@, Category::NetworkSecurity)
        } else {
            fail_view("SSH-1"@, "SSH PermitRootLogin has an unexpected value"@, Severity::Medium, Category::NetworkSecurity, "The PermitRootLogin value is non-standard; verify it restricts root access."@, "PermitRootLogin "@ + s, "no or prohibit-password"@, "Set 'PermitRootLogin no' in /etc/ssh/sshd_config."@)
        },
    }
}

fn check_ssh1(cfg: &Vec<(String, String)>) -> (f: Finding)
    ensures
        f@ == ssh1_finding(lookup_spec(cfg@, "permitrootlogin"@)),
{
    match lookup(cfg, "permitrootlogin") {
        None => Finding::skip("SSH-1", "SSH PermitRootLogin — not configured", "PermitRootLogin directive is absent from sshd_config; sshd will use its compiled-in default.", Category::NetworkSecurity),
        Some(v) => if str_eq(v.as_str(), "yes") {
            {
                let refs = vec![ComplianceRef::cis("CIS Ubuntu 22.04 5.2.7", "Ensure SSH root login is disabled"), ComplianceRef::nist("NIST AC-6(9)", "Least Privilege | Log Use of Privileged Functions")];
                assert(refs_view(refs@) =~= seq![refs@[0]@, refs@[1]@]);
                Finding::fail("SSH-1", "SSH allows root login with password", Severity::Critical, Category::NetworkSecurity, "PermitRootLogin yes allows direct SSH login as root. A successful brute-force or credential-stuffing attack immediately yields full system access.", "PermitRootLogin yes", "no or prohibit-password", "Set 'PermitRootLogin no' (or 'prohibit-password' to allow key-only root login) in /etc/ssh/sshd_config, then run 'systemctl restart sshd'.").with_refs(refs)
            }
        } else if str_eq(v.as_str(), "prohibit-password") || str_eq(v.as_str(), "without-password") {
            Finding::pass("SSH-1", "SSH root login restricted to key-based authentication", Category::NetworkSecurity)
        } else if str_eq(v.as_str(), "no") {
            Finding::pass("SSH-1", "SSH root login is disabled", Category::NetworkSecurity)
        } else {
            {
                let current = concat("PermitRootLogin ", v.as_str());
                Finding::fail("SSH-1", "SSH PermitRootLogin has an unexpected value", Severity::Medium, Category::NetworkSecurity, "The PermitRootLogin value is non-standard; verify it restricts root access.", current.as_str(), "no or prohibit-password", "Set 'PermitRootLogin no' in /etc/ssh/sshd_config.")
            }
        },
    }
}

/// SSH-2: password authentication must be disabled; absent means the
/// default, which allows it. Other values give no finding.
pub open spec fn ssh2_finding(value: Option<Seq<char>>) -> Option<FindingView> {
    match value {
        None => Some(with_refs_view(fail_view("SSH-2"@, "SSH allows password-based authentication"@, Severity::High, Category::NetworkSecurity, "Password authentication over SSH exposes the system to brute-force and credential-stuffing attacks. Key-based authentication is significantly more resistant to remote compromise."@, match value { Some(s) => "PasswordAuthentication "@ + s, None => "PasswordAuthentication yes (default)"@ }, "PasswordAuthentication no"@, "Set 'PasswordAuthentication no' in /etc/ssh/sshd_config and ensure all users have SSH keys configured before disabling. Restart sshd afterward."@), seq![cis_ref("CIS Ubuntu 22.04 5.2.11"@, "Ensure SSH PasswordAuthentication is disabled"@), nist_ref("NIST IA-2(1)"@, "Identification and Authentication | Multi-Factor Authentication"@)])),
        Some(s) => if s == "yes"@ {
            Some(with_refs_view(fail_view("SSH-2"@, "SSH allows password-based authentication"@, Severity::High, Category::NetworkSecurity, "Password authentication over SSH exposes the system to brute-force and credential-stuffing attacks. Key-based authentication is significantly more resistant to remote compromise."@, match value { Some(s) => "PasswordAuthentication "@ + s, None => "PasswordAuthentication yes (default)"@ }, "PasswordAuthentication no"@, "Set 'PasswordAuthentication no' in /etc/ssh/sshd_config and ensure all users have SSH keys configured before disabling. Restart sshd afterward."@), seq![cis_ref("CIS Ubuntu 22.04 5.2.11"@, "Ensure SSH PasswordAuthentication is disabled"@), nist_ref("NIST IA-2(1)"@, "Identification and Authentication | Multi-Factor Authentication"@)]))
        } else if s == "no"@ {
            Some(pass_view("SSH-2"@, "SSH password authentication is disabled (key-based only)"@, Category::NetworkSecurity))
        } else {
            None
        },
    }
}

fn ssh2_fail(value: Option<&String>) -> (f: Finding)
    ensures
        f@ == with_refs_view(fail_view("SSH-2"@, "SSH allows password-based authentication"@, Severity::High, Category::NetworkSecurity, "Password authentication over SSH exposes the system to brute-force and credential-stuffing attacks. Key-based authentication is significantly more resistant to remote compromise."@, match (match value { Some(v) => Some(v@), None => None }) { Some(s) => "PasswordAuthentication "@ + s, None => "PasswordAuthentication yes (default)"@ }, "PasswordAuthentication no"@, "Set 'PasswordAuthentication no' in /etc/ssh/sshd_config and ensure all users have SSH keys configured before disabling. Restart sshd afterward."@), seq![cis_ref("CIS Ubuntu 22.04 5.2.11"@, "Ensure SSH PasswordAuthentication is disabled"@), nist_ref("NIST IA-2(1)"@, "Identification and Authentication | Multi-Factor Authentication"@)]),
{
    let current = match value {
        Some(v) => concat("PasswordAuthentication ", v.as_str()),
        None => crate::text::owned("PasswordAuthentication yes (default)"),
    };
    {
        let refs = vec![ComplianceRef::cis("CIS Ubuntu 22.04 5.2.11", "Ensure SSH PasswordAuthentication is disabled"), ComplianceRef::nist("NIST IA-2(1)", "Identification and Authentication | Multi-Factor Authentication")];
        assert(refs_view(refs@) =~= seq![refs@[0]@, refs@[1]@]);
        Finding::fail("SSH-2", "SSH allows password-based authentication", Severity::High, Category::NetworkSecurity, "Password authentication over SSH exposes the system to brute-force and credential-stuffing attacks. Key-based authentication is significantly more resistant to remote compromise.", current.as_str(), "PasswordAuthentication no", "Set 'PasswordAuthentication no' in /etc/ssh/sshd_config and ensure all users have SSH keys configured before disabling. Restart sshd afterward.").with_refs(refs)
    }
}

fn check_ssh2(cfg: &Vec<(String, String)>) -> (f: Option<Finding>)
    ensures
        opt_finding_view(f) == ssh2_finding(lookup_spec(cfg@, "passwordauthentication"@)),
{
    let v = lookup(cfg, "passwordauthentication");
    match v {
        None => Some(ssh2_fail(v)),
        Some(s) => if str_eq(s.as_str(), "yes") {
            Some(ssh2_fail(v))
        } else if str_eq(s.as_str(), "no") {
            Some(Finding::pass("SSH-2", "SSH password authentication is disabled (key-based only)", Category::NetworkSecurity))
        } else {
            None
        },
    }
}

/// SSH-3: empty passwords must not be permitted; absent means the default, which does not permit them. Other values give no finding.
pub open spec fn ssh3_finding(value: Option<Seq<char>>) -> Option<FindingView> {
    match value {
        None => Some(pass_view("SSH-3"@, "SSH empty password authentication is disabled"@, Category::NetworkSecurity)),
        Some(s) => if s == "no"@ {
            Some(pass_view("SSH-3"@, "SSH empty password authentication is disabled"@, Category::NetworkSecurity))
        } else if s == "yes"@ {
            Some(with_refs_view(fail_view("SSH-3"@, "SSH permits login with empty passwords"@, Severity::Critical, Category::NetworkSecurity, "Allowing empty passwords means any account without a password set can be accessed over SSH with no credentials at all."@, "PermitEmptyPasswords yes"@, "PermitEmptyPasswords no"@, "Set 'PermitEmptyPasswords no' in /etc/ssh/sshd_config."@), seq![cis_ref("CIS Ubuntu 22.04 5.2.9"@, "Ensure SSH PermitEmptyPasswords is disabled"@)]))
        } else {
            None
        },
    }
}

fn check_ssh3(cfg: &Vec<(String, String)>) -> (f: Option<Finding>)
    ensures
        opt_finding_view(f) == ssh3_finding(lookup_spec(cfg@, "permitemptypasswords"@)),
{
    match lookup(cfg, "permitemptypasswords") {
        None => Some(Finding::pass("SSH-3", "SSH empty password authentication is disabled", Category::NetworkSecurity)),
        Some(s) => if str_eq(s.as_str(), "no") {
            Some(Finding::pass("SSH-3", "SSH empty password authentication is disabled", Category::NetworkSecurity))
        } else if str_eq(s.as_str(), "yes") {
            Some({
                let refs = vec![ComplianceRef::cis("CIS Ubuntu 22.04 5.2.9", "Ensure SSH PermitEmptyPasswords is disabled")];
                assert(refs_view(refs@) =~= seq![refs@[0]@]);
                Finding::fail("SSH-3", "SSH permits login with empty passwords", Severity::Critical, Category::NetworkSecurity, "Allowing empty passwords means any account without a password set can be accessed over SSH with no credentials at all.", "PermitEmptyPasswords yes", "PermitEmptyPasswords no", "Set 'PermitEmptyPasswords no' in /etc/ssh/sshd_config.").with_refs(refs)
            })
        } else {
            None
        },
    }
}

/// SSH-4: X11 forwarding should be disabled; absent counts as disabled. Other values give no finding.
pub open spec fn ssh4_finding(value: Option<Seq<char>>) -> Option<FindingView> {
    match value {
        None => Some(pass_view("SSH-4"@, "SSH X11 forwarding is disabled"@, Category::NetworkSecurity)),
        Some(s) => if s == "no"@ {
            Some(pass_view("SSH-4"@, "SSH X11 forwarding is disabled"@, Category::NetworkSecurity))
        } else if s == "yes"@ {
            Some(with_refs_view(fail_view("SSH-4"@, "SSH X11 forwarding is enabled"@, Severity::Low, Category::NetworkSecurity, "X11 forwarding allows clients to display graphical applications through the SSH tunnel. If not required, disabling it reduces attack surface — a compromised client could inject X11 events into the server's display."@, "X11Forwarding yes"@, "X11Forwarding no"@, "Set 'X11Forwarding no' in /etc/ssh/sshd_config unless X11 tunneling is a documented requirement."@), seq![cis_ref("CIS Ubuntu 22.04 5.2.6"@, "Ensure SSH X11 forwarding is disabled"@)]))
        } else {
            None
        },
    }
}

fn check_ssh4(cfg: &Vec<(String, String)>) -> (f: Option<Finding>)
    ensures
        opt_finding_view(f) == ssh4_finding(lookup_spec(cfg@, "x11forwarding"@)),
{
    match lookup(cfg, "x11forwarding") {
        None => Some(Finding::pass("SSH-4", "SSH X11 forwarding is disabled", Category::NetworkSecurity)),
        Some(s) => if str_eq(s.as_str(), "no") {
            Some(Finding::pass("SSH-4", "SSH X11 forwarding is disabled", Category::NetworkSecurity))
        } else if str_eq(s.as_str(), "yes") {
            Some({
                let refs = vec![ComplianceRef::cis("CIS Ubuntu 22.04 5.2.6", "Ensure SSH X11 forwarding is disabled")];
                assert(refs_view(refs@) =~= seq![refs@[0]@]);
                Finding::fail("SSH-4", "SSH X11 forwarding is enabled", Severity::Low, Category::NetworkSecurity, "X11 forwarding allows clients to display graphical applications through the SSH tunnel. If not required, disabling it reduces attack surface — a compromised client could inject X11 events into the server's display.", "X11Forwarding yes", "X11Forwarding no", "Set 'X11Forwarding no' in /etc/ssh/sshd_config unless X11 tunneling is a documented requirement.").with_refs(refs)
            })
        } else {
            None
        },
    }
}

/// SSH-5: at most 4 authentication attempts per connection; skipped when
/// the setting is absent or not a number.
pub open spec fn ssh5_finding(value: Option<Seq<char>>) -> FindingView {
    let n = match value {
        Some(s) => parse_u32_spec(s),
        None => None,
    };
    match n {
        None => skip_view("SSH-5"@, "SSH MaxAuthTries — not configured"@, "MaxAuthTries is absent from sshd_config; sshd will use its compiled-in default (6)."@, Category::NetworkSecurity),
        Some(n) => if n > 4 {
            with_refs_view(fail_view("SSH-5"@, "SSH MaxAuthTries is higher than recommended"@, Severity::Low, Category::NetworkSecurity, "A high MaxAuthTries allows more authentication attempts per connection, making slow brute-force attacks more practical."@, "MaxAuthTries "@ + decimal(n as nat), "4 or fewer"@, "Set 'MaxAuthTries 4' (or lower) in /etc/ssh/sshd_config."@), seq![cis_ref("CIS Ubuntu 22.04 5.2.8"@, "Ensure SSH MaxAuthTries is set to 4 or less"@)])
        } else {
            pass_view("SSH-5"@, "SSH MaxAuthTries is within recommended limit"@, Category::NetworkSecurity)
        },
    }
}

fn check_ssh5(cfg: &Vec<(String, String)>) -> (f: Finding)
    ensures
        f@ == ssh5_finding(lookup_spec(cfg@, "maxauthtries"@)),
{
    let n = match lookup(cfg, "maxauthtries") {
        Some(s) => {
            let cs = to_chars(s.as_str());
            parse_u32(cs.as_slice())
        },
        None => None,
    };
    match n {
        None => Finding::skip("SSH-5", "SSH MaxAuthTries — not configured", "MaxAuthTries is absent from sshd_config; sshd will use its compiled-in default (6).", Category::NetworkSecurity),
        Some(n) => if n > 4 {
            {
                let current = crate::analyzers::text_then_num("MaxAuthTries ", n);
                let refs = vec![ComplianceRef::cis("CIS Ubuntu 22.04 5.2.8", "Ensure SSH MaxAuthTries is set to 4 or less")];
                assert(refs_view(refs@) =~= seq![refs@[0]@]);
                Finding::fail("SSH-5", "SSH MaxAuthTries is higher than recommended", Severity::Low, Category::NetworkSecurity, "A high MaxAuthTries allows more authentication attempts per connection, making slow brute-force attacks more practical.", current.as_str(), "4 or fewer", "Set 'MaxAuthTries 4' (or lower) in /etc/ssh/sshd_config.").with_refs(refs)
            }
        } else {
            Finding::pass("SSH-5", "SSH MaxAuthTries is within recommended limit", Category::NetworkSecurity)
        },
    }
}

/// SSH-6: PAM should be used; absent counts as used. Other values give no finding.
pub open spec fn ssh6_finding(value: Option<Seq<char>>) -> Option<FindingView> {
    match value {
        None => Some(pass_view("SSH-6"@, "SSH PAM integration is enabled"@, Category::NetworkSecurity)),
        Some(s) => if s == "yes"@ {
            Some(pass_view("SSH-6"@, "SSH PAM integration is enabled"@, Category::NetworkSecurity))
        } else if s == "no"@ {
            Some(with_refs_view(fail_view("SSH-6"@, "SSH PAM integration is disabled"@, Severity::Medium, Category::NetworkSecurity, "With UsePAM no, SSH bypasses PAM account and session management. This means account lockout policies, MFA modules, and access controls configured in PAM may not apply to SSH sessions."@, "UsePAM no"@, "UsePAM yes"@, "Set 'UsePAM yes' in /etc/ssh/sshd_config to ensure PAM policies (lockout, MFA, session logging) are enforced for SSH sessions."@), seq![nist_ref("NIST IA-2"@, "Identification and Authentication (Organizational Users)"@)]))
        } else {
            None
        },
    }
}

fn check_ssh6(cfg: &Vec<(String, String)>) -> (f: Option<Finding>)
    ensures
        opt_finding_view(f) == ssh6_finding(lookup_spec(cfg@, "usepam"@)),
{
    match lookup(cfg, "usepam") {
        None => Some(Finding::pass("SSH-6", "SSH PAM integration is enabled", Category::NetworkSecurity)),
        Some(s) => if str_eq(s.as_str(), "yes") {
            Some(Finding::pass("SSH-6", "SSH PAM integration is enabled", Category::NetworkSecurity))
        } else if str_eq(s.as_str(), "no") {
            Some({
                let refs = vec![ComplianceRef::nist("NIST IA-2", "Identification and Authentication (Organizational Users)")];
                assert(refs_view(refs@) =~= seq![refs@[0]@]);
                Finding::fail("SSH-6", "SSH PAM integration is disabled", Severity::Medium, Category::NetworkSecurity, "With UsePAM no, SSH bypasses PAM account and session management. This means account lockout policies, MFA modules, and access controls configured in PAM may not apply to SSH sessions.", "UsePAM no", "UsePAM yes", "Set 'UsePAM yes' in /etc/ssh/sshd_config to ensure PAM policies (lockout, MFA, session logging) are enforced for SSH sessions.").with_refs(refs)
            })
        } else {
            None
        },
    }
}

/// The SSH findings: one skip when no setting was read; otherwise SSH-1,
/// SSH-2 to SSH-4 where they apply, SSH-5 and SSH-6 where it applies.
pub open spec fn ssh_findings(cfg: Seq<(String, String)>) -> Seq<FindingView> {
    if cfg.len() == 0 {
        seq![skip_view("SSH-HARDENING"@, "SSH server configuration — data unavailable"@, "No sshd_config file was found or the SSH daemon is not installed."@, Category::NetworkSecurity)]
    } else {
        seq![ssh1_finding(lookup_spec(cfg, "permitrootlogin"@))] + present(
            ssh2_finding(lookup_spec(cfg, "passwordauthentication"@)),
        ) + present(ssh3_finding(lookup_spec(cfg, "permitemptypasswords"@))) + present(
            ssh4_finding(lookup_spec(cfg, "x11forwarding"@)),
        ) + seq![ssh5_finding(lookup_spec(cfg, "maxauthtries"@))] + present(
            ssh6_finding(lookup_spec(cfg, "usepam"@)),
        )
    }
}

fn push_present(v: &mut Vec<Finding>, f: Option<Finding>)
    ensures
        findings_view(final(v)@) == findings_view(old(v)@) + present(opt_finding_view(f)),
{
    let ghost before = findings_view(v@);
    match f {
        Some(x) => {
            v.push(x);
            assert(findings_view(v@) =~= before + present(opt_finding_view(Some(x))));
        },
        None => {
            assert(findings_view(v@) =~= before + present(opt_finding_view(None)));
        },
    }
}

/// SSH server hardening (Linux hosts).
pub struct SshHardeningAnalyzer;

impl Analyzer for SshHardeningAnalyzer {
    open spec fn spec_id(&self) -> Seq<char> {
        "cis-9.ssh"@
    }

    open spec fn spec_name(&self) -> Seq<char> {
        "SSH — Server Hardening"@
    }

    open spec fn spec_target_os(&self) -> OsTarget {
        OsTarget::Linux
    }

    open spec fn spec_findings(&self, info: SystemInfo, host_os: Seq<char>) -> Seq<FindingView> {
        ssh_findings(info.security.ssh_config@)
    }

    fn id(&self) -> (r: &'static str) {
        "cis-9.ssh"
    }

    fn name(&self) -> (r: &'static str) {
        "SSH — Server Hardening"
    }

    fn target_os(&self) -> (r: OsTarget) {
        OsTarget::Linux
    }

    fn analyze(&self, info: &SystemInfo, host_os: &str) -> (r: Result<Vec<Finding>, HuginnError>)
        ensures
            r is Ok,
    {
        let cfg = &info.security.ssh_config;
        let mut findings: Vec<Finding> = Vec::new();
        if cfg.len() == 0 {
            findings.push(Finding::skip("SSH-HARDENING", "SSH server configuration — data unavailable", "No sshd_config file was found or the SSH daemon is not installed.", Category::NetworkSecurity));
            assert(findings_view(findings@) =~= ssh_findings(cfg@));
            return Ok(findings);
        }
        let f1 = check_ssh1(cfg);
        findings.push(f1);
        assert(findings_view(findings@) =~= seq![f1@]);
        push_present(&mut findings, check_ssh2(cfg));
        push_present(&mut findings, check_ssh3(cfg));
        push_present(&mut findings, check_ssh4(cfg));
        let ghost before = findings_view(findings@);
        let f5 = check_ssh5(cfg);
        findings.push(f5);
        assert(findings_view(findings@) =~= before + seq![f5@]);
        push_present(&mut findings, check_ssh6(cfg));
        Ok(findings)
    }
}

proof fn lemma_ssh1_outcome(value: Option<Seq<char>>)
    ensures
        ({
            let f = ssh1_finding(value);
            &&& f.rule_id == "SSH-1"@
            &&& match value {
                Some(v) => {
                    &&& !f.skipped
                    &&& v == "yes"@ ==> !f.passed && f.severity == Severity::Critical
                    &&& (v == "no"@ || v == "prohibit-password"@ || v == "without-password"@) ==> f.passed
                    &&& !(v == "yes"@ || v == "no"@ || v == "prohibit-password"@ || v == "without-password"@)
                        ==> !f.passed && f.severity == Severity::Medium
                },
                None => f.skipped && !f.passed,
            }
        }),
{
    reveal_strlit("yes");
    reveal_strlit("no");
    reveal_strlit("prohibit-password");
    reveal_strlit("without-password");
}

/// SSH-1, the first finding where any setting was read: PermitRootLogin
/// `yes` fails as critical; `no`, `prohibit-password` and
/// `without-password` pass; any other value fails as medium; an absent
/// directive is skipped.
pub proof fn lemma_root_login_rule(info: SystemInfo, host_os: Seq<char>)
    requires
        info.security.ssh_config@.len() > 0,
    ensures
        ({
            let fs = SshHardeningAnalyzer.spec_findings(info, host_os);
            let value = lookup_spec(info.security.ssh_config@, "permitrootlogin"@);
            &&& fs.len() >= 1
            &&& fs[0].rule_id == "SSH-1"@
            &&& match value {
                Some(v) => {
                    &&& !fs[0].skipped
                    &&& v == "yes"@ ==> !fs[0].passed && fs[0].severity == Severity::Critical
                    &&& (v == "no"@ || v == "prohibit-password"@ || v == "without-password"@) ==> fs[0].passed
                    &&& !(v == "yes"@ || v == "no"@ || v == "prohibit-password"@ || v == "without-password"@)
                        ==> !fs[0].passed && fs[0].severity == Severity::Medium
                },
                None => fs[0].skipped && !fs[0].passed,
            }
        }),
{
    let value = lookup_spec(info.security.ssh_config@, "permitrootlogin"@);
    let fs = SshHardeningAnalyzer.spec_findings(info, host_os);
    assert(fs[0] == ssh1_finding(value));
    lemma_ssh1_outcome(value);
}

/// The other SSH rules, each given the value of its directive (absent is
/// `None`):
/// SSH-2 fails as high when PasswordAuthentication is `yes` or absent (the
/// default allows passwords), passes on `no`, and gives nothing otherwise;
/// SSH-3 fails as critical when PermitEmptyPasswords is `yes`, passes on
/// `no` or when absent, and gives nothing otherwise;
/// SSH-4 fails as low when X11Forwarding is `yes`, passes on `no` or when
/// absent, and gives nothing otherwise;
/// SSH-5 fails as low when MaxAuthTries is a number above 4, passes when it
/// is at most 4, and is skipped when absent or not a number;
/// SSH-6 fails as medium when UsePAM is `no`, passes on `yes` or when
/// absent, and gives nothing otherwise.
pub proof fn lemma_other_ssh_rules(
    v2: Option<Seq<char>>,
    v3: Option<Seq<char>>,
    v4: Option<Seq<char>>,
    v5: Option<Seq<char>>,
    v6: Option<Seq<char>>,
)
    ensures
        match ssh2_finding(v2) {
            Some(f) => f.rule_id == "SSH-2"@ && (v2 is None || v2 == Some("yes"@)) == fails_with(f, Severity::High)
                && (v2 == Some("no"@)) == passes(f),
            None => !(v2 is None || v2 == Some("yes"@) || v2 == Some("no"@)),
        },
        match ssh3_finding(v3) {
            Some(f) => f.rule_id == "SSH-3"@ && (v3 == Some("yes"@)) == fails_with(f, Severity::Critical)
                && (v3 is None || v3 == Some("no"@)) == passes(f),
            None => !(v3 is None || v3 == Some("yes"@) || v3 == Some("no"@)),
        },
        match ssh4_finding(v4) {
            Some(f) => f.rule_id == "SSH-4"@ && (v4 == Some("yes"@)) == fails_with(f, Severity::Low)
                && (v4 is None || v4 == Some("no"@)) == passes(f),
            None => !(v4 is None || v4 == Some("yes"@) || v4 == Some("no"@)),
        },
        ({
            let f = ssh5_finding(v5);
            &&& f.rule_id == "SSH-5"@
            &&& match v5 {
                Some(s) => match parse_u32_spec(s) {
                    Some(n) => (n > 4) == fails_with(f, Severity::Low) && (n <= 4) == passes(f),
                    None => is_skipped(f),
                },
                None => is_skipped(f),
            }
        }),
        match ssh6_finding(v6) {
            Some(f) => f.rule_id == "SSH-6"@ && (v6 == Some("no"@)) == fails_with(f, Severity::Medium)
                && (v6 is None || v6 == Some("yes"@)) == passes(f),
            None => !(v6 is None || v6 == Some("yes"@) || v6 == Some("no"@)),
        },
{
    reveal_strlit("yes");
    reveal_strlit("no");
    assert("yes"@ != "no"@) by {
        assert("yes"@.len() != "no"@.len());
    }
}

} // verus!
