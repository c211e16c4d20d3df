//! CIS §1.1 (password policy) and §1.2 (account lockout policy).
use vstd::prelude::*;

use crate::analyzers::{num_then, Analyzer, OsTarget};
use crate::error::HuginnError;
use crate::models::finding::{
    cis_ref, fail_view, fails_with, is_skipped, passes, findings_view, nist_ref, pass_view, refs_view, skip_view, with_refs_view,
    Category, ComplianceRef, ComplianceRefView, Finding, FindingView, Severity,
};
use crate::models::system_info::{LockoutPolicy, PasswordPolicy, SystemInfo};
use crate::text::{decimal, str_eq};

verus! {

pub const POLICY_UNAVAILABLE: &'static str = "Password policy data could not be collected on this platform.";

pub const LOCKOUT_UNAVAILABLE: &'static str = "Lockout policy data could not be collected on this platform.";

pub const SECEDIT_HINT_COMPLEXITY: &'static str = "Password complexity setting could not be collected. On Windows, this value lives in the local security policy and typically requires administrator privileges to read (via `secedit /export`). Re-run huginn from an elevated prompt to include this check.";

pub const SECEDIT_HINT_REVERSIBLE: &'static str = "Reversible-encryption setting could not be collected. On Windows, this value lives in the local security policy and typically requires administrator privileges to read (via `secedit /export`). Re-run huginn from an elevated prompt to include this check.";

// ---------------------------------------------------------------------------
// CIS 1.1.1 — minimum password length of at least 14
// ---------------------------------------------------------------------------

pub open spec fn min_length_finding(v: Option<u32>) -> FindingView {
    match v {
        None => skip_view(
            "CIS-1.1.1"@,
            "Minimum password length — data unavailable"@,
            POLICY_UNAVAILABLE@,
            Category::AccountPolicy,
        ),
        Some(n) => if n < 14 {
            with_refs_view(
                fail_view(
                    "CIS-1.1.1"@,
                    "Minimum password length is below recommended threshold"@,
                    Severity::High,
                    Category::AccountPolicy,
                    "Short passwords are easily brute-forced. CIS Benchmark Level 1 requires a minimum of 14 characters to meaningfully resist offline attacks."@,
                    decimal(n as nat) + " characters"@,
                    "14 or more characters"@,
                    "Set 'Minimum password length' to 14 or greater. On Windows: Computer Configuration > Windows Settings > Security Settings > Account Policies > Password Policy. On Linux: edit /etc/security/pwquality.conf and set minlen = 14."@,
                ),
                seq![
                    cis_ref(
                        "CIS WS2022 1.1.1"@,
                        "Ensure 'Minimum password length' is set to '14 or more character(s)'"@,
                    ),
                    nist_ref(
                        "NIST IA-5(1)"@,
                        "Authenticator Management | Password-Based Authentication"@,
                    ),
                ],
            )
        } else {
            pass_view(
                "CIS-1.1.1"@,
                "Minimum password length meets recommended threshold"@,
                Category::AccountPolicy,
            )
        },
    }
}

pub fn check_min_length(v: Option<u32>) -> (f: Finding)
    ensures
        f@ == min_length_finding(v),
{
    match v {
        None => Finding::skip(
            "CIS-1.1.1",
            "Minimum password length — data unavailable",
            POLICY_UNAVAILABLE,
            Category::AccountPolicy,
        ),
        Some(n) => if n < 14 {
            let current = num_then(n, " characters");
            let refs = vec![
                ComplianceRef::cis(
                    "CIS WS2022 1.1.1",
                    "Ensure 'Minimum password length' is set to '14 or more character(s)'",
                ),
                ComplianceRef::nist(
                    "NIST IA-5(1)",
                    "Authenticator Management | Password-Based Authentication",
                ),
            ];
            let f = Finding::fail(
                "CIS-1.1.1",
                "Minimum password length is below recommended threshold",
                Severity::High,
                Category::AccountPolicy,
                "Short passwords are easily brute-forced. CIS Benchmark Level 1 requires a minimum of 14 characters to meaningfully resist offline attacks.",
                current.as_str(),
                "14 or more characters",
                "Set 'Minimum password length' to 14 or greater. On Windows: Computer Configuration > Windows Settings > Security Settings > Account Policies > Password Policy. On Linux: edit /etc/security/pwquality.conf and set minlen = 14.",
            );
            assert(refs_view(refs@) =~= seq![refs@[0]@, refs@[1]@]);
            f.with_refs(refs)
        } else {
            Finding::pass(
                "CIS-1.1.1",
                "Minimum password length meets recommended threshold",
                Category::AccountPolicy,
            )
        },
    }
}

// ---------------------------------------------------------------------------
// CIS 1.1.2 — maximum password age of at most 365 days, and not 0
// ---------------------------------------------------------------------------

pub open spec fn max_age_ref() -> ComplianceRefView {
    cis_ref(
        "CIS WS2022 1.1.2"@,
        "Ensure 'Maximum password age' is set to '365 or fewer days, but not 0'"@,
    )
}

pub open spec fn max_age_finding(v: Option<u32>) -> FindingView {
    match v {
        None => skip_view(
            "CIS-1.1.2"@,
            "Maximum password age — data unavailable"@,
            POLICY_UNAVAILABLE@,
            Category::AccountPolicy,
        ),
        Some(n) => if n == 0 {
            with_refs_view(
                fail_view(
                    "CIS-1.1.2"@,
                    "Passwords are set to never expire"@,
                    Severity::Medium,
                    Category::AccountPolicy,
                    "When passwords never expire, compromised credentials can be used indefinitely. CIS recommends a maximum age of 365 days or less."@,
                    "Passwords never expire (0)"@,
                    "1-365 days"@,
                    "Set 'Maximum password age' to 365 days or fewer. Never set to 0 (never expires) for standard accounts."@,
                ),
                seq![max_age_ref()],
            )
        } else if n > 365 {
            with_refs_view(
                fail_view(
                    "CIS-1.1.2"@,
                    "Maximum password age exceeds recommended limit"@,
                    Severity::Low,
                    Category::AccountPolicy,
                    "Passwords that age beyond 365 days increase exposure from credential compromise going undetected."@,
                    decimal(n as nat) + " days"@,
                    "365 days or fewer"@,
                    "Set 'Maximum password age' to 365 days or fewer."@,
                ),
                seq![max_age_ref()],
            )
        } else {
            pass_view(
                "CIS-1.1.2"@,
                "Maximum password age is within recommended range"@,
                Category::AccountPolicy,
            )
        },
    }
}

fn max_age_refs() -> (r: Vec<ComplianceRef>)
    ensures
        refs_view(r@) == seq![max_age_ref()],
{
    let r = vec![
        ComplianceRef::cis(
            "CIS WS2022 1.1.2",
            "Ensure 'Maximum password age' is set to '365 or fewer days, but not 0'",
        ),
    ];
    assert(refs_view(r@) =~= seq![max_age_ref()]);
    r
}

pub fn check_max_age(v: Option<u32>) -> (f: Finding)
    ensures
        f@ == max_age_finding(v),
{
    match v {
        None => Finding::skip(
            "CIS-1.1.2",
            "Maximum password age — data unavailable",
            POLICY_UNAVAILABLE,
            Category::AccountPolicy,
        ),
        Some(n) => if n == 0 {
            Finding::fail(
                "CIS-1.1.2",
                "Passwords are set to never expire",
                Severity::Medium,
                Category::AccountPolicy,
                "When passwords never expire, compromised credentials can be used indefinitely. CIS recommends a maximum age of 365 days or less.",
                "Passwords never expire (0)",
                "1-365 days",
                "Set 'Maximum password age' to 365 days or fewer. Never set to 0 (never expires) for standard accounts.",
            ).with_refs(max_age_refs())
        } else if n > 365 {
            let current = num_then(n, " days");
            Finding::fail(
                "CIS-1.1.2",
                "Maximum password age exceeds recommended limit",
                Severity::Low,
                Category::AccountPolicy,
                "Passwords that age beyond 365 days increase exposure from credential compromise going undetected.",
                current.as_str(),
                "365 days or fewer",
                "Set 'Maximum password age' to 365 days or fewer.",
            ).with_refs(max_age_refs())
        } else {
            Finding::pass(
                "CIS-1.1.2",
                "Maximum password age is within recommended range",
                Category::AccountPolicy,
            )
        },
    }
}

// ---------------------------------------------------------------------------
// CIS 1.1.3 — password history of at least 24
// ---------------------------------------------------------------------------

pub open spec fn history_finding(v: Option<u32>) -> FindingView {
    match v {
        None => skip_view(
            "CIS-1.1.3"@,
            "Password history count — data unavailable"@,
            POLICY_UNAVAILABLE@,
            Category::AccountPolicy,
        ),
        Some(n) => if n < 24 {
            with_refs_view(
                fail_view(
                    "CIS-1.1.3"@,
                    "Password history count is below recommended minimum"@,
                    Severity::Medium,
                    Category::AccountPolicy,
                    "A low password history count allows users to cycle through a small number of passwords and quickly reuse old ones, negating rotation policies."@,
                    decimal(n as nat) + " passwords remembered"@,
                    "24 or more passwords"@,
                    "Set 'Enforce password history' to 24 or more. On Windows: Computer Configuration > Windows Settings > Security Settings > Account Policies > Password Policy."@,
                ),
                seq![
                    cis_ref(
                        "CIS WS2022 1.1.3"@,
                        "Ensure 'Enforce password history' is set to '24 or more password(s)'"@,
                    ),
                ],
            )
        } else {
            pass_view(
                "CIS-1.1.3"@,
                "Password history count meets recommended minimum"@,
                Category::AccountPolicy,
            )
        },
    }
}

pub fn check_history(v: Option<u32>) -> (f: Finding)
    ensures
        f@ == history_finding(v),
{
    match v {
        None => Finding::skip(
            "CIS-1.1.3",
            "Password history count — data unavailable",
            POLICY_UNAVAILABLE,
            Category::AccountPolicy,
        ),
        Some(n) => if n < 24 {
            let current = num_then(n, " passwords remembered");
            let refs = vec![
                ComplianceRef::cis(
                    "CIS WS2022 1.1.3",
                    "Ensure 'Enforce password history' is set to '24 or more password(s)'",
                ),
            ];
            let f = Finding::fail(
                "CIS-1.1.3",
                "Password history count is below recommended minimum",
                Severity::Medium,
                Category::AccountPolicy,
                "A low password history count allows users to cycle through a small number of passwords and quickly reuse old ones, negating rotation policies.",
                current.as_str(),
                "24 or more passwords",
                "Set 'Enforce password history' to 24 or more. On Windows: Computer Configuration > Windows Settings > Security Settings > Account Policies > Password Policy.",
            );
            assert(refs_view(refs@) =~= seq![refs@[0]@]);
            f.with_refs(refs)
        } else {
            Finding::pass(
                "CIS-1.1.3",
                "Password history count meets recommended minimum",
                Category::AccountPolicy,
            )
        },
    }
}

// ---------------------------------------------------------------------------
// CIS 1.1.4 — password complexity required
// ---------------------------------------------------------------------------

pub open spec fn complexity_finding(v: Option<bool>) -> FindingView {
    match v {
        None => skip_view(
            "CIS-1.1.4"@,
            "Password complexity requirements — data unavailable"@,
            SECEDIT_HINT_COMPLEXITY@,
            Category::AccountPolicy,
        ),
        Some(false) => with_refs_view(
            fail_view(
                "CIS-1.1.4"@,
                "Password complexity requirements are disabled"@,
                Severity::High,
                Category::AccountPolicy,
                "Without complexity requirements, users can set trivially guessable passwords. Complexity requirements ensure passwords contain a mix of character types."@,
                "Disabled"@,
                "Enabled"@,
                "Enable 'Password must meet complexity requirements'. On Windows: Computer Configuration > Windows Settings > Security Settings > Account Policies > Password Policy. On Linux: configure pam_pwquality with dcredit=-1 ucredit=-1 ocredit=-1 lcredit=-1."@,
            ),
            seq![
                cis_ref(
                    "CIS WS2022 1.1.4"@,
                    "Ensure 'Password must meet complexity requirements' is set to 'Enabled'"@,
                ),
            ],
        ),
        Some(true) => pass_view(
            "CIS-1.1.4"@,
            "Password complexity requirements are enabled"@,
            Category::AccountPolicy,
        ),
    }
}

pub fn check_complexity(v: Option<bool>) -> (f: Finding)
    ensures
        f@ == complexity_finding(v),
{
    match v {
        None => Finding::skip(
            "CIS-1.1.4",
            "Password complexity requirements — data unavailable",
            SECEDIT_HINT_COMPLEXITY,
            Category::AccountPolicy,
        ),
        Some(false) => {
            let refs = vec![
                ComplianceRef::cis(
                    "CIS WS2022 1.1.4",
                    "Ensure 'Password must meet complexity requirements' is set to 'Enabled'",
                ),
            ];
            let f = Finding::fail(
                "CIS-1.1.4",
                "Password complexity requirements are disabled",
                Severity::High,
                Category::AccountPolicy,
                "Without complexity requirements, users can set trivially guessable passwords. Complexity requirements ensure passwords contain a mix of character types.",
                "Disabled",
                "Enabled",
                "Enable 'Password must meet complexity requirements'. On Windows: Computer Configuration > Windows Settings > Security Settings > Account Policies > Password Policy. On Linux: configure pam_pwquality with dcredit=-1 ucredit=-1 ocredit=-1 lcredit=-1.",
            );
            assert(refs_view(refs@) =~= seq![refs@[0]@]);
            f.with_refs(refs)
        },
        Some(true) => Finding::pass(
            "CIS-1.1.4",
            "Password complexity requirements are enabled",
            Category::AccountPolicy,
        ),
    }
}

// ---------------------------------------------------------------------------
// CIS 1.1.5 — reversible password encryption disabled (Windows hosts only)
// ---------------------------------------------------------------------------

pub open spec fn reversible_finding(v: Option<bool>) -> FindingView {
    match v {
        None => skip_view(
            "CIS-1.1.5"@,
            "Reversible password encryption — data unavailable"@,
            SECEDIT_HINT_REVERSIBLE@,
            Category::AccountPolicy,
        ),
        Some(true) => with_refs_view(
            fail_view(
                "CIS-1.1.5"@,
                "Passwords stored with reversible encryption"@,
                Severity::Critical,
                Category::AccountPolicy,
                "Storing passwords with reversible encryption is essentially the same as storing them in plaintext. This setting should never be enabled in production environments."@,
                "Enabled"@,
                "Disabled"@,
                "Disable 'Store passwords using reversible encryption'. This setting should only ever be enabled for specific legacy application compatibility and disabled immediately after."@,
            ),
            seq![
                cis_ref(
                    "CIS WS2022 1.1.5"@,
                    "Ensure 'Store passwords using reversible encryption' is set to 'Disabled'"@,
                ),
                nist_ref(
                    "NIST IA-5(1)(c)"@,
                    "Authenticator Management | Encrypted Transmission"@,
                ),
            ],
        ),
        Some(false) => pass_view(
            "CIS-1.1.5"@,
            "Reversible password encryption is disabled"@,
            Category::AccountPolicy,
        ),
    }
}

pub fn check_reversible(v: Option<bool>) -> (f: Finding)
    ensures
        f@ == reversible_finding(v),
{
    match v {
        None => Finding::skip(
            "CIS-1.1.5",
            "Reversible password encryption — data unavailable",
            SECEDIT_HINT_REVERSIBLE,
            Category::AccountPolicy,
        ),
        Some(true) => {
            let refs = vec![
                ComplianceRef::cis(
                    "CIS WS2022 1.1.5",
                    "Ensure 'Store passwords using reversible encryption' is set to 'Disabled'",
                ),
                ComplianceRef::nist(
                    "NIST IA-5(1)(c)",
                    "Authenticator Management | Encrypted Transmission",
                ),
            ];
            let f = Finding::fail(
                "CIS-1.1.5",
                "Passwords stored with reversible encryption",
                Severity::Critical,
                Category::AccountPolicy,
                "Storing passwords with reversible encryption is essentially the same as storing them in plaintext. This setting should never be enabled in production environments.",
                "Enabled",
                "Disabled",
                "Disable 'Store passwords using reversible encryption'. This setting should only ever be enabled for specific legacy application compatibility and disabled immediately after.",
            );
            assert(refs_view(refs@) =~= seq![refs@[0]@, refs@[1]@]);
            f.with_refs(refs)
        },
        Some(false) => Finding::pass(
            "CIS-1.1.5",
            "Reversible password encryption is disabled",
            Category::AccountPolicy,
        ),
    }
}

/// The password-policy findings: CIS 1.1.1 to 1.1.4, then CIS 1.1.5 when the
/// analysis runs on Windows.
pub open spec fn password_policy_findings(p: PasswordPolicy, host_os: Seq<char>) -> Seq<
    FindingView,
> {
    let common = seq![
        min_length_finding(p.min_length),
        max_age_finding(p.max_age_days),
        history_finding(p.history_count),
        complexity_finding(p.complexity_required),
    ];
    if host_os == "windows"@ {
        common.push(reversible_finding(p.reversible_encryption))
    } else {
        common
    }
}

/// CIS §1.1 — password policy.
pub struct PasswordPolicyAnalyzer;

impl Analyzer for PasswordPolicyAnalyzer {
    open spec fn spec_id(&self) -> Seq<char> {
        "cis-1.1"@
    }

    open spec fn spec_name(&self) -> Seq<char> {
        "CIS §1.1 — Password Policy"@
    }

    open spec fn spec_target_os(&self) -> OsTarget {
        OsTarget::Any
    }

    open spec fn spec_findings(&self, info: SystemInfo, host_os: Seq<char>) -> Seq<FindingView> {
        password_policy_findings(info.users.password_policy, host_os)
    }

    fn id(&self) -> (r: &'static str) {
        "cis-1.1"
    }

    fn name(&self) -> (r: &'static str) {
        "CIS §1.1 — Password Policy"
    }

    fn target_os(&self) -> (r: OsTarget) {
        OsTarget::Any
    }

    fn analyze(&self, info: &SystemInfo, host_os: &str) -> (r: Result<Vec<Finding>, HuginnError>)
        ensures
            r is Ok,
    {
        let policy = &info.users.password_policy;
        let mut findings: Vec<Finding> = Vec::new();
        findings.push(check_min_length(policy.min_length));
        findings.push(check_max_age(policy.max_age_days));
        findings.push(check_history(policy.history_count));
        findings.push(check_complexity(policy.complexity_required));
        let ghost common = findings_view(findings@);
        if str_eq(host_os, "windows") {
            findings.push(check_reversible(policy.reversible_encryption));
            assert(findings_view(findings@) =~= common.push(
                reversible_finding(policy.reversible_encryption),
            ));
        }
        assert(common =~= seq![
            min_length_finding(policy.min_length),
            max_age_finding(policy.max_age_days),
            history_finding(policy.history_count),
            complexity_finding(policy.complexity_required),
        ]);
        Ok(findings)
    }
}

// ---------------------------------------------------------------------------
// CIS 1.2.1 — lockout threshold of at most 5, and not 0
// ---------------------------------------------------------------------------

pub open spec fn threshold_ref() -> ComplianceRefView {
    cis_ref(
        "CIS WS2022 1.2.1"@,
        "Ensure 'Account lockout threshold' is set to '5 or fewer invalid logon attempt(s), but not 0'"@,
    )
}

pub open spec fn threshold_finding(v: Option<u32>) -> FindingView {
    match v {
        None => skip_view(
            "CIS-1.2.1"@,
            "Account lockout threshold — data unavailable"@,
            LOCKOUT_UNAVAILABLE@,
            Category::AccountPolicy,
        ),
        Some(n) => if n == 0 {
            with_refs_view(
                fail_view(
                    "CIS-1.2.1"@,
                    "Account lockout is disabled (threshold set to 0)"@,
                    Severity::High,
                    Category::AccountPolicy,
                    "With no account lockout threshold, an attacker can attempt unlimited password guesses without being locked out, enabling unlimited brute-force attacks against local accounts."@,
                    "0 (never locks out)"@,
                    "5 or fewer invalid attempts"@,
                    "Set 'Account lockout threshold' to 5 or fewer invalid login attempts. This limits brute-force attack windows."@,
                ),
                seq![threshold_ref()],
            )
        } else if n > 5 {
            with_refs_view(
                fail_view(
                    "CIS-1.2.1"@,
                    "Account lockout threshold exceeds recommended maximum"@,
                    Severity::Medium,
                    Category::AccountPolicy,
                    "A high lockout threshold allows more brute-force attempts before locking out an account, increasing the attack surface."@,
                    decimal(n as nat) + " invalid attempts"@,
                    "5 or fewer invalid attempts"@,
                    "Set 'Account lockout threshold' to 5 or fewer invalid login attempts."@,
                ),
                seq![threshold_ref()],
            )
        } else {
            pass_view(
                "CIS-1.2.1"@,
                "Account lockout threshold is within recommended range"@,
                Category::AccountPolicy,
            )
        },
    }
}

fn threshold_refs() -> (r: Vec<ComplianceRef>)
    ensures
        refs_view(r@) == seq![threshold_ref()],
{
    let r = vec![
        ComplianceRef::cis(
            "CIS WS2022 1.2.1",
            "Ensure 'Account lockout threshold' is set to '5 or fewer invalid logon attempt(s), but not 0'",
        ),
    ];
    assert(refs_view(r@) =~= seq![threshold_ref()]);
    r
}

pub fn check_threshold(v: Option<u32>) -> (f: Finding)
    ensures
        f@ == threshold_finding(v),
{
    match v {
        None => Finding::skip(
            "CIS-1.2.1",
            "Account lockout threshold — data unavailable",
            LOCKOUT_UNAVAILABLE,
            Category::AccountPolicy,
        ),
        Some(n) => if n == 0 {
            Finding::fail(
                "CIS-1.2.1",
                "Account lockout is disabled (threshold set to 0)",
                Severity::High,
                Category::AccountPolicy,
                "With no account lockout threshold, an attacker can attempt unlimited password guesses without being locked out, enabling unlimited brute-force attacks against local accounts.",
                "0 (never locks out)",
                "5 or fewer invalid attempts",
                "Set 'Account lockout threshold' to 5 or fewer invalid login attempts. This limits brute-force attack windows.",
            ).with_refs(threshold_refs())
        } else if n > 5 {
            let current = num_then(n, " invalid attempts");
            Finding::fail(
                "CIS-1.2.1",
                "Account lockout threshold exceeds recommended maximum",
                Severity::Medium,
                Category::AccountPolicy,
                "A high lockout threshold allows more brute-force attempts before locking out an account, increasing the attack surface.",
                current.as_str(),
                "5 or fewer invalid attempts",
                "Set 'Account lockout threshold' to 5 or fewer invalid login attempts.",
            ).with_refs(threshold_refs())
        } else {
            Finding::pass(
                "CIS-1.2.1",
                "Account lockout threshold is within recommended range",
                Category::AccountPolicy,
            )
        },
    }
}

// ---------------------------------------------------------------------------
// CIS 1.2.2 — lockout duration of at least 15 minutes
// ---------------------------------------------------------------------------

pub open spec fn duration_finding(v: Option<u32>) -> FindingView {
    match v {
        None => skip_view(
            "CIS-1.2.2"@,
            "Account lockout duration — data unavailable"@,
            LOCKOUT_UNAVAILABLE@,
            Category::AccountPolicy,
        ),
        Some(n) => if n < 15 {
            with_refs_view(
                fail_view(
                    "CIS-1.2.2"@,
                    "Account lockout duration is below recommended minimum"@,
                    Severity::Low,
                    Category::AccountPolicy,
                    "A very short lockout duration allows attackers to quickly resume brute-force attempts after a lockout."@,
                    decimal(n as nat) + " minutes"@,
                    "15 or more minutes"@,
                    "Set 'Account lockout duration' to 15 minutes or more."@,
                ),
                seq![
                    cis_ref(
                        "CIS WS2022 1.2.2"@,
                        "Ensure 'Account lockout duration' is set to '15 or more minute(s)'"@,
                    ),
                ],
            )
        } else {
            pass_view(
                "CIS-1.2.2"@,
                "Account lockout duration meets recommended minimum"@,
                Category::AccountPolicy,
            )
        },
    }
}

pub fn check_duration(v: Option<u32>) -> (f: Finding)
    ensures
        f@ == duration_finding(v),
{
    match v {
        None => Finding::skip(
            "CIS-1.2.2",
            "Account lockout duration — data unavailable",
            LOCKOUT_UNAVAILABLE,
            Category::AccountPolicy,
        ),
        Some(n) => if n < 15 {
            let current = num_then(n, " minutes");
            let refs = vec![
                ComplianceRef::cis(
                    "CIS WS2022 1.2.2",
                    "Ensure 'Account lockout duration' is set to '15 or more minute(s)'",
                ),
            ];
            let f = Finding::fail(
                "CIS-1.2.2",
                "Account lockout duration is below recommended minimum",
                Severity::Low,
                Category::AccountPolicy,
                "A very short lockout duration allows attackers to quickly resume brute-force attempts after a lockout.",
                current.as_str(),
                "15 or more minutes",
                "Set 'Account lockout duration' to 15 minutes or more.",
            );
            assert(refs_view(refs@) =~= seq![refs@[0]@]);
            f.with_refs(refs)
        } else {
            Finding::pass(
                "CIS-1.2.2",
                "Account lockout duration meets recommended minimum",
                Category::AccountPolicy,
            )
        },
    }
}

// ---------------------------------------------------------------------------
// CIS 1.2.3 — lockout counter reset after at least 15 minutes
// ---------------------------------------------------------------------------

pub open spec fn window_finding(v: Option<u32>) -> FindingView {
    match v {
        None => skip_view(
            "CIS-1.2.3"@,
            "Account lockout observation window — data unavailable"@,
            LOCKOUT_UNAVAILABLE@,
            Category::AccountPolicy,
        ),
        Some(n) => if n < 15 {
            with_refs_view(
                fail_view(
                    "CIS-1.2.3"@,
                    "Account lockout observation window is below recommended minimum"@,
                    Severity::Low,
                    Category::AccountPolicy,
                    "A short observation window resets the failed-attempt counter quickly, allowing distributed slow-rate brute-force attacks to bypass the lockout."@,
                    decimal(n as nat) + " minutes"@,
                    "15 or more minutes"@,
                    "Set 'Reset account lockout counter after' to 15 minutes or more."@,
                ),
                seq![
                    cis_ref(
                        "CIS WS2022 1.2.3"@,
                        "Ensure 'Reset account lockout counter after' is set to '15 or more minute(s)'"@,
                    ),
                ],
            )
        } else {
            pass_view(
                "CIS-1.2.3"@,
                "Account lockout observation window meets recommended minimum"@,
                Category::AccountPolicy,
            )
        },
    }
}

pub fn check_window(v: Option<u32>) -> (f: Finding)
    ensures
        f@ == window_finding(v),
{
    match v {
        None => Finding::skip(
            "CIS-1.2.3",
            "Account lockout observation window — data unavailable",
            LOCKOUT_UNAVAILABLE,
            Category::AccountPolicy,
        ),
        Some(n) => if n < 15 {
            let current = num_then(n, " minutes");
            let refs = vec![
                ComplianceRef::cis(
                    "CIS WS2022 1.2.3",
                    "Ensure 'Reset account lockout counter after' is set to '15 or more minute(s)'",
                ),
            ];
            let f = Finding::fail(
                "CIS-1.2.3",
                "Account lockout observation window is below recommended minimum",
                Severity::Low,
                Category::AccountPolicy,
                "A short observation window resets the failed-attempt counter quickly, allowing distributed slow-rate brute-force attacks to bypass the lockout.",
                current.as_str(),
                "15 or more minutes",
                "Set 'Reset account lockout counter after' to 15 minutes or more.",
            );
            assert(refs_view(refs@) =~= seq![refs@[0]@]);
            f.with_refs(refs)
        } else {
            Finding::pass(
                "CIS-1.2.3",
                "Account lockout observation window meets recommended minimum",
                Category::AccountPolicy,
            )
        },
    }
}

/// The lockout-policy findings: CIS 1.2.1, 1.2.2 and 1.2.3.
pub open spec fn lockout_policy_findings(p: LockoutPolicy) -> Seq<FindingView> {
    seq![
        threshold_finding(p.threshold),
        duration_finding(p.duration_minutes),
        window_finding(p.observation_window_minutes),
    ]
}

/// CIS §1.2 — account lockout policy.
pub struct LockoutPolicyAnalyzer;

impl Analyzer for LockoutPolicyAnalyzer {
    open spec fn spec_id(&self) -> Seq<char> {
        "cis-1.2"@
    }

    open spec fn spec_name(&self) -> Seq<char> {
        "CIS §1.2 — Account Lockout Policy"@
    }

    open spec fn spec_target_os(&self) -> OsTarget {
        OsTarget::Any
    }

    open spec fn spec_findings(&self, info: SystemInfo, host_os: Seq<char>) -> Seq<FindingView> {
        lockout_policy_findings(info.users.lockout_policy)
    }

    fn id(&self) -> (r: &'static str) {
        "cis-1.2"
    }

    fn name(&self) -> (r: &'static str) {
        "CIS §1.2 — Account Lockout Policy"
    }

    fn target_os(&self) -> (r: OsTarget) {
        OsTarget::Any
    }

    fn analyze(&self, info: &SystemInfo, host_os: &str) -> (r: Result<Vec<Finding>, HuginnError>)
        ensures
            r is Ok,
    {
        let policy = &info.users.lockout_policy;
        let mut findings: Vec<Finding> = Vec::new();
        findings.push(check_threshold(policy.threshold));
        findings.push(check_duration(policy.duration_minutes));
        findings.push(check_window(policy.observation_window_minutes));
        assert(findings_view(findings@) =~= lockout_policy_findings(*policy));
        Ok(findings)
    }
}

/// CIS-1.1.1, the first password finding: it passes exactly when the
/// minimum length is known and at least 14; every known length below 14,
/// 0 included, fails with high severity; an unknown length is skipped.
pub proof fn lemma_min_length_rule(info: SystemInfo, host_os: Seq<char>)
    ensures
        ({
            let fs = PasswordPolicyAnalyzer.spec_findings(info, host_os);
            &&& fs.len() >= 1
            &&& fs[0].rule_id == "CIS-1.1.1"@
            &&& match info.users.password_policy.min_length {
                Some(n) => {
                    &&& !fs[0].skipped
                    &&& fs[0].passed == (n >= 14)
                    &&& n < 14 ==> fs[0].severity == Severity::High
                },
                None => fs[0].skipped && !fs[0].passed,
            }
        }),
{
}

/// The other password rules: CIS-1.1.2 fails as medium when the maximum
/// age is 0 (never expires), as low when it exceeds 365 days, and passes
/// from 1 to 365; CIS-1.1.3 fails as medium below a history of 24 and passes
/// from 24; CIS-1.1.4 fails as high when complexity is off and passes when
/// on; on Windows, CIS-1.1.5 fails as critical when reversible encryption is
/// on and passes when off. Each is skipped when its setting is unknown.
pub proof fn lemma_password_rules(info: SystemInfo, host_os: Seq<char>)
    ensures
        ({
            let fs = PasswordPolicyAnalyzer.spec_findings(info, host_os);
            let p = info.users.password_policy;
            &&& fs.len() == if host_os == "windows"@ { 5int } else { 4int }
            &&& fs[1].rule_id == "CIS-1.1.2"@
            &&& match p.max_age_days {
                None => is_skipped(fs[1]),
                Some(n) => {
                    &&& n == 0 ==> fails_with(fs[1], Severity::Medium)
                    &&& n > 365 ==> fails_with(fs[1], Severity::Low)
                    &&& 1 <= n <= 365 ==> passes(fs[1])
                },
            }
            &&& fs[2].rule_id == "CIS-1.1.3"@
            &&& match p.history_count {
                None => is_skipped(fs[2]),
                Some(n) => {
                    &&& n < 24 ==> fails_with(fs[2], Severity::Medium)
                    &&& n >= 24 ==> passes(fs[2])
                },
            }
            &&& fs[3].rule_id == "CIS-1.1.4"@
            &&& match p.complexity_required {
                None => is_skipped(fs[3]),
                Some(false) => fails_with(fs[3], Severity::High),
                Some(true) => passes(fs[3]),
            }
            &&& host_os == "windows"@ ==> {
                &&& fs[4].rule_id == "CIS-1.1.5"@
                &&& match p.reversible_encryption {
                    None => is_skipped(fs[4]),
                    Some(true) => fails_with(fs[4], Severity::Critical),
                    Some(false) => passes(fs[4]),
                }
            }
        }),
{
}

/// The lockout rules: CIS-1.2.1 fails as high when the threshold is 0 (no
/// lockout), as medium above 5 attempts, and passes from 1 to 5; CIS-1.2.2
/// and CIS-1.2.3 fail as low below 15 minutes of lockout duration and of
/// observation window, and pass from 15. Each is skipped when its setting is
/// unknown.
pub proof fn lemma_lockout_rules(info: SystemInfo, host_os: Seq<char>)
    ensures
        ({
            let fs = LockoutPolicyAnalyzer.spec_findings(info, host_os);
            let p = info.users.lockout_policy;
            &&& fs.len() == 3
            &&& fs[0].rule_id == "CIS-1.2.1"@
            &&& match p.threshold {
                None => is_skipped(fs[0]),
                Some(n) => {
                    &&& n == 0 ==> fails_with(fs[0], Severity::High)
                    &&& n > 5 ==> fails_with(fs[0], Severity::Medium)
                    &&& 1 <= n <= 5 ==> passes(fs[0])
                },
            }
            &&& fs[1].rule_id == "CIS-1.2.2"@
            &&& match p.duration_minutes {
                None => is_skipped(fs[1]),
                Some(n) => {
                    &&& n < 15 ==> fails_with(fs[1], Severity::Low)
                    &&& n >= 15 ==> passes(fs[1])
                },
            }
            &&& fs[2].rule_id == "CIS-1.2.3"@
            &&& match p.observation_window_minutes {
                None => is_skipped(fs[2]),
                Some(n) => {
                    &&& n < 15 ==> fails_with(fs[2], Severity::Low)
                    &&& n >= 15 ==> passes(fs[2])
                },
            }
        }),
{
}

} // verus!
