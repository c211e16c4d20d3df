//! Kernel hardening parameters read from `/proc/sys`.
use vstd::prelude::*;

use crate::analyzers::{Analyzer, OsTarget};
use crate::error::HuginnError;
use crate::models::finding::{
    cis_ref, fail_view, findings_view, nist_ref, pass_view, refs_view, skip_view, with_refs_view,
    Category, ComplianceRef, ComplianceRefView, Finding, FindingView, Severity,
};
use crate::models::system_info::{lookup, lookup_spec, SystemInfo};
use crate::num::{parse_u32, parse_u32_spec};
use crate::text::{concat, decimal, str_eq, to_chars};

verus! {

/// The texts of a rule on one kernel parameter.
pub struct KernelRule {
    pub rule_id: Seq<char>,
    pub skip_title: Seq<char>,
    pub skip_reason: Seq<char>,
    pub pass_title: Seq<char>,
    pub fail_title: Seq<char>,
    pub severity: Severity,
    pub category: Category,
    pub description: Seq<char>,
    /// The text before the value in the finding's current value.
    pub setting: Seq<char>,
    pub expected: Seq<char>,
    pub recommendation: Seq<char>,
    pub refs: Seq<ComplianceRefView>,
}

/// A rule that passes when the parameter reads exactly `good`: skipped when
/// the parameter was not read, failed with its value otherwise.
#[verifier::opaque]
pub open spec fn exact_rule_finding(value: Option<Seq<char>>, good: Seq<char>, r: KernelRule) -> FindingView {
    match value {
        None => skip_view(r.rule_id, r.skip_title, r.skip_reason, r.category),
        Some(v) => if v == good {
            pass_view(r.rule_id, r.pass_title, r.category)
        } else {
            with_refs_view(
                fail_view(
                    r.rule_id,
                    r.fail_title,
                    r.severity,
                    r.category,
                    r.description,
                    r.setting + v,
                    r.expected,
                    r.recommendation,
                ),
                r.refs,
            )
        },
    }
}

/// A rule that passes when the parameter reads as a number of at least 1:
/// skipped when the parameter was not read or is not a number, failed with
/// the number otherwise.
#[verifier::opaque]
pub open spec fn at_least_one_rule_finding(value: Option<Seq<char>>, r: KernelRule) -> FindingView {
    let n = match value {
        Some(v) => parse_u32_spec(v),
        None => None,
    };
    match n {
        None => skip_view(r.rule_id, r.skip_title, r.skip_reason, r.category),
        Some(n) => if n >= 1 {
            pass_view(r.rule_id, r.pass_title, r.category)
        } else {
            with_refs_view(
                fail_view(
                    r.rule_id,
                    r.fail_title,
                    r.severity,
                    r.category,
                    r.description,
                    r.setting + decimal(n as nat),
                    r.expected,
                    r.recommendation,
                ),
                r.refs,
            )
        },
    }
}

pub open spec fn kernel_rule(
    rule_id: Seq<char>,
    skip_title: Seq<char>,
    skip_reason: Seq<char>,
    pass_title: Seq<char>,
    fail_title: Seq<char>,
    severity: Severity,
    category: Category,
    description: Seq<char>,
    setting: Seq<char>,
    expected: Seq<char>,
    recommendation: Seq<char>,
    refs: Seq<ComplianceRefView>,
) -> KernelRule {
    KernelRule {
        rule_id,
        skip_title,
        skip_reason,
        pass_title,
        fail_title,
        severity,
        category,
        description,
        setting,
        expected,
        recommendation,
        refs,
    }
}

/// Evaluates an exact-value rule on the parameter's value.
fn eval_exact_rule(
    value: Option<&String>,
    good: &str,
    rule_id: &str,
    skip_title: &str,
    skip_reason: &str,
    pass_title: &str,
    fail_title: &str,
    severity: Severity,
    category: Category,
    description: &str,
    setting: &str,
    expected: &str,
    recommendation: &str,
    refs: Vec<ComplianceRef>,
) -> (f: Finding)
    ensures
        f@ == exact_rule_finding(
            match value {
                Some(v) => Some(v@),
                None => None,
            },
            good@,
            kernel_rule(
                rule_id@,
                skip_title@,
                skip_reason@,
                pass_title@,
                fail_title@,
                severity,
                category,
                description@,
                setting@,
                expected@,
                recommendation@,
                refs_view(refs@),
            ),
        ),
{
    reveal(exact_rule_finding);
    match value {
        None => Finding::skip(rule_id, skip_title, skip_reason, category),
        Some(v) => if str_eq(v.as_str(), good) {
            Finding::pass(rule_id, pass_title, category)
        } else {
            let current = concat(setting, v.as_str());
            Finding::fail(
                rule_id,
                fail_title,
                severity,
                category,
                description,
                current.as_str(),
                expected,
                recommendation,
            ).with_refs(refs)
        },
    }
}

/// Evaluates an at-least-one rule on the parameter's value.
fn eval_at_least_one_rule(
    value: Option<&String>,
    rule_id: &str,
    skip_title: &str,
    skip_reason: &str,
    pass_title: &str,
    fail_title: &str,
    severity: Severity,
    category: Category,
    description: &str,
    setting: &str,
    expected: &str,
    recommendation: &str,
    refs: Vec<ComplianceRef>,
) -> (f: Finding)
    ensures
        f@ == at_least_one_rule_finding(
            match value {
                Some(v) => Some(v@),
                None => None,
            },
            kernel_rule(
                rule_id@,
                skip_title@,
                skip_reason@,
                pass_title@,
                fail_title@,
                severity,
                category,
                description@,
                setting@,
                expected@,
                recommendation@,
                refs_view(refs@),
            ),
        ),
{
    reveal(at_least_one_rule_finding);
    let n = match value {
        Some(v) => {
            let cs = to_chars(v.as_str());
            parse_u32(cs.as_slice())
        },
        None => None,
    };
    match n {
        None => Finding::skip(rule_id, skip_title, skip_reason, category),
        Some(n) => if n >= 1 {
            Finding::pass(rule_id, pass_title, category)
        } else {
            let current = crate::analyzers::text_then_num(setting, n);
            Finding::fail(
                rule_id,
                fail_title,
                severity,
                category,
                description,
                current.as_str(),
                expected,
                recommendation,
            ).with_refs(refs)
        },
    }
}
pub open spec fn kernel1_rule() -> KernelRule {
    kernel_rule(
        "KERNEL-1"@,
        "ASLR (kernel.randomize_va_space) — not available"@,
        "kernel/randomize_va_space was not read from /proc/sys."@,
        "ASLR is fully enabled (randomize_va_space = 2)"@,
        "ASLR is not fully enabled"@,
        Severity::High,
        Category::SystemIntegrity,
        "Address Space Layout Randomization (ASLR) at level 2 randomizes stack, heap, and mmap addresses, making memory-corruption exploits significantly harder. Lower values reduce this protection."@,
        "kernel.randomize_va_space = "@,
        "2"@,
        "Set 'kernel.randomize_va_space = 2' in /etc/sysctl.conf or /etc/sysctl.d/99-hardening.conf, then run 'sysctl -p'."@,
        seq![cis_ref("CIS Ubuntu 22.04 3.3.1"@, "Ensure address space layout randomization (ASLR) is enabled"@), nist_ref("NIST SI-16"@, "Memory Protection"@)],
    )
}
fn kernel1_finding(params: &Vec<(String, String)>) -> (f: Finding)
    ensures
        f@ == exact_rule_finding(lookup_spec(params@, "kernel/randomize_va_space"@), "2"@, kernel1_rule()),
{
    let refs = vec![ComplianceRef::cis("CIS Ubuntu 22.04 3.3.1", "Ensure address space layout randomization (ASLR) is enabled"), ComplianceRef::nist("NIST SI-16", "Memory Protection")];
    assert(refs_view(refs@) =~= seq![refs@[0]@, refs@[1]@]);
    eval_exact_rule(
        lookup(params, "kernel/randomize_va_space"),
        "2",
        "KERNEL-1",
        "ASLR (kernel.randomize_va_space) — not available",
        "kernel/randomize_va_space was not read from /proc/sys.",
        "ASLR is fully enabled (randomize_va_space = 2)",
        "ASLR is not fully enabled",
        Severity::High,
        Category::SystemIntegrity,
        "Address Space Layout Randomization (ASLR) at level 2 randomizes stack, heap, and mmap addresses, making memory-corruption exploits significantly harder. Lower values reduce this protection.",
        "kernel.randomize_va_space = ",
        "2",
        "Set 'kernel.randomize_va_space = 2' in /etc/sysctl.conf or /etc/sysctl.d/99-hardening.conf, then run 'sysctl -p'.",
        refs,
    )
}
pub open spec fn kernel2_rule() -> KernelRule {
    kernel_rule(
        "KERNEL-2"@,
        "dmesg restriction (kernel.dmesg_restrict) — not available"@,
        "kernel/dmesg_restrict was not read from /proc/sys."@,
        "dmesg output is restricted to privileged users"@,
        "dmesg output is not restricted"@,
        Severity::Low,
        Category::SystemIntegrity,
        "When dmesg_restrict is 0, unprivileged users can read kernel ring buffer messages, which may expose kernel addresses and sensitive system information useful to an attacker performing local privilege escalation."@,
        "kernel.dmesg_restrict = "@,
        "1"@,
        "Set 'kernel.dmesg_restrict = 1' in /etc/sysctl.d/99-hardening.conf."@,
        seq![cis_ref("CIS Ubuntu 22.04 3.3.2"@, "Ensure kernel.dmesg_restrict is set to 1"@)],
    )
}
fn kernel2_finding(params: &Vec<(String, String)>) -> (f: Finding)
    ensures
        f@ == exact_rule_finding(lookup_spec(params@, "kernel/dmesg_restrict"@), "1"@, kernel2_rule()),
{
    let refs = vec![ComplianceRef::cis("CIS Ubuntu 22.04 3.3.2", "Ensure kernel.dmesg_restrict is set to 1")];
    assert(refs_view(refs@) =~= seq![refs@[0]@]);
    eval_exact_rule(
        lookup(params, "kernel/dmesg_restrict"),
        "1",
        "KERNEL-2",
        "dmesg restriction (kernel.dmesg_restrict) — not available",
        "kernel/dmesg_restrict was not read from /proc/sys.",
        "dmesg output is restricted to privileged users",
        "dmesg output is not restricted",
        Severity::Low,
        Category::SystemIntegrity,
        "When dmesg_restrict is 0, unprivileged users can read kernel ring buffer messages, which may expose kernel addresses and sensitive system information useful to an attacker performing local privilege escalation.",
        "kernel.dmesg_restrict = ",
        "1",
        "Set 'kernel.dmesg_restrict = 1' in /etc/sysctl.d/99-hardening.conf.",
        refs,
    )
}
pub open spec fn kernel3_rule() -> KernelRule {
    kernel_rule(
        "KERNEL-3"@,
        "Kernel pointer restriction (kernel.kptr_restrict) — not available"@,
        "kernel/kptr_restrict was not read from /proc/sys."@,
        "Kernel pointer restriction is fully enabled (kptr_restrict = 2)"@,
        "Kernel pointers may be exposed to unprivileged users"@,
        Severity::Medium,
        Category::SystemIntegrity,
        "kptr_restrict controls whether kernel symbol addresses are exposed via /proc/kallsyms and similar interfaces. Values < 2 allow unprivileged users to read kernel addresses, which aids KASLR bypass and privilege escalation."@,
        "kernel.kptr_restrict = "@,
        "2"@,
        "Set 'kernel.kptr_restrict = 2' in /etc/sysctl.d/99-hardening.conf."@,
        seq![nist_ref("NIST SI-16"@, "Memory Protection"@)],
    )
}
fn kernel3_finding(params: &Vec<(String, String)>) -> (f: Finding)
    ensures
        f@ == exact_rule_finding(lookup_spec(params@, "kernel/kptr_restrict"@), "2"@, kernel3_rule()),
{
    let refs = vec![ComplianceRef::nist("NIST SI-16", "Memory Protection")];
    assert(refs_view(refs@) =~= seq![refs@[0]@]);
    eval_exact_rule(
        lookup(params, "kernel/kptr_restrict"),
        "2",
        "KERNEL-3",
        "Kernel pointer restriction (kernel.kptr_restrict) — not available",
        "kernel/kptr_restrict was not read from /proc/sys.",
        "Kernel pointer restriction is fully enabled (kptr_restrict = 2)",
        "Kernel pointers may be exposed to unprivileged users",
        Severity::Medium,
        Category::SystemIntegrity,
        "kptr_restrict controls whether kernel symbol addresses are exposed via /proc/kallsyms and similar interfaces. Values < 2 allow unprivileged users to read kernel addresses, which aids KASLR bypass and privilege escalation.",
        "kernel.kptr_restrict = ",
        "2",
        "Set 'kernel.kptr_restrict = 2' in /etc/sysctl.d/99-hardening.conf.",
        refs,
    )
}
pub open spec fn kernel4_rule() -> KernelRule {
    kernel_rule(
        "KERNEL-4"@,
        "SUID core dump restriction (fs.suid_dumpable) — not available"@,
        "fs/suid_dumpable was not read from /proc/sys."@,
        "SUID core dumps are disabled"@,
        "SUID processes may produce core dumps"@,
        Severity::Medium,
        Category::SystemIntegrity,
        "When suid_dumpable is non-zero, setuid and setgid processes can produce core dumps. These dumps may contain sensitive data (passwords, keys) and can be used to recover privilege-escalation artifacts."@,
        "fs.suid_dumpable = "@,
        "0"@,
        "Set 'fs.suid_dumpable = 0' in /etc/sysctl.d/99-hardening.conf."@,
        seq![cis_ref("CIS Ubuntu 22.04 1.5.4"@, "Ensure core dumps are restricted"@)],
    )
}
fn kernel4_finding(params: &Vec<(String, String)>) -> (f: Finding)
    ensures
        f@ == exact_rule_finding(lookup_spec(params@, "fs/suid_dumpable"@), "0"@, kernel4_rule()),
{
    let refs = vec![ComplianceRef::cis("CIS Ubuntu 22.04 1.5.4", "Ensure core dumps are restricted")];
    assert(refs_view(refs@) =~= seq![refs@[0]@]);
    eval_exact_rule(
        lookup(params, "fs/suid_dumpable"),
        "0",
        "KERNEL-4",
        "SUID core dump restriction (fs.suid_dumpable) — not available",
        "fs/suid_dumpable was not read from /proc/sys.",
        "SUID core dumps are disabled",
        "SUID processes may produce core dumps",
        Severity::Medium,
        Category::SystemIntegrity,
        "When suid_dumpable is non-zero, setuid and setgid processes can produce core dumps. These dumps may contain sensitive data (passwords, keys) and can be used to recover privilege-escalation artifacts.",
        "fs.suid_dumpable = ",
        "0",
        "Set 'fs.suid_dumpable = 0' in /etc/sysctl.d/99-hardening.conf.",
        refs,
    )
}
pub open spec fn kernel5_rule() -> KernelRule {
    kernel_rule(
        "KERNEL-5"@,
        "IP forwarding (net.ipv4.ip_forward) — not available"@,
        "net/ipv4/ip_forward was not read from /proc/sys."@,
        "IPv4 packet forwarding is disabled"@,
        "IPv4 packet forwarding is enabled"@,
        Severity::Medium,
        Category::NetworkSecurity,
        "IP forwarding allows the host to route packets between network interfaces. On a non-router host, enabling this increases network attack surface and may facilitate lateral movement if the host is compromised."@,
        "net.ipv4.ip_forward = "@,
        "0"@,
        "Set 'net.ipv4.ip_forward = 0' in /etc/sysctl.d/99-hardening.conf unless this host is intentionally configured as a router."@,
        seq![cis_ref("CIS Ubuntu 22.04 3.2.1"@, "Ensure packet redirect sending is disabled"@)],
    )
}
fn kernel5_finding(params: &Vec<(String, String)>) -> (f: Finding)
    ensures
        f@ == exact_rule_finding(lookup_spec(params@, "net/ipv4/ip_forward"@), "0"@, kernel5_rule()),
{
    let refs = vec![ComplianceRef::cis("CIS Ubuntu 22.04 3.2.1", "Ensure packet redirect sending is disabled")];
    assert(refs_view(refs@) =~= seq![refs@[0]@]);
    eval_exact_rule(
        lookup(params, "net/ipv4/ip_forward"),
        "0",
        "KERNEL-5",
        "IP forwarding (net.ipv4.ip_forward) — not available",
        "net/ipv4/ip_forward was not read from /proc/sys.",
        "IPv4 packet forwarding is disabled",
        "IPv4 packet forwarding is enabled",
        Severity::Medium,
        Category::NetworkSecurity,
        "IP forwarding allows the host to route packets between network interfaces. On a non-router host, enabling this increases network attack surface and may facilitate lateral movement if the host is compromised.",
        "net.ipv4.ip_forward = ",
        "0",
        "Set 'net.ipv4.ip_forward = 0' in /etc/sysctl.d/99-hardening.conf unless this host is intentionally configured as a router.",
        refs,
    )
}
pub open spec fn kernel6_rule() -> KernelRule {
    kernel_rule(
        "KERNEL-6"@,
        "TCP SYN cookies (net.ipv4.tcp_syncookies) — not available"@,
        "net/ipv4/tcp_syncookies was not read from /proc/sys."@,
        "TCP SYN cookies are enabled (SYN flood protection active)"@,
        "TCP SYN cookies are disabled"@,
        Severity::Medium,
        Category::NetworkSecurity,
        "SYN cookies protect against SYN flood DoS attacks by allowing the server to handle connection requests without allocating state until the handshake completes. Disabling this makes the host more vulnerable to resource exhaustion attacks."@,
        "net.ipv4.tcp_syncookies = "@,
        "1"@,
        "Set 'net.ipv4.tcp_syncookies = 1' in /etc/sysctl.d/99-hardening.conf."@,
        seq![cis_ref("CIS Ubuntu 22.04 3.3.8"@, "Ensure TCP SYN Cookies is enabled"@)],
    )
}
fn kernel6_finding(params: &Vec<(String, String)>) -> (f: Finding)
    ensures
        f@ == exact_rule_finding(lookup_spec(params@, "net/ipv4/tcp_syncookies"@), "1"@, kernel6_rule()),
{
    let refs = vec![ComplianceRef::cis("CIS Ubuntu 22.04 3.3.8", "Ensure TCP SYN Cookies is enabled")];
    assert(refs_view(refs@) =~= seq![refs@[0]@]);
    eval_exact_rule(
        lookup(params, "net/ipv4/tcp_syncookies"),
        "1",
        "KERNEL-6",
        "TCP SYN cookies (net.ipv4.tcp_syncookies) — not available",
        "net/ipv4/tcp_syncookies was not read from /proc/sys.",
        "TCP SYN cookies are enabled (SYN flood protection active)",
        "TCP SYN cookies are disabled",
        Severity::Medium,
        Category::NetworkSecurity,
        "SYN cookies protect against SYN flood DoS attacks by allowing the server to handle connection requests without allocating state until the handshake completes. Disabling this makes the host more vulnerable to resource exhaustion attacks.",
        "net.ipv4.tcp_syncookies = ",
        "1",
        "Set 'net.ipv4.tcp_syncookies = 1' in /etc/sysctl.d/99-hardening.conf.",
        refs,
    )
}
pub open spec fn kernel7_rule() -> KernelRule {
    kernel_rule(
        "KERNEL-7"@,
        "IPv4 ICMP redirect acceptance — not available"@,
        "net/ipv4/conf/all/accept_redirects was not read from /proc/sys."@,
        "IPv4 ICMP redirect acceptance is disabled"@,
        "IPv4 ICMP redirects are accepted"@,
        Severity::Medium,
        Category::NetworkSecurity,
        "Accepting ICMP redirects allows remote hosts to modify the local routing table, which can be abused for man-in-the-middle attacks by redirecting traffic through an attacker-controlled gateway."@,
        "net.ipv4.conf.all.accept_redirects = "@,
        "0"@,
        "Set 'net.ipv4.conf.all.accept_redirects = 0' in /etc/sysctl.d/99-hardening.conf."@,
        seq![cis_ref("CIS Ubuntu 22.04 3.3.2"@, "Ensure ICMP redirects are not accepted"@)],
    )
}
fn kernel7_finding(params: &Vec<(String, String)>) -> (f: Finding)
    ensures
        f@ == exact_rule_finding(lookup_spec(params@, "net/ipv4/conf/all/accept_redirects"@), "0"@, kernel7_rule()),
{
    let refs = vec![ComplianceRef::cis("CIS Ubuntu 22.04 3.3.2", "Ensure ICMP redirects are not accepted")];
    assert(refs_view(refs@) =~= seq![refs@[0]@]);
    eval_exact_rule(
        lookup(params, "net/ipv4/conf/all/accept_redirects"),
        "0",
        "KERNEL-7",
        "IPv4 ICMP redirect acceptance — not available",
        "net/ipv4/conf/all/accept_redirects was not read from /proc/sys.",
        "IPv4 ICMP redirect acceptance is disabled",
        "IPv4 ICMP redirects are accepted",
        Severity::Medium,
        Category::NetworkSecurity,
        "Accepting ICMP redirects allows remote hosts to modify the local routing table, which can be abused for man-in-the-middle attacks by redirecting traffic through an attacker-controlled gateway.",
        "net.ipv4.conf.all.accept_redirects = ",
        "0",
        "Set 'net.ipv4.conf.all.accept_redirects = 0' in /etc/sysctl.d/99-hardening.conf.",
        refs,
    )
}
pub open spec fn kernel8_rule() -> KernelRule {
    kernel_rule(
        "KERNEL-8"@,
        "IPv4 source routing — not available"@,
        "net/ipv4/conf/all/accept_source_route was not read from /proc/sys."@,
        "IPv4 source routing is disabled"@,
        "IPv4 source-routed packets are accepted"@,
        Severity::Medium,
        Category::NetworkSecurity,
        "Source routing allows the sender to specify the network path for packets. This can be abused to bypass network access controls and facilitate spoofing or man-in-the-middle attacks."@,
        "net.ipv4.conf.all.accept_source_route = "@,
        "0"@,
        "Set 'net.ipv4.conf.all.accept_source_route = 0' in /etc/sysctl.d/99-hardening.conf."@,
        seq![cis_ref("CIS Ubuntu 22.04 3.3.1"@, "Ensure source routed packets are not accepted"@)],
    )
}
fn kernel8_finding(params: &Vec<(String, String)>) -> (f: Finding)
    ensures
        f@ == exact_rule_finding(lookup_spec(params@, "net/ipv4/conf/all/accept_source_route"@), "0"@, kernel8_rule()),
{
    let refs = vec![ComplianceRef::cis("CIS Ubuntu 22.04 3.3.1", "Ensure source routed packets are not accepted")];
    assert(refs_view(refs@) =~= seq![refs@[0]@]);
    eval_exact_rule(
        lookup(params, "net/ipv4/conf/all/accept_source_route"),
        "0",
        "KERNEL-8",
        "IPv4 source routing — not available",
        "net/ipv4/conf/all/accept_source_route was not read from /proc/sys.",
        "IPv4 source routing is disabled",
        "IPv4 source-routed packets are accepted",
        Severity::Medium,
        Category::NetworkSecurity,
        "Source routing allows the sender to specify the network path for packets. This can be abused to bypass network access controls and facilitate spoofing or man-in-the-middle attacks.",
        "net.ipv4.conf.all.accept_source_route = ",
        "0",
        "Set 'net.ipv4.conf.all.accept_source_route = 0' in /etc/sysctl.d/99-hardening.conf.",
        refs,
    )
}
pub open spec fn kernel9_rule() -> KernelRule {
    kernel_rule(
        "KERNEL-9"@,
        "Martian packet logging — not available"@,
        "net/ipv4/conf/all/log_martians was not read from /proc/sys."@,
        "Logging of packets with impossible addresses (martians) is enabled"@,
        "Martian packet logging is disabled"@,
        Severity::Low,
        Category::NetworkSecurity,
        "Martian packets have source addresses that are impossible on the public internet (RFC 1918, loopback, etc. arriving on external interfaces). Logging these aids detection of spoofing and scanning attempts."@,
        "net.ipv4.conf.all.log_martians = "@,
        "1"@,
        "Set 'net.ipv4.conf.all.log_martians = 1' in /etc/sysctl.d/99-hardening.conf."@,
        seq![cis_ref("CIS Ubuntu 22.04 3.3.7"@, "Ensure Reverse Path Filtering is enabled"@)],
    )
}
fn kernel9_finding(params: &Vec<(String, String)>) -> (f: Finding)
    ensures
        f@ == exact_rule_finding(lookup_spec(params@, "net/ipv4/conf/all/log_martians"@), "1"@, kernel9_rule()),
{
    let refs = vec![ComplianceRef::cis("CIS Ubuntu 22.04 3.3.7", "Ensure Reverse Path Filtering is enabled")];
    assert(refs_view(refs@) =~= seq![refs@[0]@]);
    eval_exact_rule(
        lookup(params, "net/ipv4/conf/all/log_martians"),
        "1",
        "KERNEL-9",
        "Martian packet logging — not available",
        "net/ipv4/conf/all/log_martians was not read from /proc/sys.",
        "Logging of packets with impossible addresses (martians) is enabled",
        "Martian packet logging is disabled",
        Severity::Low,
        Category::NetworkSecurity,
        "Martian packets have source addresses that are impossible on the public internet (RFC 1918, loopback, etc. arriving on external interfaces). Logging these aids detection of spoofing and scanning attempts.",
        "net.ipv4.conf.all.log_martians = ",
        "1",
        "Set 'net.ipv4.conf.all.log_martians = 1' in /etc/sysctl.d/99-hardening.conf.",
        refs,
    )
}
pub open spec fn kernel10_rule() -> KernelRule {
    kernel_rule(
        "KERNEL-10"@,
        "Reverse path filtering (net.ipv4.conf.all.rp_filter) — not available"@,
        "net/ipv4/conf/all/rp_filter was not read from /proc/sys."@,
        "Reverse path filtering is enabled"@,
        "Reverse path filtering is disabled"@,
        Severity::Medium,
        Category::NetworkSecurity,
        "Reverse path filtering validates that incoming packets have a source address reachable via the interface they arrived on. Disabling it allows IP spoofing attacks to bypass basic network-layer controls."@,
        "net.ipv4.conf.all.rp_filter = "@,
        "1 or 2"@,
        "Set 'net.ipv4.conf.all.rp_filter = 1' in /etc/sysctl.d/99-hardening.conf."@,
        seq![cis_ref("CIS Ubuntu 22.04 3.3.7"@, "Ensure Reverse Path Filtering is enabled"@)],
    )
}
fn kernel10_finding(params: &Vec<(String, String)>) -> (f: Finding)
    ensures
        f@ == at_least_one_rule_finding(lookup_spec(params@, "net/ipv4/conf/all/rp_filter"@), kernel10_rule()),
{
    let refs = vec![ComplianceRef::cis("CIS Ubuntu 22.04 3.3.7", "Ensure Reverse Path Filtering is enabled")];
    assert(refs_view(refs@) =~= seq![refs@[0]@]);
    eval_at_least_one_rule(
        lookup(params, "net/ipv4/conf/all/rp_filter"),
        "KERNEL-10",
        "Reverse path filtering (net.ipv4.conf.all.rp_filter) — not available",
        "net/ipv4/conf/all/rp_filter was not read from /proc/sys.",
        "Reverse path filtering is enabled",
        "Reverse path filtering is disabled",
        Severity::Medium,
        Category::NetworkSecurity,
        "Reverse path filtering validates that incoming packets have a source address reachable via the interface they arrived on. Disabling it allows IP spoofing attacks to bypass basic network-layer controls.",
        "net.ipv4.conf.all.rp_filter = ",
        "1 or 2",
        "Set 'net.ipv4.conf.all.rp_filter = 1' in /etc/sysctl.d/99-hardening.conf.",
        refs,
    )
}
/// The kernel findings: one skip when no parameter was read; otherwise one
/// finding for each of the ten parameters, KERNEL-1 to KERNEL-10 in order.
pub open spec fn kernel_findings(t: Seq<(String, String)>) -> Seq<FindingView> {
    if t.len() == 0 {
        seq![
            skip_view(
                "KERNEL-HARDENING"@,
                "Kernel hardening parameters — data unavailable"@,
                "No /proc/sys parameters were collected (non-Linux platform or permission denied)."@,
                Category::SystemIntegrity,
            ),
        ]
    } else {
        seq![
            exact_rule_finding(lookup_spec(t, "kernel/randomize_va_space"@), "2"@, kernel1_rule()),
            exact_rule_finding(lookup_spec(t, "kernel/dmesg_restrict"@), "1"@, kernel2_rule()),
            exact_rule_finding(lookup_spec(t, "kernel/kptr_restrict"@), "2"@, kernel3_rule()),
            exact_rule_finding(lookup_spec(t, "fs/suid_dumpable"@), "0"@, kernel4_rule()),
            exact_rule_finding(lookup_spec(t, "net/ipv4/ip_forward"@), "0"@, kernel5_rule()),
            exact_rule_finding(lookup_spec(t, "net/ipv4/tcp_syncookies"@), "1"@, kernel6_rule()),
            exact_rule_finding(lookup_spec(t, "net/ipv4/conf/all/accept_redirects"@), "0"@, kernel7_rule()),
            exact_rule_finding(lookup_spec(t, "net/ipv4/conf/all/accept_source_route"@), "0"@, kernel8_rule()),
            exact_rule_finding(lookup_spec(t, "net/ipv4/conf/all/log_martians"@), "1"@, kernel9_rule()),
            at_least_one_rule_finding(lookup_spec(t, "net/ipv4/conf/all/rp_filter"@), kernel10_rule()),
        ]
    }
}

/// Kernel hardening parameters (Linux hosts).
pub struct KernelHardeningAnalyzer;

impl Analyzer for KernelHardeningAnalyzer {
    open spec fn spec_id(&self) -> Seq<char> {
        "cis-10.kernel"@
    }

    open spec fn spec_name(&self) -> Seq<char> {
        "Kernel — Hardening Parameters"@
    }

    open spec fn spec_target_os(&self) -> OsTarget {
        OsTarget::Linux
    }

    open spec fn spec_findings(&self, info: SystemInfo, host_os: Seq<char>) -> Seq<FindingView> {
        kernel_findings(info.security.kernel_params@)
    }

    fn id(&self) -> (r: &'static str) {
        "cis-10.kernel"
    }

    fn name(&self) -> (r: &'static str) {
        "Kernel — Hardening Parameters"
    }

    fn target_os(&self) -> (r: OsTarget) {
        OsTarget::Linux
    }

    fn analyze(&self, info: &SystemInfo, host_os: &str) -> (r: Result<Vec<Finding>, HuginnError>)
        ensures
            r is Ok,
    {
        let params = &info.security.kernel_params;
        if params.len() == 0 {
            let mut findings: Vec<Finding> = Vec::new();
            findings.push(
                Finding::skip(
                    "KERNEL-HARDENING",
                    "Kernel hardening parameters — data unavailable",
                    "No /proc/sys parameters were collected (non-Linux platform or permission denied).",
                    Category::SystemIntegrity,
                ),
            );
            assert(findings_view(findings@) =~= kernel_findings(params@));
            return Ok(findings);
        }
        let f1 = kernel1_finding(params);
        let f2 = kernel2_finding(params);
        let f3 = kernel3_finding(params);
        let f4 = kernel4_finding(params);
        let f5 = kernel5_finding(params);
        let f6 = kernel6_finding(params);
        let f7 = kernel7_finding(params);
        let f8 = kernel8_finding(params);
        let f9 = kernel9_finding(params);
        let f10 = kernel10_finding(params);
        let findings = vec![f1, f2, f3, f4, f5, f6, f7, f8, f9, f10];
        assert(findings_view(findings@) =~= seq![f1@, f2@, f3@, f4@, f5@, f6@, f7@, f8@, f9@, f10@]);
        Ok(findings)
    }
}

/// KERNEL-10, the tenth finding where any parameter was read: where
/// `net/ipv4/conf/all/rp_filter` reads as a number, it passes exactly when
/// that number is at least 1 (1 is strict and 2 loose reverse-path
/// filtering), and it fails with medium severity only when it is 0; where
/// the value is missing or not a number, the rule is skipped.
pub proof fn lemma_rp_filter_rule(info: SystemInfo, host_os: Seq<char>)
    requires
        info.security.kernel_params@.len() > 0,
    ensures
        ({
            let fs = KernelHardeningAnalyzer.spec_findings(info, host_os);
            let value = lookup_spec(info.security.kernel_params@, "net/ipv4/conf/all/rp_filter"@);
            &&& fs.len() == 10
            &&& fs[9].rule_id == "KERNEL-10"@
            &&& match value {
                Some(v) => match parse_u32_spec(v) {
                    Some(n) => {
                        &&& fs[9].passed == (n >= 1)
                        &&& !fs[9].skipped
                        &&& !fs[9].passed ==> n == 0 && fs[9].severity == Severity::Medium
                    },
                    None => fs[9].skipped && !fs[9].passed,
                },
                None => fs[9].skipped && !fs[9].passed,
            }
        }),
{
    reveal(at_least_one_rule_finding);
}

/// Whether `f` is the outcome of a rule that asks a parameter to read
/// exactly `good`: skipped when the parameter was not read, otherwise
/// evaluated and passed exactly when its value is `good`.
pub open spec fn passes_exactly_on(f: FindingView, value: Option<Seq<char>>, good: Seq<char>) -> bool {
    match value {
        Some(v) => !f.skipped && f.passed == (v == good),
        None => f.skipped && !f.passed,
    }
}

proof fn lemma_exact_outcome(value: Option<Seq<char>>, good: Seq<char>, r: KernelRule)
    ensures
        exact_rule_finding(value, good, r).rule_id == r.rule_id,
        passes_exactly_on(exact_rule_finding(value, good, r), value, good),
{
    reveal(exact_rule_finding);
}

/// KERNEL-1 to KERNEL-9, the first nine findings where any parameter was
/// read: each passes exactly when its parameter reads the hardened value
/// (randomize_va_space 2, dmesg_restrict 1, kptr_restrict 2, suid_dumpable
/// 0, ip_forward 0, tcp_syncookies 1, accept_redirects 0,
/// accept_source_route 0, log_martians 1), and is skipped when it was not
/// read.
pub proof fn lemma_exact_kernel_rules(info: SystemInfo, host_os: Seq<char>)
    requires
        info.security.kernel_params@.len() > 0,
    ensures
        ({
            let fs = KernelHardeningAnalyzer.spec_findings(info, host_os);
            let t = info.security.kernel_params@;
            &&& fs.len() == 10
            &&& fs[0].rule_id == "KERNEL-1"@ && passes_exactly_on(fs[0], lookup_spec(t, "kernel/randomize_va_space"@), "2"@)
            &&& fs[1].rule_id == "KERNEL-2"@ && passes_exactly_on(fs[1], lookup_spec(t, "kernel/dmesg_restrict"@), "1"@)
            &&& fs[2].rule_id == "KERNEL-3"@ && passes_exactly_on(fs[2], lookup_spec(t, "kernel/kptr_restrict"@), "2"@)
            &&& fs[3].rule_id == "KERNEL-4"@ && passes_exactly_on(fs[3], lookup_spec(t, "fs/suid_dumpable"@), "0"@)
            &&& fs[4].rule_id == "KERNEL-5"@ && passes_exactly_on(fs[4], lookup_spec(t, "net/ipv4/ip_forward"@), "0"@)
            &&& fs[5].rule_id == "KERNEL-6"@ && passes_exactly_on(fs[5], lookup_spec(t, "net/ipv4/tcp_syncookies"@), "1"@)
            &&& fs[6].rule_id == "KERNEL-7"@ && passes_exactly_on(fs[6], lookup_spec(t, "net/ipv4/conf/all/accept_redirects"@), "0"@)
            &&& fs[7].rule_id == "KERNEL-8"@ && passes_exactly_on(fs[7], lookup_spec(t, "net/ipv4/conf/all/accept_source_route"@), "0"@)
            &&& fs[8].rule_id == "KERNEL-9"@ && passes_exactly_on(fs[8], lookup_spec(t, "net/ipv4/conf/all/log_martians"@), "1"@)
        }),
{
    let t = info.security.kernel_params@;
    let fs = KernelHardeningAnalyzer.spec_findings(info, host_os);
    let v0 = lookup_spec(t, "kernel/randomize_va_space"@);
    let v1 = lookup_spec(t, "kernel/dmesg_restrict"@);
    let v2 = lookup_spec(t, "kernel/kptr_restrict"@);
    let v3 = lookup_spec(t, "fs/suid_dumpable"@);
    let v4 = lookup_spec(t, "net/ipv4/ip_forward"@);
    let v5 = lookup_spec(t, "net/ipv4/tcp_syncookies"@);
    let v6 = lookup_spec(t, "net/ipv4/conf/all/accept_redirects"@);
    let v7 = lookup_spec(t, "net/ipv4/conf/all/accept_source_route"@);
    let v8 = lookup_spec(t, "net/ipv4/conf/all/log_martians"@);
    assert(fs[0] == exact_rule_finding(v0, "2"@, kernel1_rule()));
    assert(fs[1] == exact_rule_finding(v1, "1"@, kernel2_rule()));
    assert(fs[2] == exact_rule_finding(v2, "2"@, kernel3_rule()));
    assert(fs[3] == exact_rule_finding(v3, "0"@, kernel4_rule()));
    assert(fs[4] == exact_rule_finding(v4, "0"@, kernel5_rule()));
    assert(fs[5] == exact_rule_finding(v5, "1"@, kernel6_rule()));
    assert(fs[6] == exact_rule_finding(v6, "0"@, kernel7_rule()));
    assert(fs[7] == exact_rule_finding(v7, "0"@, kernel8_rule()));
    assert(fs[8] == exact_rule_finding(v8, "1"@, kernel9_rule()));
    lemma_exact_outcome(v0, "2"@, kernel1_rule());
    lemma_exact_outcome(v1, "1"@, kernel2_rule());
    lemma_exact_outcome(v2, "2"@, kernel3_rule());
    lemma_exact_outcome(v3, "0"@, kernel4_rule());
    lemma_exact_outcome(v4, "0"@, kernel5_rule());
    lemma_exact_outcome(v5, "1"@, kernel6_rule());
    lemma_exact_outcome(v6, "0"@, kernel7_rule());
    lemma_exact_outcome(v7, "0"@, kernel8_rule());
    lemma_exact_outcome(v8, "1"@, kernel9_rule());
}

} // verus!
