//! The set of analyzers run over a host's data.
use vstd::prelude::*;

use crate::analyzers::cis::account_policies::{LockoutPolicyAnalyzer, PasswordPolicyAnalyzer};
use crate::analyzers::cis::kernel::KernelHardeningAnalyzer;
use crate::analyzers::cis::network::{FirewallAnalyzer, SmbV1Analyzer};
use crate::analyzers::cis::security_options::{LsaProtectionAnalyzer, UacAnalyzer};
use crate::analyzers::cis::services::{UnquotedServicePathAnalyzer, WeakServicePermissionsAnalyzer};
use crate::analyzers::cis::ssh::SshHardeningAnalyzer;
use crate::analyzers::{Analyzer, OsTarget};
use crate::error::HuginnError;
use crate::models::finding::{findings_view, Finding, FindingView};
use crate::models::system_info::SystemInfo;
use crate::text::{concat3, owned, pad_right, pad_right_spec};

verus! {

/// One of the analyzers of the library.
#[derive(Debug, Clone, Copy, PartialEq, Eq, Structural)]
pub enum AnalyzerKind {
    PasswordPolicy,
    LockoutPolicy,
    KernelHardening,
    Firewall,
    SmbV1,
    Uac,
    LsaProtection,
    UnquotedServicePath,
    WeakServicePermissions,
    SshHardening,
}

impl Analyzer for AnalyzerKind {
    open spec fn spec_id(&self) -> Seq<char> {
        match self {
            AnalyzerKind::PasswordPolicy => PasswordPolicyAnalyzer.spec_id(),
            AnalyzerKind::LockoutPolicy => LockoutPolicyAnalyzer.spec_id(),
            AnalyzerKind::KernelHardening => KernelHardeningAnalyzer.spec_id(),
            AnalyzerKind::Firewall => FirewallAnalyzer.spec_id(),
            AnalyzerKind::SmbV1 => SmbV1Analyzer.spec_id(),
            AnalyzerKind::Uac => UacAnalyzer.spec_id(),
            AnalyzerKind::LsaProtection => LsaProtectionAnalyzer.spec_id(),
            AnalyzerKind::UnquotedServicePath => UnquotedServicePathAnalyzer.spec_id(),
            AnalyzerKind::WeakServicePermissions => WeakServicePermissionsAnalyzer.spec_id(),
            AnalyzerKind::SshHardening => SshHardeningAnalyzer.spec_id(),
        }
    }

    open spec fn spec_name(&self) -> Seq<char> {
        match self {
            AnalyzerKind::PasswordPolicy => PasswordPolicyAnalyzer.spec_name(),
            AnalyzerKind::LockoutPolicy => LockoutPolicyAnalyzer.spec_name(),
            AnalyzerKind::KernelHardening => KernelHardeningAnalyzer.spec_name(),
            AnalyzerKind::Firewall => FirewallAnalyzer.spec_name(),
            AnalyzerKind::SmbV1 => SmbV1Analyzer.spec_name(),
            AnalyzerKind::Uac => UacAnalyzer.spec_name(),
            AnalyzerKind::LsaProtection => LsaProtectionAnalyzer.spec_name(),
            AnalyzerKind::UnquotedServicePath => UnquotedServicePathAnalyzer.spec_name(),
            AnalyzerKind::WeakServicePermissions => WeakServicePermissionsAnalyzer.spec_name(),
            AnalyzerKind::SshHardening => SshHardeningAnalyzer.spec_name(),
        }
    }

    open spec fn spec_target_os(&self) -> OsTarget {
        match self {
            AnalyzerKind::PasswordPolicy => PasswordPolicyAnalyzer.spec_target_os(),
            AnalyzerKind::LockoutPolicy => LockoutPolicyAnalyzer.spec_target_os(),
            AnalyzerKind::KernelHardening => KernelHardeningAnalyzer.spec_target_os(),
            AnalyzerKind::Firewall => FirewallAnalyzer.spec_target_os(),
            AnalyzerKind::SmbV1 => SmbV1Analyzer.spec_target_os(),
            AnalyzerKind::Uac => UacAnalyzer.spec_target_os(),
            AnalyzerKind::LsaProtection => LsaProtectionAnalyzer.spec_target_os(),
            AnalyzerKind::UnquotedServicePath => UnquotedServicePathAnalyzer.spec_target_os(),
            AnalyzerKind::WeakServicePermissions => WeakServicePermissionsAnalyzer.spec_target_os(),
            AnalyzerKind::SshHardening => SshHardeningAnalyzer.spec_target_os(),
        }
    }

    open spec fn spec_findings(&self, info: SystemInfo, host_os: Seq<char>) -> Seq<FindingView> {
        match self {
            AnalyzerKind::PasswordPolicy => PasswordPolicyAnalyzer.spec_findings(info, host_os),
            AnalyzerKind::LockoutPolicy => LockoutPolicyAnalyzer.spec_findings(info, host_os),
            AnalyzerKind::KernelHardening => KernelHardeningAnalyzer.spec_findings(info, host_os),
            AnalyzerKind::Firewall => FirewallAnalyzer.spec_findings(info, host_os),
            AnalyzerKind::SmbV1 => SmbV1Analyzer.spec_findings(info, host_os),
            AnalyzerKind::Uac => UacAnalyzer.spec_findings(info, host_os),
            AnalyzerKind::LsaProtection => LsaProtectionAnalyzer.spec_findings(info, host_os),
            AnalyzerKind::UnquotedServicePath => UnquotedServicePathAnalyzer.spec_findings(
                info,
                host_os,
            ),
            AnalyzerKind::WeakServicePermissions => WeakServicePermissionsAnalyzer.spec_findings(
                info,
                host_os,
            ),
            AnalyzerKind::SshHardening => SshHardeningAnalyzer.spec_findings(info, host_os),
        }
    }

    fn id(&self) -> (r: &'static str) {
        match self {
            AnalyzerKind::PasswordPolicy => PasswordPolicyAnalyzer.id(),
            AnalyzerKind::LockoutPolicy => LockoutPolicyAnalyzer.id(),
            AnalyzerKind::KernelHardening => KernelHardeningAnalyzer.id(),
            AnalyzerKind::Firewall => FirewallAnalyzer.id(),
            AnalyzerKind::SmbV1 => SmbV1Analyzer.id(),
            AnalyzerKind::Uac => UacAnalyzer.id(),
            AnalyzerKind::LsaProtection => LsaProtectionAnalyzer.id(),
            AnalyzerKind::UnquotedServicePath => UnquotedServicePathAnalyzer.id(),
            AnalyzerKind::WeakServicePermissions => WeakServicePermissionsAnalyzer.id(),
            AnalyzerKind::SshHardening => SshHardeningAnalyzer.id(),
        }
    }

    fn name(&self) -> (r: &'static str) {
        match self {
            AnalyzerKind::PasswordPolicy => PasswordPolicyAnalyzer.name(),
            AnalyzerKind::LockoutPolicy => LockoutPolicyAnalyzer.name(),
            AnalyzerKind::KernelHardening => KernelHardeningAnalyzer.name(),
            AnalyzerKind::Firewall => FirewallAnalyzer.name(),
            AnalyzerKind::SmbV1 => SmbV1Analyzer.name(),
            AnalyzerKind::Uac => UacAnalyzer.name(),
            AnalyzerKind::LsaProtection => LsaProtectionAnalyzer.name(),
            AnalyzerKind::UnquotedServicePath => UnquotedServicePathAnalyzer.name(),
            AnalyzerKind::WeakServicePermissions => WeakServicePermissionsAnalyzer.name(),
            AnalyzerKind::SshHardening => SshHardeningAnalyzer.name(),
        }
    }

    fn target_os(&self) -> (r: OsTarget) {
        match self {
            AnalyzerKind::PasswordPolicy => PasswordPolicyAnalyzer.target_os(),
            AnalyzerKind::LockoutPolicy => LockoutPolicyAnalyzer.target_os(),
            AnalyzerKind::KernelHardening => KernelHardeningAnalyzer.target_os(),
            AnalyzerKind::Firewall => FirewallAnalyzer.target_os(),
            AnalyzerKind::SmbV1 => SmbV1Analyzer.target_os(),
            AnalyzerKind::Uac => UacAnalyzer.target_os(),
            AnalyzerKind::LsaProtection => LsaProtectionAnalyzer.target_os(),
            AnalyzerKind::UnquotedServicePath => UnquotedServicePathAnalyzer.target_os(),
            AnalyzerKind::WeakServicePermissions => WeakServicePermissionsAnalyzer.target_os(),
            AnalyzerKind::SshHardening => SshHardeningAnalyzer.target_os(),
        }
    }

    fn analyze(&self, info: &SystemInfo, host_os: &str) -> (r: Result<Vec<Finding>, HuginnError>)
        ensures
            r is Ok,
    {
        match self {
            AnalyzerKind::PasswordPolicy => PasswordPolicyAnalyzer.analyze(info, host_os),
            AnalyzerKind::LockoutPolicy => LockoutPolicyAnalyzer.analyze(info, host_os),
            AnalyzerKind::KernelHardening => KernelHardeningAnalyzer.analyze(info, host_os),
            AnalyzerKind::Firewall => FirewallAnalyzer.analyze(info, host_os),
            AnalyzerKind::SmbV1 => SmbV1Analyzer.analyze(info, host_os),
            AnalyzerKind::Uac => UacAnalyzer.analyze(info, host_os),
            AnalyzerKind::LsaProtection => LsaProtectionAnalyzer.analyze(info, host_os),
            AnalyzerKind::UnquotedServicePath => UnquotedServicePathAnalyzer.analyze(info, host_os),
            AnalyzerKind::WeakServicePermissions => WeakServicePermissionsAnalyzer.analyze(
                info,
                host_os,
            ),
            AnalyzerKind::SshHardening => SshHardeningAnalyzer.analyze(info, host_os),
        }
    }
}

/// `fs` with `label` as the operating-system target of every finding.
pub open spec fn tag_os(fs: Seq<FindingView>, label: Seq<char>) -> Seq<FindingView> {
    fs.map_values(|f: FindingView| FindingView { os_target: label, ..f })
}

/// What one analyzer contributes: its findings tagged with its target's
/// label when its target matches the host, nothing otherwise.
pub open spec fn contribution(a: AnalyzerKind, info: SystemInfo, host_os: Seq<char>) -> Seq<FindingView> {
    if a.spec_target_os().spec_matches(host_os) {
        tag_os(a.spec_findings(info, host_os), a.spec_target_os().spec_label())
    } else {
        Seq::empty()
    }
}

/// The findings of a sequence of analyzers, in order.
pub open spec fn registry_findings(
    analyzers: Seq<AnalyzerKind>,
    info: SystemInfo,
    host_os: Seq<char>,
) -> Seq<FindingView>
    decreases analyzers.len(),
{
    if analyzers.len() == 0 {
        Seq::empty()
    } else {
        registry_findings(analyzers.drop_last(), info, host_os) + contribution(
            analyzers.last(),
            info,
            host_os,
        )
    }
}

/// The progress line printed before an analyzer runs.
pub open spec fn progress_line(id: Seq<char>, name: Seq<char>) -> Seq<char> {
    "  ["@ + pad_right_spec(id, 20) + "] "@ + name
}

/// The progress line printed before analyzer `a` runs: its id padded to
/// twenty characters in brackets, then its name.
pub fn analyzer_progress_line(a: AnalyzerKind) -> (r: String)
    ensures
        r@ == progress_line(a.spec_id(), a.spec_name()),
{
    let padded = pad_right(a.id(), 20);
    let mut line = concat3("  [", padded.as_str(), "] ");
    line.append(a.name());
    line
}

/// The analyzers to run, in registration order.
pub struct AnalyzerRegistry {
    analyzers: Vec<AnalyzerKind>,
}

impl View for AnalyzerRegistry {
    type V = Seq<AnalyzerKind>;

    closed spec fn view(&self) -> Seq<AnalyzerKind> {
        self.analyzers@
    }
}

/// `f` with `label` as its operating-system target.
fn set_os_target(f: &mut Finding, label: &str)
    ensures
        final(f)@ == (FindingView { os_target: label@, ..old(f)@ }),
        final(f).id == old(f).id,
        final(f).timestamp_micros == old(f).timestamp_micros,
{
    f.os_target = owned(label);
}

impl AnalyzerRegistry {
    /// An empty registry.
    pub fn new() -> (r: Self)
        ensures
            r@ == Seq::<AnalyzerKind>::empty(),
    {
        AnalyzerRegistry { analyzers: Vec::new() }
    }

    /// The registry with `a` added last.
    pub fn register(self, a: AnalyzerKind) -> (r: Self)
        ensures
            r@ == self@.push(a),
    {
        let mut analyzers = self.analyzers;
        analyzers.push(a);
        AnalyzerRegistry { analyzers }
    }

    /// The registered analyzers, in order.
    pub fn analyzers(&self) -> (r: &Vec<AnalyzerKind>)
        ensures
            r@ == self@,
    {
        &self.analyzers
    }

    /// Runs every analyzer whose target matches the host `host_os`, in
    /// order, and collects their findings, each tagged with the label of its
    /// analyzer's target. Before each such analyzer runs, its progress line
    /// (`analyzer_progress_line`) is handed to `progress`.
    pub fn run_all<F: Fn(&str)>(&self, info: &SystemInfo, host_os: &str, progress: &F) -> (r: Vec<
        Finding,
    >)
        requires
            forall|s: &str| progress.requires((s,)),
        ensures
            findings_view(r@) == registry_findings(self@, *info, host_os@),
    {
        let mut findings: Vec<Finding> = Vec::new();
        let mut i: usize = 0;
        while i < self.analyzers.len()
            invariant
                i <= self.analyzers.len(),
                forall|s: &str| progress.requires((s,)),
                findings_view(findings@) == registry_findings(
                    self.analyzers@.take(i as int),
                    *info,
                    host_os@,
                ),
            decreases self.analyzers.len() - i,
        {
            let a = self.analyzers[i];
            proof {
                assert(self.analyzers@.take(i + 1).drop_last() =~= self.analyzers@.take(i as int));
            }
            let target = a.target_os();
            if target.matches(host_os) {
                let line = analyzer_progress_line(a);
                progress(line.as_str());
                let label = target.label();
                match a.analyze(info, host_os) {
                    Ok(mut fs) => {
                        let ghost produced = findings_view(fs@);
                        let mut j: usize = 0;
                        while j < fs.len()
                            invariant
                                j <= fs.len(),
                                produced.len() == fs.len(),
                                forall|k: int|
                                    0 <= k < j ==> #[trigger] fs@[k]@ == (FindingView {
                                        os_target: label@,
                                        ..produced[k]
                                    }),
                                forall|k: int| j <= k < fs.len() ==> #[trigger] fs@[k]@ == produced[k],
                            decreases fs.len() - j,
                        {
                            set_os_target(&mut fs[j], label);
                            j = j + 1;
                        }
                        let ghost before = findings_view(findings@);
                        assert(findings_view(fs@) =~= tag_os(produced, label@));
                        findings.append(&mut fs);
                        assert(findings_view(findings@) =~= before + tag_os(produced, label@));
                    },
                    Err(_) => {},
                }
            }
            i = i + 1;
        }
        assert(self.analyzers@.take(self.analyzers.len() as int) =~= self.analyzers@);
        findings
    }
}

/// The analyzers of a full run, in the order they run.
pub fn build_analyzer_registry() -> (r: AnalyzerRegistry)
    ensures
        r@ == seq![
            AnalyzerKind::PasswordPolicy,
            AnalyzerKind::LockoutPolicy,
            AnalyzerKind::Uac,
            AnalyzerKind::LsaProtection,
            AnalyzerKind::UnquotedServicePath,
            AnalyzerKind::WeakServicePermissions,
            AnalyzerKind::Firewall,
            AnalyzerKind::SmbV1,
        ],
{
    AnalyzerRegistry::new()
        .register(AnalyzerKind::PasswordPolicy)
        .register(AnalyzerKind::LockoutPolicy)
        .register(AnalyzerKind::Uac)
        .register(AnalyzerKind::LsaProtection)
        .register(AnalyzerKind::UnquotedServicePath)
        .register(AnalyzerKind::WeakServicePermissions)
        .register(AnalyzerKind::Firewall)
        .register(AnalyzerKind::SmbV1)
}

} // verus!
