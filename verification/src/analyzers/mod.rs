//! Analyzers: rules that turn collected host data into findings.
use vstd::prelude::*;

use crate::error::HuginnError;
use crate::models::finding::{Finding, FindingView};
use crate::models::system_info::SystemInfo;
use crate::text::{concat, decimal, str_eq, u64_to_string};

pub mod cis;
pub mod registry;

verus! {

/// The operating system a rule applies to.
#[derive(Debug, Clone, Copy, PartialEq, Eq, Structural)]
pub enum OsTarget {
    Windows,
    Linux,
    Any,
}

impl OsTarget {
    /// Whether a rule for this target runs on a host whose operating system
    /// is named `host_os` (the value of `std::env::consts::OS` there).
    pub open spec fn spec_matches(self, host_os: Seq<char>) -> bool {
        match self {
            OsTarget::Any => true,
            OsTarget::Windows => host_os == "windows"@,
            OsTarget::Linux => host_os == "linux"@,
        }
    }

    /// Whether a rule for this target runs on the host `host_os`.
    pub fn matches(&self, host_os: &str) -> (r: bool)
        ensures
            r == self.spec_matches(host_os@),
    {
        match self {
            OsTarget::Any => true,
            OsTarget::Windows => str_eq(host_os, "windows"),
            OsTarget::Linux => str_eq(host_os, "linux"),
        }
    }

    pub open spec fn spec_label(self) -> Seq<char> {
        match self {
            OsTarget::Windows => "windows"@,
            OsTarget::Linux => "linux"@,
            OsTarget::Any => "any"@,
        }
    }

    /// The lower-case name of the target.
    pub fn label(&self) -> (l: &'static str)
        ensures
            l@ == self.spec_label(),
    {
        match self {
            OsTarget::Windows => "windows",
            OsTarget::Linux => "linux",
            OsTarget::Any => "any",
        }
    }
}

/// A set of related rules evaluated over the collected data of a host.
pub trait Analyzer {
    spec fn spec_id(&self) -> Seq<char>;

    spec fn spec_name(&self) -> Seq<char>;

    spec fn spec_target_os(&self) -> OsTarget;

    /// The findings of the rules on `info`, on a host named `host_os`.
    spec fn spec_findings(&self, info: SystemInfo, host_os: Seq<char>) -> Seq<FindingView>;

    fn id(&self) -> (r: &'static str)
        ensures
            r@ == self.spec_id(),
    ;

    fn name(&self) -> (r: &'static str)
        ensures
            r@ == self.spec_name(),
    ;

    fn target_os(&self) -> (r: OsTarget)
        ensures
            r == self.spec_target_os(),
    ;

    /// Evaluates the rules; `host_os` names the operating system the
    /// analysis runs on (`std::env::consts::OS`).
    fn analyze(&self, info: &SystemInfo, host_os: &str) -> (r: Result<Vec<Finding>, HuginnError>)
        ensures
            r matches Ok(v) ==> crate::models::finding::findings_view(v@) == self.spec_findings(
                *info,
                host_os@,
            ),
    ;
}

/// The decimal notation of `n` followed by `suffix`.
pub fn num_then(n: u32, suffix: &str) -> (r: String)
    ensures
        r@ == decimal(n as nat) + suffix@,
{
    let d = u64_to_string(n as u64);
    concat(d.as_str(), suffix)
}

/// `prefix` followed by the decimal notation of `n`.
pub fn text_then_num(prefix: &str, n: u32) -> (r: String)
    ensures
        r@ == prefix@ + decimal(n as nat),
{
    let d = u64_to_string(n as u64);
    concat(prefix, d.as_str())
}

} // verus!
