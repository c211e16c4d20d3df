//! The collectors: what each gathers, and the set of them that a run uses.
//! Gathering itself reads the host and is done outside the library.
use vstd::prelude::*;

use crate::analyzers::registry::progress_line;
use crate::text::{concat3, pad_right, str_eq};

verus! {

/// A source of facts about the host.
pub trait Collector {
    spec fn spec_name(&self) -> Seq<char>;

    spec fn spec_description(&self) -> Seq<char>;

    spec fn spec_requires_elevation(&self) -> bool;

    /// The collector's name, by which a run may select it.
    fn name(&self) -> (r: &'static str)
        ensures
            r@ == self.spec_name(),
    ;

    /// What the collector gathers.
    fn description(&self) -> (r: &'static str)
        ensures
            r@ == self.spec_description(),
    ;

    /// Whether the collector needs administrator rights for all its data.
    fn requires_elevation(&self) -> (r: bool)
        ensures
            r == self.spec_requires_elevation(),
    ;
}

/// Gathers: OS version, hostname, domain, uptime.
#[derive(Debug, Clone, Copy)]
pub struct SystemInfoCollector;

impl Collector for SystemInfoCollector {
    open spec fn spec_name(&self) -> Seq<char> {
        "system_info"@
    }

    open spec fn spec_description(&self) -> Seq<char> {
        "OS version, hostname, domain, uptime"@
    }

    open spec fn spec_requires_elevation(&self) -> bool {
        false
    }

    fn name(&self) -> (r: &'static str) {
        "system_info"
    }

    fn description(&self) -> (r: &'static str) {
        "OS version, hostname, domain, uptime"
    }

    fn requires_elevation(&self) -> (r: bool) {
        false
    }
}

/// Gathers: Local users, groups, password and lockout policies.
#[derive(Debug, Clone, Copy)]
pub struct UsersCollector;

impl Collector for UsersCollector {
    open spec fn spec_name(&self) -> Seq<char> {
        "users"@
    }

    open spec fn spec_description(&self) -> Seq<char> {
        "Local users, groups, password and lockout policies"@
    }

    open spec fn spec_requires_elevation(&self) -> bool {
        true
    }

    fn name(&self) -> (r: &'static str) {
        "users"
    }

    fn description(&self) -> (r: &'static str) {
        "Local users, groups, password and lockout policies"
    }

    fn requires_elevation(&self) -> (r: bool) {
        true
    }
}

/// Gathers: Running services, start types, binary paths.
#[derive(Debug, Clone, Copy)]
pub struct ServicesCollector;

impl Collector for ServicesCollector {
    open spec fn spec_name(&self) -> Seq<char> {
        "services"@
    }

    open spec fn spec_description(&self) -> Seq<char> {
        "Running services, start types, binary paths"@
    }

    open spec fn spec_requires_elevation(&self) -> bool {
        false
    }

    fn name(&self) -> (r: &'static str) {
        "services"
    }

    fn description(&self) -> (r: &'static str) {
        "Running services, start types, binary paths"
    }

    fn requires_elevation(&self) -> (r: bool) {
        false
    }
}

/// Gathers: Network interfaces, open ports, firewall status, DNS.
#[derive(Debug, Clone, Copy)]
pub struct NetworkCollector;

impl Collector for NetworkCollector {
    open spec fn spec_name(&self) -> Seq<char> {
        "network"@
    }

    open spec fn spec_description(&self) -> Seq<char> {
        "Network interfaces, open ports, firewall status, DNS"@
    }

    open spec fn spec_requires_elevation(&self) -> bool {
        false
    }

    fn name(&self) -> (r: &'static str) {
        "network"
    }

    fn description(&self) -> (r: &'static str) {
        "Network interfaces, open ports, firewall status, DNS"
    }

    fn requires_elevation(&self) -> (r: bool) {
        false
    }
}

/// Gathers: UAC, LSA, audit policies, Defender, SMBv1, RDP.
#[derive(Debug, Clone, Copy)]
pub struct SecurityPoliciesCollector;

impl Collector for SecurityPoliciesCollector {
    open spec fn spec_name(&self) -> Seq<char> {
        "security_policies"@
    }

    open spec fn spec_description(&self) -> Seq<char> {
        "UAC, LSA, audit policies, Defender, SMBv1, RDP"@
    }

    open spec fn spec_requires_elevation(&self) -> bool {
        true
    }

    fn name(&self) -> (r: &'static str) {
        "security_policies"
    }

    fn description(&self) -> (r: &'static str) {
        "UAC, LSA, audit policies, Defender, SMBv1, RDP"
    }

    fn requires_elevation(&self) -> (r: bool) {
        true
    }
}

/// Gathers: Installed software, AV/EDR products, hotfixes.
#[derive(Debug, Clone, Copy)]
pub struct SoftwareCollector;

impl Collector for SoftwareCollector {
    open spec fn spec_name(&self) -> Seq<char> {
        "software"@
    }

    open spec fn spec_description(&self) -> Seq<char> {
        "Installed software, AV/EDR products, hotfixes"@
    }

    open spec fn spec_requires_elevation(&self) -> bool {
        false
    }

    fn name(&self) -> (r: &'static str) {
        "software"
    }

    fn description(&self) -> (r: &'static str) {
        "Installed software, AV/EDR products, hotfixes"
    }

    fn requires_elevation(&self) -> (r: bool) {
        false
    }
}

/// Gathers: Scheduled tasks and cron jobs.
#[derive(Debug, Clone, Copy)]
pub struct ScheduledTasksCollector;

impl Collector for ScheduledTasksCollector {
    open spec fn spec_name(&self) -> Seq<char> {
        "scheduled_tasks"@
    }

    open spec fn spec_description(&self) -> Seq<char> {
        "Scheduled tasks and cron jobs"@
    }

    open spec fn spec_requires_elevation(&self) -> bool {
        false
    }

    fn name(&self) -> (r: &'static str) {
        "scheduled_tasks"
    }

    fn description(&self) -> (r: &'static str) {
        "Scheduled tasks and cron jobs"
    }

    fn requires_elevation(&self) -> (r: bool) {
        false
    }
}

/// One of the collectors of the library.
#[derive(Debug, Clone, Copy, PartialEq, Eq, Structural)]
pub enum CollectorKind {
    SystemInfo,
    Users,
    Services,
    Network,
    SecurityPolicies,
    Software,
    ScheduledTasks,
}

impl Collector for CollectorKind {
    open spec fn spec_name(&self) -> Seq<char> {
        match self {
            CollectorKind::SystemInfo => SystemInfoCollector.spec_name(),
            CollectorKind::Users => UsersCollector.spec_name(),
            CollectorKind::Services => ServicesCollector.spec_name(),
            CollectorKind::Network => NetworkCollector.spec_name(),
            CollectorKind::SecurityPolicies => SecurityPoliciesCollector.spec_name(),
            CollectorKind::Software => SoftwareCollector.spec_name(),
            CollectorKind::ScheduledTasks => ScheduledTasksCollector.spec_name(),
        }
    }

    open spec fn spec_description(&self) -> Seq<char> {
        match self {
            CollectorKind::SystemInfo => SystemInfoCollector.spec_description(),
            CollectorKind::Users => UsersCollector.spec_description(),
            CollectorKind::Services => ServicesCollector.spec_description(),
            CollectorKind::Network => NetworkCollector.spec_description(),
            CollectorKind::SecurityPolicies => SecurityPoliciesCollector.spec_description(),
            CollectorKind::Software => SoftwareCollector.spec_description(),
            CollectorKind::ScheduledTasks => ScheduledTasksCollector.spec_description(),
        }
    }

    open spec fn spec_requires_elevation(&self) -> bool {
        match self {
            CollectorKind::SystemInfo => SystemInfoCollector.spec_requires_elevation(),
            CollectorKind::Users => UsersCollector.spec_requires_elevation(),
            CollectorKind::Services => ServicesCollector.spec_requires_elevation(),
            CollectorKind::Network => NetworkCollector.spec_requires_elevation(),
            CollectorKind::SecurityPolicies => SecurityPoliciesCollector.spec_requires_elevation(),
            CollectorKind::Software => SoftwareCollector.spec_requires_elevation(),
            CollectorKind::ScheduledTasks => ScheduledTasksCollector.spec_requires_elevation(),
        }
    }

    fn name(&self) -> (r: &'static str) {
        match self {
            CollectorKind::SystemInfo => SystemInfoCollector.name(),
            CollectorKind::Users => UsersCollector.name(),
            CollectorKind::Services => ServicesCollector.name(),
            CollectorKind::Network => NetworkCollector.name(),
            CollectorKind::SecurityPolicies => SecurityPoliciesCollector.name(),
            CollectorKind::Software => SoftwareCollector.name(),
            CollectorKind::ScheduledTasks => ScheduledTasksCollector.name(),
        }
    }

    fn description(&self) -> (r: &'static str) {
        match self {
            CollectorKind::SystemInfo => SystemInfoCollector.description(),
            CollectorKind::Users => UsersCollector.description(),
            CollectorKind::Services => ServicesCollector.description(),
            CollectorKind::Network => NetworkCollector.description(),
            CollectorKind::SecurityPolicies => SecurityPoliciesCollector.description(),
            CollectorKind::Software => SoftwareCollector.description(),
            CollectorKind::ScheduledTasks => ScheduledTasksCollector.description(),
        }
    }

    fn requires_elevation(&self) -> (r: bool) {
        match self {
            CollectorKind::SystemInfo => SystemInfoCollector.requires_elevation(),
            CollectorKind::Users => UsersCollector.requires_elevation(),
            CollectorKind::Services => ServicesCollector.requires_elevation(),
            CollectorKind::Network => NetworkCollector.requires_elevation(),
            CollectorKind::SecurityPolicies => SecurityPoliciesCollector.requires_elevation(),
            CollectorKind::Software => SoftwareCollector.requires_elevation(),
            CollectorKind::ScheduledTasks => ScheduledTasksCollector.requires_elevation(),
        }
    }
}

/// Whether a collector is kept by a selection: every collector is kept
/// without one, else those whose name the selection lists.
pub open spec fn selected(c: CollectorKind, names: Option<Seq<Seq<char>>>) -> bool {
    match names {
        None => true,
        Some(ns) => ns.contains(c.spec_name()),
    }
}

/// The collectors of `cs` that a selection keeps, in order.
pub open spec fn filter_collectors(cs: Seq<CollectorKind>, names: Option<Seq<Seq<char>>>) -> Seq<CollectorKind>
    decreases cs.len(),
{
    if cs.len() == 0 {
        Seq::empty()
    } else if selected(cs.last(), names) {
        filter_collectors(cs.drop_last(), names).push(cs.last())
    } else {
        filter_collectors(cs.drop_last(), names)
    }
}

/// The view of an optional selection of names.
pub open spec fn names_view(names: Option<&[String]>) -> Option<Seq<Seq<char>>> {
    match names {
        Some(ns) => Some(crate::platform::linux::etc::strings_view(ns@)),
        None => None,
    }
}

/// The collectors to run, in registration order.
pub struct CollectorRegistry {
    collectors: Vec<CollectorKind>,
}

impl View for CollectorRegistry {
    type V = Seq<CollectorKind>;

    closed spec fn view(&self) -> Seq<CollectorKind> {
        self.collectors@
    }
}

fn name_listed(ns: &[String], name: &str) -> (r: bool)
    ensures
        r == crate::platform::linux::etc::strings_view(ns@).contains(name@),
{
    let mut i: usize = 0;
    while i < ns.len()
        invariant
            i <= ns.len(),
            forall|j: int| 0 <= j < i ==> ns@[j]@ != name@,
        decreases ns.len() - i,
    {
        if str_eq(ns[i].as_str(), name) {
            assert(crate::platform::linux::etc::strings_view(ns@)[i as int] == name@);
            return true;
        }
        i = i + 1;
    }
    assert forall|j: int| 0 <= j < crate::platform::linux::etc::strings_view(ns@).len() implies crate::platform::linux::etc::strings_view(ns@)[j] != name@ by {
        assert(crate::platform::linux::etc::strings_view(ns@)[j] == ns@[j]@);
    }
    false
}

impl CollectorRegistry {
    /// An empty registry.
    pub fn new() -> (r: Self)
        ensures
            r@ == Seq::<CollectorKind>::empty(),
    {
        CollectorRegistry { collectors: Vec::new() }
    }

    /// The registry with `c` added last.
    pub fn register(self, c: CollectorKind) -> (r: Self)
        ensures
            r@ == self@.push(c),
    {
        let mut collectors = self.collectors;
        collectors.push(c);
        CollectorRegistry { collectors }
    }

    /// The registry with only the collectors that `names` lists (all of them
    /// where `names` is `None`), in their order.
    pub fn filtered(self, names: Option<&[String]>) -> (r: Self)
        ensures
            r@ == filter_collectors(self@, names_view(names)),
    {
        match names {
            None => {
                proof {
                    lemma_filter_all(self@);
                }
                self
            },
            Some(ns) => {
                let mut kept: Vec<CollectorKind> = Vec::new();
                let mut i: usize = 0;
                while i < self.collectors.len()
                    invariant
                        i <= self.collectors.len(),
                        names == Some(ns),
                        kept@ == filter_collectors(self.collectors@.take(i as int), names_view(names)),
                    decreases self.collectors.len() - i,
                {
                    proof {
                        assert(self.collectors@.take(i + 1).drop_last() =~= self.collectors@.take(i as int));
                    }
                    let c = self.collectors[i];
                    if name_listed(ns, c.name()) {
                        kept.push(c);
                    }
                    i = i + 1;
                }
                assert(self.collectors@.take(self.collectors.len() as int) =~= self.collectors@);
                CollectorRegistry { collectors: kept }
            },
        }
    }

    /// The registered collectors, in order.
    pub fn collectors(&self) -> (r: &Vec<CollectorKind>)
        ensures
            r@ == self@,
    {
        &self.collectors
    }
}

/// Without a selection, every collector runs.
pub proof fn lemma_filter_all(cs: Seq<CollectorKind>)
    ensures
        filter_collectors(cs, None) == cs,
    decreases cs.len(),
{
    if cs.len() > 0 {
        lemma_filter_all(cs.drop_last());
        assert(cs.drop_last().push(cs.last()) =~= cs);
    }
}

/// A selection keeps only collectors it names, and keeps every collector
/// it names.
pub proof fn lemma_filter_selected(cs: Seq<CollectorKind>, names: Option<Seq<Seq<char>>>)
    ensures
        forall|i: int|
            0 <= i < filter_collectors(cs, names).len() ==> selected(
                #[trigger] filter_collectors(cs, names)[i],
                names,
            ),
        forall|i: int|
            0 <= i < cs.len() && selected(cs[i], names) ==> filter_collectors(cs, names).contains(
                #[trigger] cs[i],
            ),
    decreases cs.len(),
{
    if cs.len() > 0 {
        lemma_filter_selected(cs.drop_last(), names);
        let f = filter_collectors(cs.drop_last(), names);
        assert forall|i: int|
            0 <= i < cs.len() && selected(cs[i], names) implies filter_collectors(cs, names).contains(
            #[trigger] cs[i]) by {
            if i < cs.len() - 1 {
                assert(cs.drop_last()[i] == cs[i]);
                let j = choose|j: int| 0 <= j < f.len() && f[j] == cs[i];
                if selected(cs.last(), names) {
                    assert(filter_collectors(cs, names)[j] == cs[i]);
                }
            } else {
                assert(filter_collectors(cs, names).last() == cs[i]);
                assert(filter_collectors(cs, names)[filter_collectors(cs, names).len() - 1] == cs[i]);
            }
        }
    }
}

/// The progress line printed before a collector runs: its name padded to
/// twenty characters in brackets, then its description.
pub fn collector_progress_line(c: CollectorKind) -> (r: String)
    ensures
        r@ == progress_line(c.spec_name(), c.spec_description()),
{
    let padded = pad_right(c.name(), 20);
    let mut line = concat3("  [", padded.as_str(), "] ");
    line.append(c.description());
    line
}

/// The collectors of a full run, in the order they run.
pub fn build_collector_registry() -> (r: CollectorRegistry)
    ensures
        r@ == seq![
            CollectorKind::SystemInfo,
            CollectorKind::Users,
            CollectorKind::Services,
            CollectorKind::Network,
            CollectorKind::SecurityPolicies,
            CollectorKind::Software,
            CollectorKind::ScheduledTasks,
        ],
{
    CollectorRegistry::new()
        .register(CollectorKind::SystemInfo)
        .register(CollectorKind::Users)
        .register(CollectorKind::Services)
        .register(CollectorKind::Network)
        .register(CollectorKind::SecurityPolicies)
        .register(CollectorKind::Software)
        .register(CollectorKind::ScheduledTasks)
}

} // verus!
