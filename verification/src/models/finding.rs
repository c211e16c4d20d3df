//! Findings: the outcome of one security rule on one host.
use vstd::prelude::*;

use crate::text::{from_chars, owned, to_chars};

verus! {

/// How serious a failed rule is.
#[derive(Debug, Clone, Copy, PartialEq, Eq, Structural, PartialOrd, Ord, Hash)]
pub enum Severity {
    Critical,
    High,
    Medium,
    Low,
    Info,
}

impl Severity {
    pub open spec fn spec_weight(self) -> u8 {
        match self {
            Severity::Critical => 5,
            Severity::High => 4,
            Severity::Medium => 3,
            Severity::Low => 2,
            Severity::Info => 1,
        }
    }

    /// The weight of the severity in the risk score: 5 for critical down to 1 for info.
    pub fn weight(&self) -> (w: u8)
        ensures
            w == self.spec_weight(),
    {
        match self {
            Severity::Critical => 5,
            Severity::High => 4,
            Severity::Medium => 3,
            Severity::Low => 2,
            Severity::Info => 1,
        }
    }

    pub open spec fn spec_label(self) -> Seq<char> {
        match self {
            Severity::Critical => "CRITICAL"@,
            Severity::High => "HIGH"@,
            Severity::Medium => "MEDIUM"@,
            Severity::Low => "LOW"@,
            Severity::Info => "INFO"@,
        }
    }

    /// The upper-case name of the severity.
    pub fn label(&self) -> (l: &'static str)
        ensures
            l@ == self.spec_label(),
    {
        match self {
            Severity::Critical => "CRITICAL",
            Severity::High => "HIGH",
            Severity::Medium => "MEDIUM",
            Severity::Low => "LOW",
            Severity::Info => "INFO",
        }
    }
}

/// The area of configuration a rule belongs to.
#[derive(Debug, Clone, Copy, PartialEq, Eq, Structural)]
pub enum Category {
    AccountPolicy,
    AuditPolicy,
    NetworkSecurity,
    ServiceSecurity,
    SoftwareSecurity,
    UserRights,
    FirewallPolicy,
    ScheduledTasks,
    SystemIntegrity,
    PatchManagement,
}

impl Category {
    pub open spec fn spec_label(self) -> Seq<char> {
        match self {
            Category::AccountPolicy => "Account Policy"@,
            Category::AuditPolicy => "Audit Policy"@,
            Category::NetworkSecurity => "Network Security"@,
            Category::ServiceSecurity => "Service Security"@,
            Category::SoftwareSecurity => "Software Security"@,
            Category::UserRights => "User Rights"@,
            Category::FirewallPolicy => "Firewall Policy"@,
            Category::ScheduledTasks => "Scheduled Tasks"@,
            Category::SystemIntegrity => "System Integrity"@,
            Category::PatchManagement => "Patch Management"@,
        }
    }

    /// The display name of the category.
    pub fn label(&self) -> (l: &'static str)
        ensures
            l@ == self.spec_label(),
    {
        match self {
            Category::AccountPolicy => "Account Policy",
            Category::AuditPolicy => "Audit Policy",
            Category::NetworkSecurity => "Network Security",
            Category::ServiceSecurity => "Service Security",
            Category::SoftwareSecurity => "Software Security",
            Category::UserRights => "User Rights",
            Category::FirewallPolicy => "Firewall Policy",
            Category::ScheduledTasks => "Scheduled Tasks",
            Category::SystemIntegrity => "System Integrity",
            Category::PatchManagement => "Patch Management",
        }
    }
}

/// The landing page cited by every CIS reference.
pub const CIS_URL: &'static str = "https://www.cisecurity.org/cis-benchmarks";

/// A control of a compliance framework that a rule maps to.
#[derive(Debug, Clone)]
pub struct ComplianceRef {
    pub framework: String,
    pub id: String,
    pub title: String,
    pub url: Option<String>,
}

pub struct ComplianceRefView {
    pub framework: Seq<char>,
    pub id: Seq<char>,
    pub title: Seq<char>,
    pub url: Option<Seq<char>>,
}

pub open spec fn opt_view(o: Option<String>) -> Option<Seq<char>> {
    match o {
        Some(s) => Some(s@),
        None => None,
    }
}

impl View for ComplianceRef {
    type V = ComplianceRefView;

    open spec fn view(&self) -> ComplianceRefView {
        ComplianceRefView {
            framework: self.framework@,
            id: self.id@,
            title: self.title@,
            url: opt_view(self.url),
        }
    }
}

/// A CIS Benchmark reference.
pub open spec fn cis_ref(id: Seq<char>, title: Seq<char>) -> ComplianceRefView {
    ComplianceRefView { framework: "CIS"@, id, title, url: Some(CIS_URL@) }
}

/// A NIST SP 800-53 reference.
pub open spec fn nist_ref(id: Seq<char>, title: Seq<char>) -> ComplianceRefView {
    ComplianceRefView { framework: "NIST"@, id, title, url: None }
}

impl ComplianceRef {
    /// A reference to a CIS Benchmark control, with the CIS landing page as its URL.
    pub fn cis(id: &str, title: &str) -> (r: Self)
        ensures
            r@ == cis_ref(id@, title@),
    {
        ComplianceRef {
            framework: owned("CIS"),
            id: owned(id),
            title: owned(title),
            url: Some(owned(CIS_URL)),
        }
    }

    /// A reference to a NIST SP 800-53 control, without a URL.
    pub fn nist(id: &str, title: &str) -> (r: Self)
        ensures
            r@ == nist_ref(id@, title@),
    {
        ComplianceRef { framework: owned("NIST"), id: owned(id), title: owned(title), url: None }
    }
}

/// The outcome of one rule: its text, severity and state.
///
/// `id` holds the 128 bits of a random version-4 UUID and `timestamp_micros`
/// the creation time in microseconds since the Unix epoch.
#[derive(Debug, Clone)]
pub struct Finding {
    pub id: u128,
    pub rule_id: String,
    pub title: String,
    pub severity: Severity,
    pub severity_label: String,
    pub category: Category,
    pub category_label: String,
    pub description: String,
    pub current_value: String,
    pub expected_value: String,
    pub recommendation: String,
    pub references: Vec<ComplianceRef>,
    pub timestamp_micros: i64,
    pub evidence: Option<String>,
    pub passed: bool,
    pub skipped: bool,
    pub os_target: String,
}

/// Everything a finding says, without its random identifier and its time.
pub struct FindingView {
    pub rule_id: Seq<char>,
    pub title: Seq<char>,
    pub severity: Severity,
    pub severity_label: Seq<char>,
    pub category: Category,
    pub category_label: Seq<char>,
    pub description: Seq<char>,
    pub current_value: Seq<char>,
    pub expected_value: Seq<char>,
    pub recommendation: Seq<char>,
    pub references: Seq<ComplianceRefView>,
    pub evidence: Option<Seq<char>>,
    pub passed: bool,
    pub skipped: bool,
    pub os_target: Seq<char>,
}

pub open spec fn refs_view(refs: Seq<ComplianceRef>) -> Seq<ComplianceRefView> {
    refs.map_values(|r: ComplianceRef| r@)
}

impl View for Finding {
    type V = FindingView;

    open spec fn view(&self) -> FindingView {
        FindingView {
            rule_id: self.rule_id@,
            title: self.title@,
            severity: self.severity,
            severity_label: self.severity_label@,
            category: self.category,
            category_label: self.category_label@,
            description: self.description@,
            current_value: self.current_value@,
            expected_value: self.expected_value@,
            recommendation: self.recommendation@,
            references: refs_view(self.references@),
            evidence: opt_view(self.evidence),
            passed: self.passed,
            skipped: self.skipped,
            os_target: self.os_target@,
        }
    }
}

/// The views of a sequence of findings.
pub open spec fn findings_view(fs: Seq<Finding>) -> Seq<FindingView> {
    fs.map_values(|f: Finding| f@)
}

/// A failed rule.
pub open spec fn fail_view(
    rule_id: Seq<char>,
    title: Seq<char>,
    severity: Severity,
    category: Category,
    description: Seq<char>,
    current_value: Seq<char>,
    expected_value: Seq<char>,
    recommendation: Seq<char>,
) -> FindingView {
    FindingView {
        rule_id,
        title,
        severity,
        severity_label: severity.spec_label(),
        category,
        category_label: category.spec_label(),
        description,
        current_value,
        expected_value,
        recommendation,
        references: Seq::empty(),
        evidence: None,
        passed: false,
        skipped: false,
        os_target: Seq::empty(),
    }
}

/// A rule that could not be evaluated; `reason` becomes its description.
pub open spec fn skip_view(
    rule_id: Seq<char>,
    title: Seq<char>,
    reason: Seq<char>,
    category: Category,
) -> FindingView {
    FindingView {
        rule_id,
        title,
        severity: Severity::Info,
        severity_label: "INFO"@,
        category,
        category_label: category.spec_label(),
        description: reason,
        current_value: Seq::empty(),
        expected_value: Seq::empty(),
        recommendation: Seq::empty(),
        references: Seq::empty(),
        evidence: None,
        passed: false,
        skipped: true,
        os_target: Seq::empty(),
    }
}

/// A rule that passed.
pub open spec fn pass_view(rule_id: Seq<char>, title: Seq<char>, category: Category) -> FindingView {
    FindingView {
        rule_id,
        title,
        severity: Severity::Info,
        severity_label: "INFO"@,
        category,
        category_label: category.spec_label(),
        description: Seq::empty(),
        current_value: Seq::empty(),
        expected_value: Seq::empty(),
        recommendation: Seq::empty(),
        references: Seq::empty(),
        evidence: None,
        passed: true,
        skipped: false,
        os_target: Seq::empty(),
    }
}

/// `f` with `refs` as its references.
pub open spec fn with_refs_view(f: FindingView, refs: Seq<ComplianceRefView>) -> FindingView {
    FindingView { references: refs, ..f }
}

/// `f` with `evidence` attached.
pub open spec fn with_evidence_view(f: FindingView, evidence: Seq<char>) -> FindingView {
    FindingView { evidence: Some(evidence), ..f }
}

/// Whether `f` is a failed rule (neither passed nor skipped) of severity
/// `severity`.
pub open spec fn fails_with(f: FindingView, severity: Severity) -> bool {
    !f.passed && !f.skipped && f.severity == severity
}

/// Whether `f` is a passed rule.
pub open spec fn passes(f: FindingView) -> bool {
    f.passed && !f.skipped
}

/// Whether `f` is a rule that could not be evaluated.
pub open spec fn is_skipped(f: FindingView) -> bool {
    f.skipped && !f.passed
}

/// Whether `id` has the fixed fields of a version-4 UUID: version 4 in bits
/// 76..80 and variant binary 10 in bits 62..64.
pub open spec fn is_v4_uuid(id: u128) -> bool {
    (id >> 76u128) & 0xfu128 == 4 && (id >> 62u128) & 0x3u128 == 2
}

/// `uuid::Uuid::new_v4`, as the 128 bits of the UUID. The bits are random;
/// the version field (bits 76..80) is 4 and the variant field (bits 62..64)
/// is binary 10, as RFC 9562 fixes them for version-4 UUIDs.
#[verifier::external_body]
fn new_uuid_v4() -> (r: u128)
    ensures
        (r >> 76u128) & 0xfu128 == 4,
        (r >> 62u128) & 0x3u128 == 2,
{
    uuid::Uuid::new_v4().as_u128()
}

/// `chrono::Utc::now`, as microseconds since the Unix epoch. Nothing is
/// stated of the value: it is the time of the call.
#[verifier::external_body]
pub(crate) fn now_micros() -> (r: i64) {
    chrono::Utc::now().timestamp_micros()
}

fn label_string(l: &str) -> (r: String)
    ensures
        r@ == l@,
{
    let v = to_chars(l);
    from_chars(v.as_slice())
}

impl Finding {
    /// A failed rule, with no references and no evidence yet.
    pub fn fail(
        rule_id: &str,
        title: &str,
        severity: Severity,
        category: Category,
        description: &str,
        current_value: &str,
        expected_value: &str,
        recommendation: &str,
    ) -> (f: Self)
        ensures
            is_v4_uuid(f.id),
            f@ == fail_view(
                rule_id@,
                title@,
                severity,
                category,
                description@,
                current_value@,
                expected_value@,
                recommendation@,
            ),
    {
        let severity_label = label_string(severity.label());
        let category_label = label_string(category.label());
        let f = Finding {
            id: new_uuid_v4(),
            rule_id: owned(rule_id),
            title: owned(title),
            severity,
            severity_label,
            category,
            category_label,
            description: owned(description),
            current_value: owned(current_value),
            expected_value: owned(expected_value),
            recommendation: owned(recommendation),
            references: Vec::new(),
            timestamp_micros: now_micros(),
            evidence: None,
            passed: false,
            skipped: false,
            os_target: String::new(),
        };
        assert(refs_view(f.references@) =~= Seq::<ComplianceRefView>::empty());
        f
    }

    /// A rule that could not be evaluated; `reason` becomes the description.
    pub fn skip(rule_id: &str, title: &str, reason: &str, category: Category) -> (f: Self)
        ensures
            is_v4_uuid(f.id),
            f@ == skip_view(rule_id@, title@, reason@, category),
    {
        let category_label = label_string(category.label());
        let f = Finding {
            id: new_uuid_v4(),
            rule_id: owned(rule_id),
            title: owned(title),
            severity: Severity::Info,
            severity_label: owned("INFO"),
            category,
            category_label,
            description: owned(reason),
            current_value: String::new(),
            expected_value: String::new(),
            recommendation: String::new(),
            references: Vec::new(),
            timestamp_micros: now_micros(),
            evidence: None,
            passed: false,
            skipped: true,
            os_target: String::new(),
        };
        assert(refs_view(f.references@) =~= Seq::<ComplianceRefView>::empty());
        f
    }

    /// A rule that passed.
    pub fn pass(rule_id: &str, title: &str, category: Category) -> (f: Self)
        ensures
            is_v4_uuid(f.id),
            f@ == pass_view(rule_id@, title@, category),
    {
        let category_label = label_string(category.label());
        let f = Finding {
            id: new_uuid_v4(),
            rule_id: owned(rule_id),
            title: owned(title),
            severity: Severity::Info,
            severity_label: owned("INFO"),
            category,
            category_label,
            description: String::new(),
            current_value: String::new(),
            expected_value: String::new(),
            recommendation: String::new(),
            references: Vec::new(),
            timestamp_micros: now_micros(),
            evidence: None,
            passed: true,
            skipped: false,
            os_target: String::new(),
        };
        assert(refs_view(f.references@) =~= Seq::<ComplianceRefView>::empty());
        f
    }

    /// The same finding with `refs` as its references.
    pub fn with_refs(self, refs: Vec<ComplianceRef>) -> (f: Self)
        ensures
            f@ == with_refs_view(self@, refs_view(refs@)),
            f.id == self.id,
            f.timestamp_micros == self.timestamp_micros,
    {
        Finding { references: refs, ..self }
    }

    /// The same finding with `evidence` attached.
    pub fn with_evidence(self, evidence: &str) -> (f: Self)
        ensures
            f@ == with_evidence_view(self@, evidence@),
            f.id == self.id,
            f.timestamp_micros == self.timestamp_micros,
    {
        Finding { evidence: Some(owned(evidence)), ..self }
    }
}

/// The view of a finding that may be absent.
pub open spec fn opt_finding_view(o: Option<Finding>) -> Option<FindingView> {
    match o {
        Some(f) => Some(f@),
        None => None,
    }
}

/// The findings held by an optional finding: none or one.
pub open spec fn present(o: Option<FindingView>) -> Seq<FindingView> {
    match o {
        Some(f) => seq![f],
        None => Seq::empty(),
    }
}

} // verus!
