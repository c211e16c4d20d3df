//! A report as a BloodHound computer object.
use vstd::prelude::*;

use crate::models::bloodhound::{
    BloodHoundComputer, BloodHoundMeta, BloodHoundOutput, ComputerProperties, FindingRef,
    HuginnAssessment,
};
use crate::models::finding::{opt_view, Finding};
use crate::models::report::{deref_seq, failed_seq, Report};
use crate::models::system_info::SystemInfo;
use crate::text::{concat, concat3, decimal, owned, to_uppercase, u64_to_string, unicode_uppercase};

verus! {

/// How many failed findings the assessment lists at most.
pub const TOP_FINDINGS: usize = 10;

/// The computer's name: the upper-case host name, followed by a dot and the
/// upper-case domain where there is one.
pub open spec fn computer_name(hostname: Seq<char>, domain: Option<Seq<char>>) -> Seq<char> {
    match domain {
        Some(d) => unicode_uppercase(hostname) + "."@ + unicode_uppercase(d),
        None => unicode_uppercase(hostname),
    }
}

/// The object identifier: the SID of the first local user where it has
/// one, else `HUGINN-` and the upper-case host name.
pub open spec fn computer_identifier(si: SystemInfo, hostname: Seq<char>) -> Seq<char> {
    if si.users.users@.len() > 0 && si.users.users@[0].sid is Some {
        si.users.users@[0].sid.unwrap()@
    } else {
        "HUGINN-"@ + unicode_uppercase(hostname)
    }
}

/// The description that names the tool version and the risk score.
pub open spec fn assessment_description(version: Seq<char>, risk_score: u8) -> Seq<char> {
    "Huginn assessment v"@ + version + " | Risk Score: "@ + decimal(risk_score as nat)
}

/// Whether `r` lists the finding `f`.
pub open spec fn refers_to(r: FindingRef, f: Finding) -> bool {
    &&& r.rule_id@ == f.rule_id@
    &&& r.title@ == f.title@
    &&& r.severity@ == f.severity_label@
    &&& r.category@ == f.category_label@
}

/// Seconds since the Unix epoch, rounded down, of an instant given in microseconds.
fn unix_seconds(micros: i64) -> (r: i64)
    ensures
        r == micros as int / 1_000_000,
{
    let shifted: u128 = (micros as i128 + 10_000_000_000_000_000_000i128) as u128;
    let q: u128 = shifted / 1_000_000;
    (q as i128 - 10_000_000_000_000i128) as i64
}

fn copy_opt(s: &Option<String>) -> (r: Option<String>)
    ensures
        opt_view(r) == opt_view(*s),
{
    match s {
        Some(v) => Some(owned(v.as_str())),
        None => None,
    }
}

/// The BloodHound ingest file for a report: one computer object that carries
/// the assessment.
pub fn build_bloodhound_output(report: &Report) -> (out: BloodHoundOutput)
    requires
        report.summary.critical + report.summary.high + report.summary.medium + report.summary.low
            + report.summary.info <= usize::MAX,
    ensures
        out.meta.kind@ == "computers"@,
        out.meta.count == 1,
        out.meta.version == 4,
        out.data@.len() == 1,
        ({
            let si = report.system_info;
            let c = out.data@[0];
            let fails = failed_seq(report.findings@);
            let top = c.huginn_assessment.top_findings@;
            &&& c.object_identifier@ == computer_identifier(si, report.target_hostname@)
            &&& c.properties.name@ == computer_name(report.target_hostname@, opt_view(si.os.domain))
            &&& opt_view(c.properties.domain) == opt_view(si.os.domain)
            &&& c.properties.operatingsystem@ == si.os.name@
            &&& c.properties.operatingsystemversion@ == si.os.version@
            &&& c.properties.enabled
            &&& !c.properties.haslaps
            &&& !c.properties.unconstraineddelegation
            &&& c.properties.lastlogon == report.generated_at_micros as int / 1_000_000
            &&& c.properties.lastlogontimestamp == report.generated_at_micros as int / 1_000_000
            &&& c.properties.pwdlastset == 0
            &&& c.properties.serviceprincipalnames@.len() == 0
            &&& c.properties.description matches Some(d) && d@ == assessment_description(
                report.version@,
                report.summary.risk_score,
            )
            &&& c.properties.huginn_risk_score == report.summary.risk_score
            &&& c.properties.huginn_critical == report.summary.critical
            &&& c.huginn_assessment.version@ == report.version@
            &&& c.huginn_assessment.risk_score == report.summary.risk_score
            &&& c.huginn_assessment.total_findings == report.summary.critical + report.summary.high
                + report.summary.medium + report.summary.low + report.summary.info
            &&& c.huginn_assessment.critical == report.summary.critical
            &&& c.huginn_assessment.high == report.summary.high
            &&& c.huginn_assessment.medium == report.summary.medium
            &&& c.huginn_assessment.low == report.summary.low
            &&& c.huginn_assessment.collected_at@ == report.generated_at_display@
            &&& top.len() == if fails.len() < 10 {
                fails.len()
            } else {
                10
            }
            &&& forall|i: int| 0 <= i < top.len() ==> refers_to(#[trigger] top[i], fails[i])
        }),
{
    let si = &report.system_info;
    let hostname_upper = to_uppercase(report.target_hostname.as_str());
    let name = match &si.os.domain {
        Some(d) => {
            let du = to_uppercase(d.as_str());
            concat3(hostname_upper.as_str(), ".", du.as_str())
        },
        None => owned(hostname_upper.as_str()),
    };

    let fails = report.failed_findings();
    let n: usize = if fails.len() < TOP_FINDINGS {
        fails.len()
    } else {
        TOP_FINDINGS
    };
    let mut top: Vec<FindingRef> = Vec::new();
    let mut i: usize = 0;
    while i < n
        invariant
            n <= fails.len(),
            i <= n,
            deref_seq(fails@) == failed_seq(report.findings@),
            top@.len() == i,
            forall|k: int| 0 <= k < i ==> refers_to(#[trigger] top@[k], failed_seq(report.findings@)[k]),
        decreases n - i,
    {
        let f: &Finding = fails[i];
        assert(*f == deref_seq(fails@)[i as int]);
        top.push(
            FindingRef {
                rule_id: owned(f.rule_id.as_str()),
                title: owned(f.title.as_str()),
                severity: owned(f.severity_label.as_str()),
                category: owned(f.category_label.as_str()),
            },
        );
        i = i + 1;
    }

    let object_identifier = if si.users.users.len() > 0 && si.users.users[0].sid.is_some() {
        match &si.users.users[0].sid {
            Some(sid) => owned(sid.as_str()),
            None => concat("HUGINN-", hostname_upper.as_str()),
        }
    } else {
        concat("HUGINN-", hostname_upper.as_str())
    };

    let score_text = u64_to_string(report.summary.risk_score as u64);
    let head = concat3("Huginn assessment v", report.version.as_str(), " | Risk Score: ");
    let description = concat(head.as_str(), score_text.as_str());
    let secs = unix_seconds(report.generated_at_micros);

    let computer = BloodHoundComputer {
        object_identifier,
        properties: ComputerProperties {
            name,
            domain: copy_opt(&si.os.domain),
            operatingsystem: owned(si.os.name.as_str()),
            operatingsystemversion: owned(si.os.version.as_str()),
            enabled: true,
            haslaps: false,
            unconstraineddelegation: false,
            lastlogon: secs,
            lastlogontimestamp: secs,
            pwdlastset: 0,
            serviceprincipalnames: Vec::new(),
            description: Some(description),
            huginn_risk_score: report.summary.risk_score,
            huginn_critical: report.summary.critical,
        },
        huginn_assessment: HuginnAssessment {
            version: owned(report.version.as_str()),
            risk_score: report.summary.risk_score,
            total_findings: report.summary.total_failed(),
            critical: report.summary.critical,
            high: report.summary.high,
            medium: report.summary.medium,
            low: report.summary.low,
            collected_at: owned(report.generated_at_display.as_str()),
            top_findings: top,
        },
    };
    let mut data: Vec<BloodHoundComputer> = Vec::new();
    data.push(computer);
    BloodHoundOutput {
        meta: BloodHoundMeta { kind: owned("computers"), count: 1, version: 4 },
        data,
    }
}

} // verus!
