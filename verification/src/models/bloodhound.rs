//! The shape of a BloodHound computers file that carries an assessment.
use vstd::prelude::*;

verus! {

/// A BloodHound ingest file: its header and its objects.
#[derive(Debug)]
pub struct BloodHoundOutput {
    pub meta: BloodHoundMeta,
    pub data: Vec<BloodHoundComputer>,
}

/// The header of an ingest file: the kind of its objects, their number and
/// the format version.
#[derive(Debug)]
pub struct BloodHoundMeta {
    pub kind: String,
    pub count: u32,
    pub version: u32,
}

/// One computer object.
#[derive(Debug)]
pub struct BloodHoundComputer {
    pub object_identifier: String,
    pub properties: ComputerProperties,
    pub huginn_assessment: HuginnAssessment,
}

/// The standard properties of a computer object, with the risk score and
/// the number of critical findings as node properties that queries can
/// filter on (`huginn_risk_score`, `huginn_critical`).
#[derive(Debug)]
pub struct ComputerProperties {
    pub name: String,
    pub domain: Option<String>,
    pub operatingsystem: String,
    pub operatingsystemversion: String,
    pub enabled: bool,
    pub haslaps: bool,
    pub unconstraineddelegation: bool,
    pub lastlogon: i64,
    pub lastlogontimestamp: i64,
    pub pwdlastset: i64,
    pub serviceprincipalnames: Vec<String>,
    pub description: Option<String>,
    pub huginn_risk_score: u8,
    pub huginn_critical: usize,
}

/// The assessment attached to a computer object.
#[derive(Debug)]
pub struct HuginnAssessment {
    pub version: String,
    pub risk_score: u8,
    pub total_findings: usize,
    pub critical: usize,
    pub high: usize,
    pub medium: usize,
    pub low: usize,
    pub collected_at: String,
    pub top_findings: Vec<FindingRef>,
}

/// A failed finding as the assessment lists it.
#[derive(Debug)]
pub struct FindingRef {
    pub rule_id: String,
    pub title: String,
    pub severity: String,
    pub category: String,
}

} // verus!
