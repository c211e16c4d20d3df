//! The settings of a run, and what a run keeps of the findings.
use vstd::prelude::*;

use crate::cli::{Cli, OutputFormat};
use crate::models::finding::Finding;

verus! {

/// How a run writes its results.
#[derive(Debug)]
pub struct RunnerConfig {
    pub output_dir: String,
    pub output_format: OutputFormat,
    pub quiet: bool,
    pub collectors: Option<Vec<String>>,
    pub include_passed: bool,
}

impl RunnerConfig {
    /// The settings that the command line gives, and its command.
    pub fn from_cli(cli: Cli) -> (r: (RunnerConfig, Option<crate::cli::Command>))
        ensures
            r.0.output_dir@ == cli.dir@,
            r.0.output_format == cli.output,
            r.0.quiet == cli.quiet,
            r.0.collectors == cli.collectors,
            r.0.include_passed == cli.include_passed,
            r.1 == cli.command,
    {
        let Cli { command, output, dir, quiet, collectors, include_passed } = cli;
        (RunnerConfig { output_dir: dir, output_format: output, quiet, collectors, include_passed }, command)
    }
}

/// The findings of `s` that a report keeps: all of them with passed checks
/// included, else those that did not pass, in order.
pub open spec fn kept_findings(s: Seq<Finding>, include_passed: bool) -> Seq<Finding>
    decreases s.len(),
{
    if s.len() == 0 {
        s
    } else if include_passed || !s.last().passed {
        kept_findings(s.drop_last(), include_passed).push(s.last())
    } else {
        kept_findings(s.drop_last(), include_passed)
    }
}

/// The findings that a report keeps (see `kept_findings`).
pub fn keep_reported(findings: Vec<Finding>, include_passed: bool) -> (r: Vec<Finding>)
    ensures
        r@ == kept_findings(findings@, include_passed),
{
    let ghost orig = findings@;
    let mut rest = findings;
    let mut out: Vec<Finding> = Vec::new();
    let ghost mut i: int = 0;
    while rest.len() > 0
        invariant
            0 <= i <= orig.len(),
            rest@ == orig.skip(i),
            out@ == kept_findings(orig.take(i), include_passed),
        decreases rest.len(),
    {
        let f = rest.remove(0);
        proof {
            assert(f == orig[i]);
            assert(orig.take(i + 1).drop_last() =~= orig.take(i));
            assert(orig.take(i + 1).last() == orig[i]);
        }
        if include_passed || !f.passed {
            out.push(f);
        }
        proof {
            assert(rest@ =~= orig.skip(i + 1));
            i = i + 1;
        }
    }
    assert(orig.take(i) =~= orig);
    out
}

/// With passed checks included, a report keeps every finding.
pub proof fn lemma_keep_all(s: Seq<Finding>)
    ensures
        kept_findings(s, true) == s,
    decreases s.len(),
{
    if s.len() > 0 {
        lemma_keep_all(s.drop_last());
        assert(s.drop_last().push(s.last()) =~= s);
    }
}

/// Without passed checks, no kept finding passed.
pub proof fn lemma_keep_drops_passed(s: Seq<Finding>)
    ensures
        forall|i: int| 0 <= i < kept_findings(s, false).len() ==> !(#[trigger] kept_findings(s, false)[i]).passed,
    decreases s.len(),
{
    if s.len() > 0 {
        lemma_keep_drops_passed(s.drop_last());
    }
}

} // verus!
