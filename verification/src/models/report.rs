//! The assessment report: the findings ranked by severity, and their tally.
use vstd::prelude::*;

use crate::models::finding::{now_micros, opt_view, Finding, Severity};
use crate::models::system_info::SystemInfo;
use crate::text::{lex_less, lex_lt, owned, to_chars};

verus! {

/// The version of the tool that writes reports.
pub const VERSION: &'static str = "0.1.0";

/// How `generated_at_display` writes the generation time.
pub const DISPLAY_TIME_FORMAT: &'static str = "%Y-%m-%d %H:%M:%S UTC";

// ---------------------------------------------------------------------------
// Tally
// ---------------------------------------------------------------------------

/// Where a finding is counted in the summary.
#[derive(Debug, Clone, Copy, PartialEq, Eq, Structural)]
pub enum Outcome {
    Skipped,
    Passed,
    Failed(Severity),
}

/// The bucket of a finding: a skipped rule counts as skipped whatever else
/// it says, a passed one as passed, any other by its severity.
pub open spec fn outcome(f: Finding) -> Outcome {
    if f.skipped {
        Outcome::Skipped
    } else if f.passed {
        Outcome::Passed
    } else {
        Outcome::Failed(f.severity)
    }
}

/// How many findings of `s` fall in bucket `o`.
pub open spec fn count_outcome(s: Seq<Finding>, o: Outcome) -> nat
    decreases s.len(),
{
    if s.len() == 0 {
        0
    } else {
        count_outcome(s.drop_last(), o) + if outcome(s.last()) == o {
            1nat
        } else {
            0nat
        }
    }
}

pub proof fn lemma_count_outcome_bound(s: Seq<Finding>, o: Outcome)
    ensures
        count_outcome(s, o) <= s.len(),
    decreases s.len(),
{
    if s.len() > 0 {
        lemma_count_outcome_bound(s.drop_last(), o);
    }
}

/// The risk score of a tally: the weighted failures as a percentage of the
/// worst case (every counted rule failed as critical), capped at 100; 0 when
/// no rule was counted. Skipped rules are left out of both.
pub open spec fn risk_score_of(
    critical: int,
    high: int,
    medium: int,
    low: int,
    info: int,
    passed: int,
) -> int {
    let raw = critical * 5 + high * 4 + medium * 3 + low * 2 + info;
    let total = critical + high + medium + low + info + passed;
    if total == 0 {
        0
    } else if raw * 100 / (total * 5) > 100 {
        100
    } else {
        raw * 100 / (total * 5)
    }
}

/// Every finding is counted in exactly one bucket of the summary.
pub proof fn lemma_tally_covers_all(s: Seq<Finding>)
    ensures
        count_outcome(s, Outcome::Failed(Severity::Critical)) + count_outcome(
            s,
            Outcome::Failed(Severity::High),
        ) + count_outcome(s, Outcome::Failed(Severity::Medium)) + count_outcome(
            s,
            Outcome::Failed(Severity::Low),
        ) + count_outcome(s, Outcome::Failed(Severity::Info)) + count_outcome(s, Outcome::Passed)
            + count_outcome(s, Outcome::Skipped) == s.len(),
    decreases s.len(),
{
    if s.len() > 0 {
        lemma_tally_covers_all(s.drop_last());
    }
}

/// The failed findings of a sequence are as many as its failures of every
/// severity together.
pub proof fn lemma_failed_count(s: Seq<Finding>)
    ensures
        failed_seq(s).len() == count_outcome(s, Outcome::Failed(Severity::Critical)) + count_outcome(
            s,
            Outcome::Failed(Severity::High),
        ) + count_outcome(s, Outcome::Failed(Severity::Medium)) + count_outcome(
            s,
            Outcome::Failed(Severity::Low),
        ) + count_outcome(s, Outcome::Failed(Severity::Info)),
    decreases s.len(),
{
    if s.len() > 0 {
        lemma_failed_count(s.drop_last());
    }
}

/// The risk score lies between 0 and 100.
pub proof fn lemma_risk_score_range(
    critical: nat,
    high: nat,
    medium: nat,
    low: nat,
    info: nat,
    passed: nat,
)
    ensures
        0 <= risk_score_of(critical as int, high as int, medium as int, low as int, info as int, passed as int) <= 100,
{
    let raw = critical * 5 + high * 4 + medium * 3 + low * 2 + info;
    let total = critical + high + medium + low + info + passed;
    if total > 0 {
        assert(raw * 100 / (total * 5) >= 0) by (nonlinear_arith)
            requires
                raw >= 0,
                total > 0,
        ;
    }
}

/// Where nothing failed, the risk score is 0.
pub proof fn lemma_risk_score_no_failures(passed: nat)
    ensures
        risk_score_of(0, 0, 0, 0, 0, passed as int) == 0,
{
}

/// Where every counted rule failed as critical, the risk score is 100.
pub proof fn lemma_risk_score_all_critical(critical: nat)
    requires
        critical > 0,
    ensures
        risk_score_of(critical as int, 0, 0, 0, 0, 0) == 100,
{
    assert(critical * 5 * 100 / (critical * 5) == 100) by (nonlinear_arith)
        requires
            critical > 0,
    ;
}

/// The number of findings of each kind in a report, and its risk score.
#[derive(Debug, Clone)]
pub struct SeveritySummary {
    pub critical: usize,
    pub high: usize,
    pub medium: usize,
    pub low: usize,
    pub info: usize,
    pub passed: usize,
    pub skipped: usize,
    pub risk_score: u8,
}

impl SeveritySummary {
    /// The risk score that the counts of this summary give.
    pub open spec fn spec_risk_score(&self) -> int {
        risk_score_of(
            self.critical as int,
            self.high as int,
            self.medium as int,
            self.low as int,
            self.info as int,
            self.passed as int,
        )
    }

    /// Whether this summary is the tally of `s`.
    pub open spec fn tallies(&self, s: Seq<Finding>) -> bool {
        &&& self.critical == count_outcome(s, Outcome::Failed(Severity::Critical))
        &&& self.high == count_outcome(s, Outcome::Failed(Severity::High))
        &&& self.medium == count_outcome(s, Outcome::Failed(Severity::Medium))
        &&& self.low == count_outcome(s, Outcome::Failed(Severity::Low))
        &&& self.info == count_outcome(s, Outcome::Failed(Severity::Info))
        &&& self.passed == count_outcome(s, Outcome::Passed)
        &&& self.skipped == count_outcome(s, Outcome::Skipped)
        &&& self.risk_score == self.spec_risk_score()
    }

    /// Counts the findings by outcome and computes the risk score.
    pub fn from_findings(findings: &[Finding]) -> (s: Self)
        ensures
            s.tallies(findings@),
    {
        let mut s = SeveritySummary {
            critical: 0,
            high: 0,
            medium: 0,
            low: 0,
            info: 0,
            passed: 0,
            skipped: 0,
            risk_score: 0,
        };
        let mut i: usize = 0;
        while i < findings.len()
            invariant
                i <= findings.len(),
                s.critical == count_outcome(findings@.take(i as int), Outcome::Failed(Severity::Critical)),
                s.high == count_outcome(findings@.take(i as int), Outcome::Failed(Severity::High)),
                s.medium == count_outcome(findings@.take(i as int), Outcome::Failed(Severity::Medium)),
                s.low == count_outcome(findings@.take(i as int), Outcome::Failed(Severity::Low)),
                s.info == count_outcome(findings@.take(i as int), Outcome::Failed(Severity::Info)),
                s.passed == count_outcome(findings@.take(i as int), Outcome::Passed),
                s.skipped == count_outcome(findings@.take(i as int), Outcome::Skipped),
            decreases findings.len() - i,
        {
            let ghost prefix = findings@.take(i as int);
            let ghost next = findings@.take(i + 1);
            proof {
                assert(next.drop_last() =~= prefix);
                assert(next.last() == findings@[i as int]);
                lemma_count_outcome_bound(prefix, Outcome::Skipped);
                lemma_count_outcome_bound(prefix, Outcome::Passed);
                lemma_count_outcome_bound(prefix, Outcome::Failed(Severity::Critical));
                lemma_count_outcome_bound(prefix, Outcome::Failed(Severity::High));
                lemma_count_outcome_bound(prefix, Outcome::Failed(Severity::Medium));
                lemma_count_outcome_bound(prefix, Outcome::Failed(Severity::Low));
                lemma_count_outcome_bound(prefix, Outcome::Failed(Severity::Info));
            }
            let f = &findings[i];
            if f.skipped {
                s.skipped = s.skipped + 1;
            } else if f.passed {
                s.passed = s.passed + 1;
            } else {
                match f.severity {
                    Severity::Critical => s.critical = s.critical + 1,
                    Severity::High => s.high = s.high + 1,
                    Severity::Medium => s.medium = s.medium + 1,
                    Severity::Low => s.low = s.low + 1,
                    Severity::Info => s.info = s.info + 1,
                }
            }
            i = i + 1;
        }
        assert(findings@.take(findings.len() as int) =~= findings@);
        s.risk_score = s.compute_risk_score();
        s
    }

    /// The risk score of the counts (see `risk_score_of`).
    pub fn compute_risk_score(&self) -> (r: u8)
        ensures
            r == self.spec_risk_score(),
    {
        let c: u128 = self.critical as u128;
        let h: u128 = self.high as u128;
        let m: u128 = self.medium as u128;
        let l: u128 = self.low as u128;
        let n: u128 = self.info as u128;
        let p: u128 = self.passed as u128;
        let raw: u128 = c * 5 + h * 4 + m * 3 + l * 2 + n;
        let total: u128 = c + h + m + l + n + p;
        if total == 0 {
            return 0;
        }
        let q: u128 = (raw * 100) / (total * 5);
        if q > 100 {
            100
        } else {
            q as u8
        }
    }

    /// The number of failed findings, of every severity.
    pub fn total_failed(&self) -> (r: usize)
        requires
            self.critical + self.high + self.medium + self.low + self.info <= usize::MAX,
        ensures
            r == self.critical + self.high + self.medium + self.low + self.info,
    {
        self.critical + self.high + self.medium + self.low + self.info
    }
}

// ---------------------------------------------------------------------------
// Ranking
// ---------------------------------------------------------------------------

/// Whether `a` is listed strictly before `b` in a report: the heavier
/// severity first, and among equal severities the smaller rule id.
pub open spec fn ranks_before(a: Finding, b: Finding) -> bool {
    ||| a.severity.spec_weight() > b.severity.spec_weight()
    ||| (a.severity.spec_weight() == b.severity.spec_weight() && lex_lt(a.rule_id@, b.rule_id@))
}

/// Where `x` goes in `s`: before the first finding that it ranks before.
pub open spec fn rank_position(s: Seq<Finding>, x: Finding) -> nat
    decreases s.len(),
{
    if s.len() == 0 {
        0
    } else if ranks_before(x, s[0]) {
        0
    } else {
        1 + rank_position(s.drop_first(), x)
    }
}

/// The findings of `s` in report order: each one in turn goes in before the
/// first finding already placed that it ranks before, so findings of equal
/// rank keep their order.
pub open spec fn rank_sort(s: Seq<Finding>) -> Seq<Finding>
    decreases s.len(),
{
    if s.len() == 0 {
        s
    } else {
        let t = rank_sort(s.drop_last());
        t.insert(rank_position(t, s.last()) as int, s.last())
    }
}

/// Whether no finding of `s` ranks before one that comes earlier.
pub open spec fn is_ranked(s: Seq<Finding>) -> bool {
    forall|i: int, j: int| 0 <= i < j < s.len() ==> !ranks_before(#[trigger] s[j], #[trigger] s[i])
}

proof fn lemma_ranks_before_asymmetric(a: Finding, b: Finding)
    ensures
        ranks_before(a, b) ==> !ranks_before(b, a),
{
    crate::text::lemma_lex_asymmetric(a.rule_id@, b.rule_id@);
}

proof fn lemma_ranks_before_transitive(a: Finding, b: Finding, c: Finding)
    ensures
        ranks_before(a, b) && ranks_before(b, c) ==> ranks_before(a, c),
{
    crate::text::lemma_lex_transitive(a.rule_id@, b.rule_id@, c.rule_id@);
}

proof fn lemma_rank_position_bounds(s: Seq<Finding>, x: Finding)
    ensures
        rank_position(s, x) <= s.len(),
        forall|k: int| 0 <= k < rank_position(s, x) ==> !ranks_before(x, #[trigger] s[k]),
        rank_position(s, x) < s.len() ==> ranks_before(x, s[rank_position(s, x) as int]),
    decreases s.len(),
{
    if s.len() > 0 && !ranks_before(x, s[0]) {
        lemma_rank_position_bounds(s.drop_first(), x);
        assert forall|k: int| 0 <= k < rank_position(s, x) implies !ranks_before(x, #[trigger] s[k]) by {
            if k > 0 {
                assert(s[k] == s.drop_first()[k - 1]);
            }
        }
    }
}

proof fn lemma_rank_position_unique(s: Seq<Finding>, x: Finding, p: int)
    requires
        0 <= p <= s.len(),
        forall|k: int| 0 <= k < p ==> !ranks_before(x, #[trigger] s[k]),
        p < s.len() ==> ranks_before(x, s[p]),
    ensures
        rank_position(s, x) == p,
    decreases s.len(),
{
    if s.len() > 0 && p > 0 {
        assert(!ranks_before(x, s[0]));
        assert forall|k: int| 0 <= k < p - 1 implies !ranks_before(x, #[trigger] s.drop_first()[k]) by {
            assert(s.drop_first()[k] == s[k + 1]);
        }
        lemma_rank_position_unique(s.drop_first(), x, p - 1);
    }
}

/// Inserting a finding at its rank position keeps a ranked sequence ranked.
proof fn lemma_insert_keeps_ranked(t: Seq<Finding>, x: Finding)
    requires
        is_ranked(t),
    ensures
        is_ranked(t.insert(rank_position(t, x) as int, x)),
{
    let p = rank_position(t, x) as int;
    lemma_rank_position_bounds(t, x);
    let u = t.insert(p, x);
    assert forall|i: int, j: int| 0 <= i < j < u.len() implies !ranks_before(#[trigger] u[j], #[trigger] u[i]) by {
        if j < p {
            assert(u[i] == t[i] && u[j] == t[j]);
        } else if j == p {
            assert(u[i] == t[i]);
            assert(u[j] == x);
        } else if i < p {
            assert(u[i] == t[i] && u[j] == t[j - 1]);
            if ranks_before(t[j - 1], t[i]) {
            }
        } else if i == p {
            assert(u[i] == x && u[j] == t[j - 1]);
            if j - 1 == p {
                lemma_ranks_before_asymmetric(x, t[p]);
            } else {
                assert(!ranks_before(t[j - 1], t[p]));
                lemma_ranks_before_transitive(t[j - 1], x, t[p]);
            }
        } else {
            assert(u[i] == t[i - 1] && u[j] == t[j - 1]);
        }
    }
}

/// Ranking gives a ranked sequence.
pub proof fn lemma_rank_sort_ranked(s: Seq<Finding>)
    ensures
        is_ranked(rank_sort(s)),
    decreases s.len(),
{
    if s.len() > 0 {
        lemma_rank_sort_ranked(s.drop_last());
        lemma_insert_keeps_ranked(rank_sort(s.drop_last()), s.last());
    }
}

/// Ranking neither drops nor adds a finding: it reorders them.
pub proof fn lemma_rank_sort_permutes(s: Seq<Finding>)
    ensures
        rank_sort(s).to_multiset() == s.to_multiset(),
        rank_sort(s).len() == s.len(),
    decreases s.len(),
{
    if s.len() > 0 {
        let t = rank_sort(s.drop_last());
        lemma_rank_sort_permutes(s.drop_last());
        lemma_rank_position_bounds(t, s.last());
        vstd::seq_lib::to_multiset_insert(t, rank_position(t, s.last()) as int, s.last());
        vstd::seq_lib::to_multiset_build(s.drop_last(), s.last());
        assert(s.drop_last().push(s.last()) =~= s);
    }
}

proof fn lemma_count_outcome_insert(t: Seq<Finding>, p: int, x: Finding, o: Outcome)
    requires
        0 <= p <= t.len(),
    ensures
        count_outcome(t.insert(p, x), o) == count_outcome(t, o) + if outcome(x) == o {
            1nat
        } else {
            0nat
        },
    decreases t.len(),
{
    if p == t.len() {
        assert(t.insert(p, x).drop_last() =~= t);
    } else {
        lemma_count_outcome_insert(t.drop_last(), p, x, o);
        assert(t.insert(p, x).drop_last() =~= t.drop_last().insert(p, x));
        assert(t.insert(p, x).last() == t.last());
    }
}

/// Ranking leaves the tally unchanged: a report counts the findings it was
/// given, whatever their order.
pub proof fn lemma_rank_sort_keeps_tally(s: Seq<Finding>, o: Outcome)
    ensures
        count_outcome(rank_sort(s), o) == count_outcome(s, o),
    decreases s.len(),
{
    if s.len() > 0 {
        let t = rank_sort(s.drop_last());
        lemma_rank_sort_keeps_tally(s.drop_last(), o);
        lemma_rank_position_bounds(t, s.last());
        lemma_count_outcome_insert(t, rank_position(t, s.last()) as int, s.last(), o);
    }
}

proof fn lemma_count_outcome_filter(s: Seq<Finding>, o: Outcome, pred: spec_fn(Finding) -> bool)
    requires
        forall|f: Finding| #[trigger] pred(f) == (outcome(f) == o),
    ensures
        count_outcome(s, o) == s.filter(pred).len(),
    decreases s.len(),
{
    reveal(Seq::filter);
    if s.len() > 0 {
        lemma_count_outcome_filter(s.drop_last(), o, pred);
    }
}

/// How the summary counts: each failed finding (neither skipped nor passed)
/// in the counter of its own severity, passed findings in `passed`, skipped
/// ones in `skipped`; and the risk score weights failures 5 (critical),
/// 4 (high), 3 (medium), 2 (low) and 1 (info) against 5 for every counted
/// finding, as a percentage capped at 100, and is 0 when nothing was counted.
pub proof fn lemma_summary_counts(summary: SeveritySummary, s: Seq<Finding>)
    requires
        summary.tallies(s),
    ensures
        summary.critical == s.filter(|f: Finding| !f.skipped && !f.passed && f.severity == Severity::Critical).len(),
        summary.high == s.filter(|f: Finding| !f.skipped && !f.passed && f.severity == Severity::High).len(),
        summary.medium == s.filter(|f: Finding| !f.skipped && !f.passed && f.severity == Severity::Medium).len(),
        summary.low == s.filter(|f: Finding| !f.skipped && !f.passed && f.severity == Severity::Low).len(),
        summary.info == s.filter(|f: Finding| !f.skipped && !f.passed && f.severity == Severity::Info).len(),
        summary.passed == s.filter(|f: Finding| !f.skipped && f.passed).len(),
        summary.skipped == s.filter(|f: Finding| f.skipped).len(),
        ({
            let weighted = 5 * summary.critical + 4 * summary.high + 3 * summary.medium + 2 * summary.low
                + summary.info;
            let counted = summary.critical + summary.high + summary.medium + summary.low + summary.info
                + summary.passed;
            &&& counted == 0 ==> summary.risk_score == 0
            &&& counted > 0 && weighted * 100 / (5 * counted) <= 100 ==> summary.risk_score == weighted * 100 / (5 * counted)
            &&& counted > 0 && weighted * 100 / (5 * counted) > 100 ==> summary.risk_score == 100
        }),
{
    lemma_count_outcome_filter(s, Outcome::Failed(Severity::Critical), |f: Finding| !f.skipped && !f.passed && f.severity == Severity::Critical);
    lemma_count_outcome_filter(s, Outcome::Failed(Severity::High), |f: Finding| !f.skipped && !f.passed && f.severity == Severity::High);
    lemma_count_outcome_filter(s, Outcome::Failed(Severity::Medium), |f: Finding| !f.skipped && !f.passed && f.severity == Severity::Medium);
    lemma_count_outcome_filter(s, Outcome::Failed(Severity::Low), |f: Finding| !f.skipped && !f.passed && f.severity == Severity::Low);
    lemma_count_outcome_filter(s, Outcome::Failed(Severity::Info), |f: Finding| !f.skipped && !f.passed && f.severity == Severity::Info);
    lemma_count_outcome_filter(s, Outcome::Passed, |f: Finding| !f.skipped && f.passed);
    lemma_count_outcome_filter(s, Outcome::Skipped, |f: Finding| f.skipped);
}

/// The count of a bucket depends on the findings alone, not on their order:
/// two sequences with the same findings, each as often, count alike.
proof fn lemma_count_outcome_reorder(a: Seq<Finding>, b: Seq<Finding>, o: Outcome)
    requires
        a.to_multiset() == b.to_multiset(),
    ensures
        count_outcome(a, o) == count_outcome(b, o),
    decreases a.len(),
{
    broadcast use vstd::seq_lib::group_to_multiset_ensures;

    if a.len() == 0 {
        assert(b.to_multiset().len() == 0);
        assert(b.len() == 0);
    } else {
        let x = a.last();
        let a0 = a.drop_last();
        assert(a0.push(x) =~= a);
        assert(a.to_multiset() == a0.to_multiset().insert(x));
        assert(a.contains(x)) by {
            assert(a[a.len() - 1] == x);
        }
        assert(b.to_multiset().count(x) > 0);
        assert(b.contains(x));
        let k = choose|k: int| 0 <= k < b.len() && b[k] == x;
        let b0 = b.remove(k);
        assert(b0.to_multiset() == b.to_multiset().remove(x));
        assert(a0.to_multiset() =~= a.to_multiset().remove(x));
        lemma_count_outcome_reorder(a0, b0, o);
        assert(b0.insert(k, x) =~= b);
        lemma_count_outcome_insert(b0, k, x, o);
    }
}

/// A summary tallies a sequence of findings exactly when it tallies any
/// reordering of it: the summary does not depend on the findings' order.
pub proof fn lemma_tally_ignores_order(summary: SeveritySummary, a: Seq<Finding>, b: Seq<Finding>)
    requires
        a.to_multiset() == b.to_multiset(),
    ensures
        summary.tallies(a) == summary.tallies(b),
        forall|o: Outcome| #[trigger] count_outcome(a, o) == count_outcome(b, o),
{
    assert forall|o: Outcome| #[trigger] count_outcome(a, o) == count_outcome(b, o) by {
        lemma_count_outcome_reorder(a, b, o);
    }
}

/// Whether two findings rank alike: the same severity weight and rule id.
pub open spec fn same_rank(a: Finding, b: Finding) -> bool {
    a.severity.spec_weight() == b.severity.spec_weight() && a.rule_id@ == b.rule_id@
}

/// The findings of `s` that rank like `k`, in order.
pub open spec fn rank_class(s: Seq<Finding>, k: Finding) -> Seq<Finding>
    decreases s.len(),
{
    if s.len() == 0 {
        Seq::empty()
    } else if same_rank(s.last(), k) {
        rank_class(s.drop_last(), k).push(s.last())
    } else {
        rank_class(s.drop_last(), k)
    }
}

proof fn lemma_rank_class_concat(a: Seq<Finding>, b: Seq<Finding>, k: Finding)
    ensures
        rank_class(a + b, k) == rank_class(a, k) + rank_class(b, k),
    decreases b.len(),
{
    if b.len() == 0 {
        assert(a + b =~= a);
        assert(rank_class(a, k) + rank_class(b, k) =~= rank_class(a, k));
    } else {
        lemma_rank_class_concat(a, b.drop_last(), k);
        assert((a + b).drop_last() =~= a + b.drop_last());
        assert((a + b).last() == b.last());
        if same_rank(b.last(), k) {
            assert(rank_class(a, k) + rank_class(b.drop_last(), k).push(b.last()) =~= (rank_class(a, k)
                + rank_class(b.drop_last(), k)).push(b.last()));
        }
    }
}

proof fn lemma_rank_class_empty(s: Seq<Finding>, k: Finding)
    requires
        forall|j: int| 0 <= j < s.len() ==> !same_rank(#[trigger] s[j], k),
    ensures
        rank_class(s, k) == Seq::<Finding>::empty(),
    decreases s.len(),
{
    if s.len() > 0 {
        lemma_rank_class_empty(s.drop_last(), k);
    }
}

proof fn lemma_rank_class_insert(t: Seq<Finding>, x: Finding, k: Finding)
    requires
        is_ranked(t),
    ensures
        rank_class(t.insert(rank_position(t, x) as int, x), k) == if same_rank(x, k) {
            rank_class(t, k).push(x)
        } else {
            rank_class(t, k)
        },
{
    let p = rank_position(t, x) as int;
    lemma_rank_position_bounds(t, x);
    let head = t.take(p);
    let tail = t.skip(p);
    assert(t =~= head + tail);
    assert(t.insert(p, x) =~= head + seq![x] + tail);
    lemma_rank_class_concat(head, tail, k);
    lemma_rank_class_concat(head + seq![x], tail, k);
    lemma_rank_class_concat(head, seq![x], k);
    assert(seq![x].drop_last() =~= Seq::<Finding>::empty());
    assert(seq![x].last() == x);
    assert(rank_class(Seq::<Finding>::empty(), k) =~= Seq::<Finding>::empty());
    if same_rank(x, k) {
        assert(rank_class(seq![x], k) =~= seq![x]);
        assert forall|j: int| 0 <= j < tail.len() implies !same_rank(#[trigger] tail[j], k) by {
            assert(tail[j] == t[p + j]);
            if same_rank(t[p + j], k) {
                crate::text::lemma_lex_irreflexive(x.rule_id@);
                if j > 0 {
                    assert(!ranks_before(t[p + j], t[p]));
                }
            }
        }
        lemma_rank_class_empty(tail, k);
        assert(rank_class(t, k) =~= rank_class(head, k));
        assert(rank_class(head, k) + seq![x] + Seq::<Finding>::empty() =~= rank_class(head, k).push(x));
    } else {
        assert(rank_class(seq![x], k) =~= Seq::<Finding>::empty());
        assert(rank_class(head, k) + Seq::<Finding>::empty() =~= rank_class(head, k));
    }
}

/// Ranking is stable: the findings that rank alike come out in the order
/// they were given.
pub proof fn lemma_rank_sort_stable(s: Seq<Finding>, k: Finding)
    ensures
        rank_class(rank_sort(s), k) == rank_class(s, k),
    decreases s.len(),
{
    if s.len() > 0 {
        let t = rank_sort(s.drop_last());
        lemma_rank_sort_stable(s.drop_last(), k);
        lemma_rank_sort_ranked(s.drop_last());
        lemma_rank_class_insert(t, s.last(), k);
    }
}

/// Whether `a` is listed strictly before `b`.
pub fn finding_ranks_before(a: &Finding, b: &Finding) -> (r: bool)
    ensures
        r == ranks_before(*a, *b),
{
    let wa = a.severity.weight();
    let wb = b.severity.weight();
    if wa != wb {
        wa > wb
    } else {
        let ra = to_chars(a.rule_id.as_str());
        let rb = to_chars(b.rule_id.as_str());
        lex_less(ra.as_slice(), rb.as_slice())
    }
}

/// Orders findings for a report (see `rank_sort`).
pub fn rank_findings(findings: Vec<Finding>) -> (r: Vec<Finding>)
    ensures
        r@ == rank_sort(findings@),
{
    let ghost orig = findings@;
    let mut rest = findings;
    let mut out: Vec<Finding> = Vec::new();
    let ghost mut i: int = 0;
    while rest.len() > 0
        invariant
            0 <= i <= orig.len(),
            rest@ == orig.skip(i),
            out@ == rank_sort(orig.take(i)),
        decreases rest.len(),
    {
        let f = rest.remove(0);
        proof {
            assert(f == orig[i]);
            assert(orig.take(i + 1).drop_last() =~= orig.take(i));
            assert(orig.take(i + 1).last() == orig[i]);
        }
        let mut p: usize = 0;
        while p < out.len() && !finding_ranks_before(&f, &out[p])
            invariant
                p <= out.len(),
                forall|k: int| 0 <= k < p ==> !ranks_before(f, #[trigger] out@[k]),
            decreases out.len() - p,
        {
            p = p + 1;
        }
        proof {
            lemma_rank_position_unique(out@, f, p as int);
        }
        out.insert(p, f);
        proof {
            assert(rest@ =~= orig.skip(i + 1));
            i = i + 1;
        }
    }
    assert(orig.take(i) =~= orig);
    out
}

// ---------------------------------------------------------------------------
// Report
// ---------------------------------------------------------------------------

/// What `chrono` writes for the instant `micros` microseconds after the Unix
/// epoch, in UTC, with the strftime pattern `pattern`; `None` where the
/// instant lies outside the range of `chrono::DateTime`.
pub uninterp spec fn utc_text(micros: int, pattern: Seq<char>) -> Option<Seq<char>>;

/// `chrono::DateTime::<Utc>::from_timestamp_micros` followed by `format`
/// with `pattern` and `to_string`. The text is named by `utc_text`, a
/// function of the instant and the pattern alone. The pattern is the
/// report's display pattern, whose items are all well formed: on a malformed
/// pattern (a lone `%`, say) chrono's `to_string` panics.
#[verifier::external_body]
fn format_utc_micros(micros: i64, pattern: &str) -> (r: Option<String>)
    requires
        pattern@ == DISPLAY_TIME_FORMAT@,
    ensures
        opt_view(r) == utc_text(micros as int, pattern@),
{
    match chrono::DateTime::from_timestamp_micros(micros) {
        Some(dt) => Some(dt.format(pattern).to_string()),
        None => None,
    }
}

/// The text that a report shows for its generation time.
pub open spec fn display_time(micros: int) -> Seq<char> {
    match utc_text(micros, DISPLAY_TIME_FORMAT@) {
        Some(t) => t,
        None => Seq::empty(),
    }
}

/// A full assessment: what was collected, the findings in report order, and
/// their summary.
#[derive(Debug, Clone)]
pub struct Report {
    pub version: String,
    /// When the report was made, in microseconds since the Unix epoch.
    pub generated_at_micros: i64,
    pub generated_at_display: String,
    pub target_hostname: String,
    pub target_os: String,
    pub system_info: SystemInfo,
    pub findings: Vec<Finding>,
    pub summary: SeveritySummary,
}

/// Whether `f` failed: neither passed nor skipped.
pub open spec fn is_failed(f: Finding) -> bool {
    !f.passed && !f.skipped
}

/// The failed findings of `s`, in their order.
pub open spec fn failed_seq(s: Seq<Finding>) -> Seq<Finding>
    decreases s.len(),
{
    if s.len() == 0 {
        s
    } else if is_failed(s.last()) {
        failed_seq(s.drop_last()).push(s.last())
    } else {
        failed_seq(s.drop_last())
    }
}

/// The findings that a sequence of references points to.
pub open spec fn deref_seq(s: Seq<&Finding>) -> Seq<Finding> {
    s.map_values(|f: &Finding| *f)
}

impl Report {
    /// Whether this report was assembled from `system_info` and `findings` at
    /// `micros`.
    pub open spec fn assembled_from(
        &self,
        system_info: SystemInfo,
        findings: Seq<Finding>,
        micros: i64,
    ) -> bool {
        &&& self.version@ == VERSION@
        &&& self.generated_at_micros == micros
        &&& self.generated_at_display@ == display_time(micros as int)
        &&& self.target_hostname@ == system_info.os.hostname@
        &&& self.target_os@ == system_info.os.name@
        &&& self.system_info == system_info
        &&& self.findings@ == rank_sort(findings)
        &&& self.summary.tallies(self.findings@)
    }

    /// A report of `findings` on the host described by `system_info`, made
    /// at the instant `micros`.
    pub fn assemble(system_info: SystemInfo, findings: Vec<Finding>, micros: i64) -> (r: Self)
        ensures
            r.assembled_from(system_info, findings@, micros),
    {
        let ranked = rank_findings(findings);
        let summary = SeveritySummary::from_findings(ranked.as_slice());
        let display = match format_utc_micros(micros, DISPLAY_TIME_FORMAT) {
            Some(t) => t,
            None => String::new(),
        };
        let target_hostname = owned(system_info.os.hostname.as_str());
        let target_os = owned(system_info.os.name.as_str());
        Report {
            version: owned(VERSION),
            generated_at_micros: micros,
            generated_at_display: display,
            target_hostname,
            target_os,
            system_info,
            findings: ranked,
            summary,
        }
    }

    /// A report of `findings` on the host described by `system_info`, made now.
    pub fn new(system_info: SystemInfo, findings: Vec<Finding>) -> (r: Self)
        ensures
            r.assembled_from(system_info, findings@, r.generated_at_micros),
    {
        let micros = now_micros();
        Self::assemble(system_info, findings, micros)
    }

    /// The findings of the report that failed, in report order.
    pub fn failed_findings(&self) -> (r: Vec<&Finding>)
        ensures
            deref_seq(r@) == failed_seq(self.findings@),
    {
        let mut r: Vec<&Finding> = Vec::new();
        let mut i: usize = 0;
        while i < self.findings.len()
            invariant
                i <= self.findings.len(),
                deref_seq(r@) == failed_seq(self.findings@.take(i as int)),
            decreases self.findings.len() - i,
        {
            let f = &self.findings[i];
            proof {
                assert(self.findings@.take(i + 1).drop_last() =~= self.findings@.take(i as int));
            }
            if !f.passed && !f.skipped {
                r.push(f);
                assert(deref_seq(r@) =~= failed_seq(self.findings@.take(i as int)).push(*f));
            }
            i = i + 1;
        }
        assert(self.findings@.take(self.findings.len() as int) =~= self.findings@);
        r
    }
}

} // verus!
