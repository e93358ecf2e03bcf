//! The fleet loop shared by every evaluator: skip rows of other types, check
//! staleness, apply the evaluator's pillar checks, and score the findings.
use vstd::prelude::*;
use crate::inventory::types::{check_stale, extends, finding_matches, is_stale, lemma_extends_start, lemma_total_penalty_bounds, lemma_total_penalty_prefix, penalty, Severity, pillar_score, score_pillar, stale_finding, total_penalty, AwsResource, FindingSpec, InventoryFinding, Pillar, PillarReport};
use crate::time::Timestamp;

verus! {

/// The most pillar findings one row can yield in any evaluator.
pub const MAX_CHECKS_PER_ROW: usize = 12;

/// The rules of one service's evaluator.
pub trait InventoryRules {
    /// The rows the evaluator evaluates and counts; it skips the others.
    spec fn covers(r: AwsResource) -> bool;

    /// The reason code of the stale-data finding.
    spec fn spec_stale_code() -> Seq<char>;

    /// The pillar findings for the covered row `r`, at index `i` of the
    /// fleet, in order.
    spec fn checks(&self, i: int, r: AwsResource, pillar: Pillar, now: Timestamp) -> Seq<FindingSpec>;

    fn covers_row(resource: &AwsResource) -> (b: bool)
        ensures
            b == Self::covers(*resource),
    ;

    fn stale_code() -> (r: &'static str)
        ensures
            r@ == Self::spec_stale_code(),
    ;

    proof fn lemma_checks_bound(&self, i: int, r: AwsResource, pillar: Pillar, now: Timestamp)
        ensures
            self.checks(i, r, pillar, now).len() <= MAX_CHECKS_PER_ROW,
    ;

    /// Every pillar finding of a row is about the pillar evaluated.
    proof fn lemma_checks_pillar(&self, i: int, r: AwsResource, pillar: Pillar, now: Timestamp)
        ensures
            forall|k: int|
                0 <= k < self.checks(i, r, pillar, now).len() ==> (#[trigger] self.checks(i, r, pillar, now)[k]).pillar
                    == pillar,
    ;

    /// The rules can evaluate the row at index `i`.
    spec fn serves(&self, i: int) -> bool;

    /// Appends the pillar findings for the row at index `i`.
    fn evaluate_resource(
        &self,
        i: usize,
        resource: &AwsResource,
        pillar: Pillar,
        now: &Timestamp,
        findings: &mut Vec<InventoryFinding>,
    )
        requires
            self.serves(i as int),
        ensures
            extends(old(findings)@, final(findings)@, *resource, self.checks(i as int, *resource, pillar, *now)),
    ;
}

/// The findings for one row: none for rows the evaluator does not cover;
/// otherwise the stale-data finding when the row is stale, then the pillar
/// checks.
pub open spec fn row_findings<R: InventoryRules>(
    rules: R,
    i: int,
    r: AwsResource,
    pillar: Pillar,
    now: Timestamp,
) -> Seq<FindingSpec> {
    if !R::covers(r) {
        Seq::empty()
    } else {
        (if is_stale(r, now) {
            seq![stale_finding(r, pillar, R::spec_stale_code(), now)]
        } else {
            Seq::empty()
        }) + rules.checks(i, r, pillar, now)
    }
}

/// Every finding of a fleet, paired with the row it is about, row by row.
pub open spec fn fleet_findings<R: InventoryRules>(
    rules: R,
    rs: Seq<AwsResource>,
    pillar: Pillar,
    now: Timestamp,
) -> Seq<(AwsResource, FindingSpec)>
    decreases rs.len(),
{
    if rs.len() == 0 {
        Seq::empty()
    } else {
        fleet_findings(rules, rs.drop_last(), pillar, now) + row_findings(
            rules,
            rs.len() - 1,
            rs.last(),
            pillar,
            now,
        ).map_values(|s: FindingSpec| (rs.last(), s))
    }
}

/// The number of rows that evaluator `R` covers.
pub open spec fn rows_covered<R: InventoryRules>(rs: Seq<AwsResource>) -> nat
    decreases rs.len(),
{
    if rs.len() == 0 {
        0
    } else {
        rows_covered::<R>(rs.drop_last()) + if R::covers(rs.last()) {
            1nat
        } else {
            0nat
        }
    }
}

/// The number of rows that evaluator `R` covers and that are stale at `now`.
pub open spec fn stale_rows_covered<R: InventoryRules>(rs: Seq<AwsResource>, now: Timestamp) -> nat
    decreases rs.len(),
{
    if rs.len() == 0 {
        0
    } else {
        stale_rows_covered::<R>(rs.drop_last(), now) + if R::covers(rs.last()) && is_stale(
            rs.last(),
            now,
        ) {
            1nat
        } else {
            0nat
        }
    }
}

/// `fs` holds one finding for each pair of `specs`, in order.
pub open spec fn findings_match(
    fs: Seq<InventoryFinding>,
    specs: Seq<(AwsResource, FindingSpec)>,
) -> bool {
    &&& fs.len() == specs.len()
    &&& forall|i: int| 0 <= i < fs.len() ==> finding_matches(fs[i], specs[i].0, #[trigger] specs[i].1)
}

/// The penalties of a fleet's findings, in all.
pub open spec fn specs_penalty(specs: Seq<(AwsResource, FindingSpec)>) -> int
    decreases specs.len(),
{
    if specs.len() == 0 {
        0
    } else {
        specs_penalty(specs.drop_last()) + penalty(specs.last().1.severity)
    }
}

/// The penalty total of the findings the rules give a fleet: the sum that
/// the score is taken from, kept in an `i32`.
pub open spec fn fleet_penalty<R: InventoryRules>(
    rules: R,
    rs: Seq<AwsResource>,
    pillar: Pillar,
    now: Timestamp,
) -> int {
    specs_penalty(fleet_findings(rules, rs, pillar, now))
}

/// Findings that match their specs weigh what the specs weigh.
pub proof fn lemma_match_penalty(fs: Seq<InventoryFinding>, specs: Seq<(AwsResource, FindingSpec)>)
    requires
        findings_match(fs, specs),
    ensures
        total_penalty(fs) == specs_penalty(specs),
    decreases fs.len(),
{
    if fs.len() > 0 {
        assert(findings_match(fs.drop_last(), specs.drop_last())) by {
            assert forall|i: int| 0 <= i < fs.drop_last().len() implies finding_matches(
                fs.drop_last()[i],
                specs.drop_last()[i].0,
                #[trigger] specs.drop_last()[i].1,
            ) by {
                assert(finding_matches(fs[i], specs[i].0, specs[i].1));
            }
        }
        lemma_match_penalty(fs.drop_last(), specs.drop_last());
        assert(finding_matches(fs[fs.len() - 1], specs[fs.len() - 1].0, specs[fs.len() - 1].1));
    }
}

/// The report of the rules over the rows `rs` for `pillar` at `now`.
pub open spec fn report_holds<R: InventoryRules>(
    rules: R,
    report: PillarReport,
    rs: Seq<AwsResource>,
    pillar: Pillar,
    now: Timestamp,
) -> bool {
    &&& report.pillar == pillar
    &&& report.resources_evaluated == rows_covered::<R>(rs)
    &&& report.stale_resources == stale_rows_covered::<R>(rs, now)
    &&& findings_match(report.findings@, fleet_findings(rules, rs, pillar, now))
    &&& report.score == pillar_score(report.findings@)
}

pub proof fn lemma_extends_concat(
    a: Seq<InventoryFinding>,
    b: Seq<InventoryFinding>,
    c: Seq<InventoryFinding>,
    r: AwsResource,
    s1: Seq<FindingSpec>,
    s2: Seq<FindingSpec>,
)
    requires
        extends(a, b, r, s1),
        extends(b, c, r, s2),
    ensures
        extends(a, c, r, s1 + s2),
{
    assert(c.take(a.len() as int) =~= b.take(a.len() as int)) by {
        assert(c.take(b.len() as int) == b);
        assert forall|i: int| 0 <= i < a.len() implies c.take(a.len() as int)[i] == b.take(
            a.len() as int,
        )[i] by {
            assert(c.take(b.len() as int)[i] == c[i]);
        }
    }
    assert forall|i: int| 0 <= i < (s1 + s2).len() implies finding_matches(
        c[a.len() + i],
        r,
        #[trigger] (s1 + s2)[i],
    ) by {
        if i < s1.len() {
            assert(s1[i] == (s1 + s2)[i]);
            assert(c.take(b.len() as int)[a.len() + i] == b[a.len() + i]);
        } else {
            let k = i - s1.len();
            assert(s2[k] == (s1 + s2)[i]);
            assert(b.len() + k == a.len() + i);
        }
    }
}

proof fn lemma_match_append(
    fs_old: Seq<InventoryFinding>,
    specs_old: Seq<(AwsResource, FindingSpec)>,
    fs_new: Seq<InventoryFinding>,
    r: AwsResource,
    row: Seq<FindingSpec>,
)
    requires
        findings_match(fs_old, specs_old),
        extends(fs_old, fs_new, r, row),
    ensures
        findings_match(fs_new, specs_old + row.map_values(|s: FindingSpec| (r, s))),
{
    let all = specs_old + row.map_values(|s: FindingSpec| (r, s));
    assert forall|i: int| 0 <= i < fs_new.len() implies finding_matches(
        fs_new[i],
        all[i].0,
        #[trigger] all[i].1,
    ) by {
        if i < fs_old.len() {
            assert(fs_new.take(fs_old.len() as int)[i] == fs_new[i]);
            assert(all[i] == specs_old[i]);
        } else {
            let k = i - fs_old.len();
            assert(all[i] == (r, row[k]));
            assert(fs_old.len() + k == i);
        }
    }
}

/// The findings of every row that `R` covers, with the number of rows
/// covered and of those that are stale.
fn collect_fleet<R: InventoryRules>(
    rules: &R,
    resources: &[AwsResource],
    pillar: Pillar,
    now: Timestamp,
) -> (r: (Vec<InventoryFinding>, usize, usize))
    requires
        forall|i: int| 0 <= i < resources@.len() ==> rules.serves(i),
    ensures
        findings_match(r.0@, fleet_findings(*rules, resources@, pillar, now)),
        r.1 == rows_covered::<R>(resources@),
        r.2 == stale_rows_covered::<R>(resources@, now),
{
    let mut findings: Vec<InventoryFinding> = Vec::new();
    let mut stale_resources: usize = 0;
    let mut evaluated: usize = 0;
    let ghost rs = resources@;
    for i in 0..resources.len()
        invariant
            rs == resources@,
            forall|j: int| 0 <= j < rs.len() ==> rules.serves(j),
            findings_match(findings@, fleet_findings(*rules, rs.take(i as int), pillar, now)),
            evaluated == rows_covered::<R>(rs.take(i as int)),
            stale_resources == stale_rows_covered::<R>(rs.take(i as int), now),
            evaluated <= i,
            stale_resources <= i,
            findings@.len() <= 13 * i,
    {
        let resource = &resources[i];
        let ghost prefix = rs.take(i as int);
        let ghost next = rs.take(i + 1);
        assert(next.drop_last() =~= prefix);
        assert(next.last() == *resource);
        if R::covers_row(resource) {
            evaluated = evaluated + 1;
            let ghost start = findings@;
            proof {
                lemma_extends_start(start, *resource);
            }
            let stale = check_stale(resource, pillar, R::stale_code(), &now);
            let ghost stale_specs: Seq<FindingSpec> = if is_stale(*resource, now) {
                seq![stale_finding(*resource, pillar, R::spec_stale_code(), now)]
            } else {
                Seq::empty()
            };
            match stale {
                Some(f) => {
                    stale_resources = stale_resources + 1;
                    proof {
                        crate::inventory::types::lemma_extends_push(
                            start,
                            start,
                            *resource,
                            Seq::empty(),
                            f,
                            stale_finding(*resource, pillar, R::spec_stale_code(), now),
                        );
                        assert(Seq::<FindingSpec>::empty().push(
                            stale_finding(*resource, pillar, R::spec_stale_code(), now),
                        ) =~= stale_specs);
                    }
                    findings.push(f);
                },
                None => {},
            }
            let ghost mid = findings@;
            rules.evaluate_resource(i, resource, pillar, &now, &mut findings);
            proof {
                rules.lemma_checks_bound(i as int, *resource, pillar, now);
                lemma_extends_concat(
                    start,
                    mid,
                    findings@,
                    *resource,
                    stale_specs,
                    rules.checks(i as int, *resource, pillar, now),
                );
                assert(stale_specs + rules.checks(i as int, *resource, pillar, now) == row_findings(
                    *rules,
                    i as int,
                    *resource,
                    pillar,
                    now,
                ));
                lemma_match_append(
                    start,
                    fleet_findings(*rules, prefix, pillar, now),
                    findings@,
                    *resource,
                    row_findings(*rules, i as int, *resource, pillar, now),
                );
            }
        } else {
            assert(row_findings(*rules, i as int, *resource, pillar, now) =~= Seq::<FindingSpec>::empty());
            assert(fleet_findings(*rules, next, pillar, now) =~= fleet_findings(
                *rules,
                prefix,
                pillar,
                now,
            ));
        }
    }
    assert(rs.take(rs.len() as int) =~= rs);
    (findings, evaluated, stale_resources)
}

/// Evaluate every row that `R` covers for one pillar. The other rows are
/// skipped and not counted.
pub fn evaluate_fleet<R: InventoryRules>(
    rules: &R,
    resources: &[AwsResource],
    pillar: Pillar,
    now: Timestamp,
) -> (report: PillarReport)
    requires
        fleet_penalty(*rules, resources@, pillar, now) <= i32::MAX,
        forall|i: int| 0 <= i < resources@.len() ==> rules.serves(i),
    ensures
        report_holds(*rules, report, resources@, pillar, now),
{
    let (findings, evaluated, stale_resources) = collect_fleet(rules, resources, pillar, now);
    proof {
        lemma_match_penalty(findings@, fleet_findings(*rules, resources@, pillar, now));
    }
    let score = score_pillar(findings.as_slice());
    PillarReport { pillar, resources_evaluated: evaluated, stale_resources, score, findings }
}

/// Whether the penalty total of the findings that `R` gives the fleet fits
/// the score's `i32` sum, as `evaluate_fleet` asks.
pub fn fleet_penalty_fits<R: InventoryRules>(
    rules: &R,
    resources: &[AwsResource],
    pillar: Pillar,
    now: Timestamp,
) -> (r: bool)
    requires
        forall|i: int| 0 <= i < resources@.len() ==> rules.serves(i),
    ensures
        r == (fleet_penalty(*rules, resources@, pillar, now) <= i32::MAX),
{
    let (findings, _, _) = collect_fleet(rules, resources, pillar, now);
    proof {
        lemma_match_penalty(findings@, fleet_findings(*rules, resources@, pillar, now));
    }
    let mut total: u64 = 0;
    let mut i: usize = 0;
    while i < findings.len()
        invariant
            i <= findings@.len(),
            total == total_penalty(findings@.take(i as int)),
            total <= i32::MAX,
            total_penalty(findings@) == fleet_penalty(*rules, resources@, pillar, now),
        decreases findings@.len() - i,
    {
        proof {
            assert(findings@.take(i + 1).drop_last() =~= findings@.take(i as int));
            lemma_total_penalty_prefix(findings@, i + 1);
        }
        let p: u64 = match findings[i].severity {
            Severity::High => 15,
            Severity::Medium => 7,
            Severity::Low => 3,
        };
        assert(p == penalty(findings@[i as int].severity));
        assert(findings@.take(i + 1).last() == findings@[i as int]);
        total = total + p;
        i = i + 1;
        assert(total == total_penalty(findings@.take(i as int)));
        if total > i32::MAX as u64 {
            proof {
                lemma_total_penalty_prefix(findings@, i as int);
            }
            return false;
        }
    }
    assert(findings@.take(findings@.len() as int) =~= findings@);
    true
}

// ---------------------------------------------------------------------------
// What holds of every report.
// ---------------------------------------------------------------------------

/// An empty fleet evaluates nothing, finds nothing, and scores full.
pub proof fn lemma_empty_fleet_scores_full<R: InventoryRules>(
    rules: R,
    report: PillarReport,
    pillar: Pillar,
    now: Timestamp,
)
    requires
        report_holds(rules, report, Seq::empty(), pillar, now),
    ensures
        report.resources_evaluated == 0,
        report.stale_resources == 0,
        report.findings@.len() == 0,
        report.score == 100,
{
}

/// A row the rules do not cover adds no finding and is not counted.
pub proof fn lemma_uncovered_row_ignored<R: InventoryRules>(
    rules: R,
    rs: Seq<AwsResource>,
    r: AwsResource,
    pillar: Pillar,
    now: Timestamp,
)
    requires
        !R::covers(r),
    ensures
        fleet_findings(rules, rs.push(r), pillar, now) == fleet_findings(rules, rs, pillar, now),
        rows_covered::<R>(rs.push(r)) == rows_covered::<R>(rs),
        stale_rows_covered::<R>(rs.push(r), now) == stale_rows_covered::<R>(rs, now),
{
    assert(rs.push(r).drop_last() =~= rs);
    assert(row_findings(rules, rs.len() as int, r, pillar, now).map_values(
        |s: FindingSpec| (r, s),
    ) =~= Seq::empty());
    assert(fleet_findings(rules, rs.push(r), pillar, now) =~= fleet_findings(rules, rs, pillar, now));
}

/// Rows of other types change nothing: appended to a fleet, rows that the
/// rules do not cover leave its findings, its counts and its penalty total
/// as they were.
pub proof fn lemma_uncovered_rows_ignored<R: InventoryRules>(
    rules: R,
    rs: Seq<AwsResource>,
    extra: Seq<AwsResource>,
    pillar: Pillar,
    now: Timestamp,
)
    requires
        forall|k: int| 0 <= k < extra.len() ==> !R::covers(#[trigger] extra[k]),
    ensures
        fleet_findings(rules, rs + extra, pillar, now) == fleet_findings(rules, rs, pillar, now),
        rows_covered::<R>(rs + extra) == rows_covered::<R>(rs),
        stale_rows_covered::<R>(rs + extra, now) == stale_rows_covered::<R>(rs, now),
        fleet_penalty(rules, rs + extra, pillar, now) == fleet_penalty(rules, rs, pillar, now),
    decreases extra.len(),
{
    if extra.len() == 0 {
        assert(rs + extra =~= rs);
    } else {
        let init = extra.drop_last();
        lemma_uncovered_rows_ignored(rules, rs, init, pillar, now);
        assert(rs + extra =~= (rs + init).push(extra.last()));
        lemma_uncovered_row_ignored(rules, rs + init, extra.last(), pillar, now);
    }
}

/// The report of a fleet with rows of other types appended is the report
/// of the fleet without them: the same pillar, counts and score, and
/// findings that match the same rows and findings one for one.
pub proof fn lemma_report_ignores_other_rows<R: InventoryRules>(
    rules: R,
    rs: Seq<AwsResource>,
    extra: Seq<AwsResource>,
    pillar: Pillar,
    now: Timestamp,
    a: PillarReport,
    b: PillarReport,
)
    requires
        forall|k: int| 0 <= k < extra.len() ==> !R::covers(#[trigger] extra[k]),
        report_holds(rules, a, rs, pillar, now),
        report_holds(rules, b, rs + extra, pillar, now),
    ensures
        b.pillar == a.pillar,
        b.resources_evaluated == a.resources_evaluated,
        b.stale_resources == a.stale_resources,
        b.score == a.score,
        b.findings@.len() == a.findings@.len(),
        findings_match(b.findings@, fleet_findings(rules, rs, pillar, now)),
{
    lemma_uncovered_rows_ignored(rules, rs, extra, pillar, now);
    lemma_match_penalty(a.findings@, fleet_findings(rules, rs, pillar, now));
    lemma_match_penalty(b.findings@, fleet_findings(rules, rs, pillar, now));
}

/// No more rows are stale than are evaluated, and no more are evaluated
/// than the fleet holds.
pub proof fn lemma_counts_bounded<R: InventoryRules>(rs: Seq<AwsResource>, now: Timestamp)
    ensures
        stale_rows_covered::<R>(rs, now) <= rows_covered::<R>(rs) <= rs.len(),
    decreases rs.len(),
{
    if rs.len() > 0 {
        lemma_counts_bounded::<R>(rs.drop_last(), now);
    }
}

/// A report scores full exactly when it holds no finding, and its score
/// never leaves 0..=100.
pub proof fn lemma_full_score_iff_no_findings<R: InventoryRules>(
    rules: R,
    report: PillarReport,
    rs: Seq<AwsResource>,
    pillar: Pillar,
    now: Timestamp,
)
    requires
        report_holds(rules, report, rs, pillar, now),
    ensures
        report.score == 100 <==> report.findings@.len() == 0,
        0 <= report.score <= 100,
{
    crate::inventory::types::lemma_total_penalty_bounds(report.findings@);
}

/// Every finding of a fleet, with the row it is about: the row is one of
/// the fleet's, the rules cover it, and the finding is about the pillar
/// evaluated.
pub proof fn lemma_fleet_findings_about_rows<R: InventoryRules>(
    rules: R,
    rs: Seq<AwsResource>,
    pillar: Pillar,
    now: Timestamp,
)
    ensures
        forall|k: int|
            0 <= k < fleet_findings(rules, rs, pillar, now).len() ==> {
                let (r, s) = #[trigger] fleet_findings(rules, rs, pillar, now)[k];
                &&& rs.contains(r)
                &&& R::covers(r)
                &&& s.pillar == pillar
            },
    decreases rs.len(),
{
    if rs.len() > 0 {
        let prev = rs.drop_last();
        lemma_fleet_findings_about_rows(rules, prev, pillar, now);
        let last = rs.last();
        rules.lemma_checks_pillar(rs.len() - 1, last, pillar, now);
        let row = row_findings(rules, rs.len() - 1, last, pillar, now);
        let tail = row.map_values(|s: FindingSpec| (last, s));
        let all = fleet_findings(rules, rs, pillar, now);
        assert(all == fleet_findings(rules, prev, pillar, now) + tail);
        assert forall|k: int| 0 <= k < all.len() implies {
            let (r, s) = #[trigger] all[k];
            &&& rs.contains(r)
            &&& R::covers(r)
            &&& s.pillar == pillar
        } by {
            let n = fleet_findings(rules, prev, pillar, now).len();
            if k < n {
                let (r, s) = fleet_findings(rules, prev, pillar, now)[k];
                assert(all[k] == fleet_findings(rules, prev, pillar, now)[k]);
                let j = choose|j: int| 0 <= j < prev.len() && prev[j] == r;
                assert(rs[j] == r);
            } else {
                assert(all[k] == tail[k - n]);
                assert(rs[rs.len() - 1] == last);
                assert(R::covers(last));
                let stale: Seq<FindingSpec> = if is_stale(last, now) {
                    seq![stale_finding(last, pillar, R::spec_stale_code(), now)]
                } else {
                    Seq::empty()
                };
                assert(row == stale + rules.checks(rs.len() - 1, last, pillar, now));
                if k - n >= stale.len() {
                    assert(row[k - n] == rules.checks(rs.len() - 1, last, pillar, now)[k - n - stale.len()]);
                }
            }
        }
    }
}

/// Every finding of a report is about one of the fleet's rows that the
/// rules cover (its resource id and ARN are that row's), and about the
/// pillar evaluated.
pub proof fn lemma_report_findings_about_fleet<R: InventoryRules>(
    rules: R,
    report: PillarReport,
    rs: Seq<AwsResource>,
    pillar: Pillar,
    now: Timestamp,
)
    requires
        report_holds(rules, report, rs, pillar, now),
    ensures
        forall|k: int|
            0 <= k < report.findings@.len() ==> #[trigger] report.findings@[k].pillar == pillar && exists|
                j: int,
            |
                0 <= j < rs.len() && R::covers(rs[j]) && report.findings@[k].resource_id@ == rs[j].resource_id@
                    && report.findings@[k].arn@ == rs[j].arn@,
{
    lemma_fleet_findings_about_rows(rules, rs, pillar, now);
    let specs = fleet_findings(rules, rs, pillar, now);
    assert forall|k: int| 0 <= k < report.findings@.len() implies #[trigger] report.findings@[k].pillar == pillar
        && exists|j: int|
        0 <= j < rs.len() && R::covers(rs[j]) && report.findings@[k].resource_id@ == rs[j].resource_id@
            && report.findings@[k].arn@ == rs[j].arn@ by {
        assert(finding_matches(report.findings@[k], specs[k].0, specs[k].1));
        let (r, s) = specs[k];
        let j = choose|j: int| 0 <= j < rs.len() && rs[j] == r;
        assert(rs[j] == r);
    }
}

} // verus!
