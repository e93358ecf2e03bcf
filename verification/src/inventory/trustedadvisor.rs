//! Deterministic Trusted Advisor account inventory evaluators for the cost,
//! resilience, and security pillars.
//!
//! Each row summarises one account's Trusted Advisor checks with counts. The
//! estimated monthly savings is a floating-point figure: it is read outside
//! the library, and each row's reading is handed in as a `SavingsFigure`.
use vstd::prelude::*;
use crate::inventory::fleet::{evaluate_fleet, fleet_penalty, fleet_penalty_fits, report_holds, InventoryRules};
use crate::inventory::types::{cost_allocation_keys, data_count, data_u64, emit, ev_copy, ev_opt_copy, ev_u64, extends, finding, has_any_tag, has_tag, lemma_extends_start, obj1, obj2, obj3, only_if, opt_copy, AwsResource, Ev, FindingSpec, InventoryFinding, Pillar, PillarReport, Severity, COST_ALLOCATION_TAG_KEYS};
use crate::json::JsonValue;
use crate::text::{concat3, concat5, decimal, str_eq, u64_decimal};
use crate::time::Timestamp;

verus! {

/// Only rows of this resource type are evaluated.
pub const RESOURCE_TYPE: &'static str = "TrustedAdvisorAccount";

// Reason codes are the stable contract for findings; never reuse or rename.
pub const REASON_COST_NO_TAGS: &'static str = "TRUSTEDADVISOR_COST_NO_TAGS";
pub const REASON_COST_SAVINGS_AVAILABLE: &'static str = "TRUSTEDADVISOR_COST_SAVINGS_AVAILABLE";
pub const REASON_COST_WARNING_RECOMMENDATIONS: &'static str = "TRUSTEDADVISOR_COST_WARNING_RECOMMENDATIONS";
pub const REASON_RES_WARNING_RECOMMENDATIONS: &'static str = "TRUSTEDADVISOR_RES_WARNING_RECOMMENDATIONS";
pub const REASON_RES_SERVICE_LIMIT_WARNINGS: &'static str = "TRUSTEDADVISOR_RES_SERVICE_LIMIT_WARNINGS";
pub const REASON_RES_RESOURCE_COLLECTION_ERRORS: &'static str = "TRUSTEDADVISOR_RES_RESOURCE_COLLECTION_ERRORS";
pub const REASON_SEC_WARNING_RECOMMENDATIONS: &'static str = "TRUSTEDADVISOR_SEC_WARNING_RECOMMENDATIONS";
pub const REASON_SEC_ERROR_RESOURCES: &'static str = "TRUSTEDADVISOR_SEC_ERROR_RESOURCES";
pub const REASON_SEC_EXCLUDED_RESOURCES: &'static str = "TRUSTEDADVISOR_SEC_EXCLUDED_RESOURCES";
pub const REASON_INV_NO_CHECKS: &'static str = "TRUSTEDADVISOR_INV_NO_CHECKS";
pub const REASON_INV_STALE_DATA: &'static str = "TRUSTEDADVISOR_INV_STALE_DATA";

/// One row's estimated monthly savings, read from its floating-point value
/// (zero when absent): whether it is above zero, its text with two decimals,
/// and the JSON number that evidence carries for it.
pub struct SavingsFigure {
    pub positive: bool,
    pub shown: String,
    pub value: JsonValue,
}

// ---------------------------------------------------------------------------
// What the row says.
// ---------------------------------------------------------------------------

/// The count under `key`; zero when it is absent or not a non-negative integer.
pub open spec fn count_of(r: AwsResource, key: Seq<char>) -> u64 {
    match data_count(r.resource_data, key) {
        Some(n) => n,
        None => 0,
    }
}

/// The larger of the excluded-resource count and the excluded sample count.
pub open spec fn excluded_of(r: AwsResource) -> u64 {
    let a = count_of(r, "excluded_resource_count"@);
    let b = count_of(r, "excluded_resource_sample_count"@);
    if a >= b {
        a
    } else {
        b
    }
}

// ---------------------------------------------------------------------------
// The findings.
// ---------------------------------------------------------------------------

/// A finding whose message states the count `n` about the account.
pub open spec fn counted(
    r: AwsResource,
    pillar: Pillar,
    code: Seq<char>,
    severity: Severity,
    verb: Seq<char>,
    n: u64,
    tail: Seq<char>,
    evidence: Seq<(Seq<char>, Ev)>,
) -> FindingSpec {
    finding(
        pillar,
        code,
        severity,
        "Trusted Advisor account "@ + r.resource_id@ + verb + decimal(n as nat) + tail,
        evidence,
    )
}

pub open spec fn inv_no_checks(r: AwsResource, pillar: Pillar) -> FindingSpec {
    finding(
        pillar,
        REASON_INV_NO_CHECKS@,
        Severity::Low,
        "Trusted Advisor account "@ + r.resource_id@ + " has no checks in collected inventory"@,
        seq![
            ("check_count"@, opt_copy(r.resource_data, "check_count"@)),
            ("checks"@, opt_copy(r.resource_data, "checks"@)),
        ],
    )
}

/// Every pillar: an account whose inventory holds no checks.
pub open spec fn presence_checks(r: AwsResource, pillar: Pillar) -> Seq<FindingSpec> {
    only_if(count_of(r, "check_count"@) == 0, inv_no_checks(r, pillar))
}

pub open spec fn cost_no_tags(r: AwsResource) -> FindingSpec {
    finding(
        Pillar::Cost,
        REASON_COST_NO_TAGS@,
        Severity::Medium,
        "Trusted Advisor account "@ + r.resource_id@ + " has no cost allocation tags"@,
        seq![("tags"@, Ev::Copy(r.tags))],
    )
}

pub open spec fn cost_savings(r: AwsResource, s: SavingsFigure) -> FindingSpec {
    finding(
        Pillar::Cost,
        REASON_COST_SAVINGS_AVAILABLE@,
        Severity::High,
        "Trusted Advisor account "@ + r.resource_id@ + " has estimated monthly savings of "@ + s.shown@,
        seq![
            ("estimated_monthly_savings"@, Ev::Copy(s.value)),
            ("recommendations"@, opt_copy(r.resource_data, "recommendations"@)),
        ],
    )
}

pub open spec fn cost_warnings(r: AwsResource) -> FindingSpec {
    let n = count_of(r, "cost_warning_or_error_count"@);
    counted(
        r,
        Pillar::Cost,
        REASON_COST_WARNING_RECOMMENDATIONS@,
        Severity::Medium,
        " has "@,
        n,
        " cost recommendations in warning or error status"@,
        seq![
            ("cost_warning_or_error_count"@, Ev::U64(n)),
            ("cost_recommendation_count"@, opt_copy(r.resource_data, "cost_recommendation_count"@)),
            ("recommendations"@, opt_copy(r.resource_data, "recommendations"@)),
        ],
    )
}

/// Cost: accounts without a cost allocation tag; savings above zero; cost
/// recommendations in warning or error status.
pub open spec fn cost_checks(r: AwsResource, s: SavingsFigure) -> Seq<FindingSpec> {
    only_if(!has_tag(r.tags, cost_allocation_keys()), cost_no_tags(r)) + only_if(
        s.positive,
        cost_savings(r, s),
    ) + only_if(count_of(r, "cost_warning_or_error_count"@) > 0, cost_warnings(r))
}

pub open spec fn res_warnings(r: AwsResource) -> FindingSpec {
    let n = count_of(r, "resilience_warning_or_error_count"@);
    counted(
        r,
        Pillar::Resilience,
        REASON_RES_WARNING_RECOMMENDATIONS@,
        Severity::High,
        " has "@,
        n,
        " resilience recommendations in warning or error status"@,
        seq![
            ("resilience_warning_or_error_count"@, Ev::U64(n)),
            ("resilience_recommendation_count"@, opt_copy(r.resource_data, "resilience_recommendation_count"@)),
            ("recommendations"@, opt_copy(r.resource_data, "recommendations"@)),
        ],
    )
}

pub open spec fn res_limits(r: AwsResource) -> FindingSpec {
    let n = count_of(r, "service_limit_warning_or_error_count"@);
    counted(
        r,
        Pillar::Resilience,
        REASON_RES_SERVICE_LIMIT_WARNINGS@,
        Severity::Medium,
        " has "@,
        n,
        " service limit recommendations in warning or error status"@,
        seq![
            ("service_limit_warning_or_error_count"@, Ev::U64(n)),
            ("recommendations"@, opt_copy(r.resource_data, "recommendations"@)),
        ],
    )
}

pub open spec fn res_collection_errors(r: AwsResource) -> FindingSpec {
    let n = count_of(r, "resource_collection_error_count"@);
    counted(
        r,
        Pillar::Resilience,
        REASON_RES_RESOURCE_COLLECTION_ERRORS@,
        Severity::Medium,
        " had "@,
        n,
        " recommendation resource collection errors"@,
        seq![
            ("resource_collection_error_count"@, Ev::U64(n)),
            ("sampled_resource_count"@, opt_copy(r.resource_data, "sampled_resource_count"@)),
        ],
    )
}

/// Resilience: resilience recommendations and service limits in warning or
/// error status; resource collection errors.
pub open spec fn resilience_checks(r: AwsResource) -> Seq<FindingSpec> {
    only_if(count_of(r, "resilience_warning_or_error_count"@) > 0, res_warnings(r)) + only_if(
        count_of(r, "service_limit_warning_or_error_count"@) > 0,
        res_limits(r),
    ) + only_if(count_of(r, "resource_collection_error_count"@) > 0, res_collection_errors(r))
}

pub open spec fn sec_warnings(r: AwsResource) -> FindingSpec {
    let n = count_of(r, "security_warning_or_error_count"@);
    counted(
        r,
        Pillar::Security,
        REASON_SEC_WARNING_RECOMMENDATIONS@,
        Severity::High,
        " has "@,
        n,
        " security recommendations in warning or error status"@,
        seq![
            ("security_warning_or_error_count"@, Ev::U64(n)),
            ("security_recommendation_count"@, opt_copy(r.resource_data, "security_recommendation_count"@)),
            ("recommendations"@, opt_copy(r.resource_data, "recommendations"@)),
        ],
    )
}

pub open spec fn sec_error_resources(r: AwsResource) -> FindingSpec {
    let n = count_of(r, "error_resource_count"@);
    counted(
        r,
        Pillar::Security,
        REASON_SEC_ERROR_RESOURCES@,
        Severity::High,
        " has "@,
        n,
        " resources in error status"@,
        seq![
            ("error_resource_count"@, Ev::U64(n)),
            ("sampled_resources"@, opt_copy(r.resource_data, "sampled_resources"@)),
        ],
    )
}

pub open spec fn sec_excluded(r: AwsResource) -> FindingSpec {
    counted(
        r,
        Pillar::Security,
        REASON_SEC_EXCLUDED_RESOURCES@,
        Severity::Medium,
        " has "@,
        excluded_of(r),
        " excluded recommendation resources"@,
        seq![
            ("excluded_resource_count"@, opt_copy(r.resource_data, "excluded_resource_count"@)),
            ("excluded_resource_sample_count"@, opt_copy(r.resource_data, "excluded_resource_sample_count"@)),
            ("sampled_resources"@, opt_copy(r.resource_data, "sampled_resources"@)),
        ],
    )
}

/// Security: security recommendations in warning or error status; resources
/// in error status; excluded resources (the larger of the two counts).
pub open spec fn security_checks(r: AwsResource) -> Seq<FindingSpec> {
    only_if(count_of(r, "security_warning_or_error_count"@) > 0, sec_warnings(r)) + only_if(
        count_of(r, "error_resource_count"@) > 0,
        sec_error_resources(r),
    ) + only_if(excluded_of(r) > 0, sec_excluded(r))
}

/// The findings for one account: the presence check on every pillar, then
/// the pillar's own checks.
pub open spec fn checks(r: AwsResource, s: SavingsFigure, pillar: Pillar) -> Seq<FindingSpec> {
    presence_checks(r, pillar) + match pillar {
        Pillar::Cost => cost_checks(r, s),
        Pillar::Resilience => resilience_checks(r),
        Pillar::Security => security_checks(r),
        _ => Seq::empty(),
    }
}

// ---------------------------------------------------------------------------
// The evaluation.
// ---------------------------------------------------------------------------

fn count(resource: &AwsResource, key: &str) -> (r: u64)
    ensures
        r == count_of(*resource, key@),
{
    match data_u64(&resource.resource_data, key) {
        Some(n) => n,
        None => 0,
    }
}

/// "Trusted Advisor account <id><verb><n><tail>".
fn counted_message(resource: &AwsResource, verb: &str, n: u64, tail: &str) -> (m: String)
    ensures
        m@ == "Trusted Advisor account "@ + resource.resource_id@ + verb@ + decimal(n as nat) + tail@,
{
    let shown = u64_decimal(n);
    concat5("Trusted Advisor account ", resource.resource_id.as_str(), verb, shown.as_str(), tail)
}

fn evaluate_inventory_presence(resource: &AwsResource, pillar: Pillar, findings: &mut Vec<InventoryFinding>)
    ensures
        extends(old(findings)@, final(findings)@, *resource, presence_checks(*resource, pillar)),
{
    let ghost r = *resource;
    let ghost start = findings@;
    let ghost mut acc: Seq<FindingSpec> = Seq::empty();
    proof {
        lemma_extends_start(start, r);
    }
    if count(resource, "check_count") == 0 {
        emit(
            findings,
            resource,
            pillar,
            REASON_INV_NO_CHECKS,
            Severity::Low,
            concat3(
                "Trusted Advisor account ",
                resource.resource_id.as_str(),
                " has no checks in collected inventory",
            ),
            obj2(
                "check_count",
                ev_opt_copy(&resource.resource_data, "check_count"),
                "checks",
                ev_opt_copy(&resource.resource_data, "checks"),
                Ghost(opt_copy(r.resource_data, "check_count"@)),
                Ghost(opt_copy(r.resource_data, "checks"@)),
            ),
            Ghost(acc),
            Ghost(start),
            Ghost(inv_no_checks(r, pillar)),
        );
        proof {
            acc = acc.push(inv_no_checks(r, pillar));
        }
    }
    assert(acc =~= presence_checks(r, pillar));
}

fn evaluate_cost(resource: &AwsResource, savings: &SavingsFigure, findings: &mut Vec<InventoryFinding>)
    ensures
        extends(old(findings)@, final(findings)@, *resource, cost_checks(*resource, *savings)),
{
    let ghost r = *resource;
    let ghost start = findings@;
    let ghost mut acc: Seq<FindingSpec> = Seq::empty();
    proof {
        lemma_extends_start(start, r);
    }
    let data = &resource.resource_data;
    if !has_any_tag(&resource.tags, &COST_ALLOCATION_TAG_KEYS) {
        emit(
            findings,
            resource,
            Pillar::Cost,
            REASON_COST_NO_TAGS,
            Severity::Medium,
            concat3("Trusted Advisor account ", resource.resource_id.as_str(), " has no cost allocation tags"),
            obj1("tags", ev_copy(&resource.tags), Ghost(Ev::Copy(r.tags))),
            Ghost(acc),
            Ghost(start),
            Ghost(cost_no_tags(r)),
        );
        proof {
            acc = acc.push(cost_no_tags(r));
        }
    }
    if savings.positive {
        let mut message = concat3(
            "Trusted Advisor account ",
            resource.resource_id.as_str(),
            " has estimated monthly savings of ",
        );
        message.append(savings.shown.as_str());
        emit(
            findings,
            resource,
            Pillar::Cost,
            REASON_COST_SAVINGS_AVAILABLE,
            Severity::High,
            message,
            obj2(
                "estimated_monthly_savings",
                ev_copy(&savings.value),
                "recommendations",
                ev_opt_copy(data, "recommendations"),
                Ghost(Ev::Copy(savings.value)),
                Ghost(opt_copy(r.resource_data, "recommendations"@)),
            ),
            Ghost(acc),
            Ghost(start),
            Ghost(cost_savings(r, *savings)),
        );
        proof {
            acc = acc.push(cost_savings(r, *savings));
        }
    }
    let warnings = count(resource, "cost_warning_or_error_count");
    if warnings > 0 {
        emit(
            findings,
            resource,
            Pillar::Cost,
            REASON_COST_WARNING_RECOMMENDATIONS,
            Severity::Medium,
            counted_message(resource, " has ", warnings, " cost recommendations in warning or error status"),
            obj3(
                "cost_warning_or_error_count",
                ev_u64(warnings),
                "cost_recommendation_count",
                ev_opt_copy(data, "cost_recommendation_count"),
                "recommendations",
                ev_opt_copy(data, "recommendations"),
                Ghost(Ev::U64(warnings)),
                Ghost(opt_copy(r.resource_data, "cost_recommendation_count"@)),
                Ghost(opt_copy(r.resource_data, "recommendations"@)),
            ),
            Ghost(acc),
            Ghost(start),
            Ghost(cost_warnings(r)),
        );
        proof {
            acc = acc.push(cost_warnings(r));
        }
    }
    assert(acc =~= cost_checks(r, *savings));
}

fn evaluate_resilience(resource: &AwsResource, findings: &mut Vec<InventoryFinding>)
    ensures
        extends(old(findings)@, final(findings)@, *resource, resilience_checks(*resource)),
{
    let ghost r = *resource;
    let ghost start = findings@;
    let ghost mut acc: Seq<FindingSpec> = Seq::empty();
    proof {
        lemma_extends_start(start, r);
    }
    let data = &resource.resource_data;
    let warnings = count(resource, "resilience_warning_or_error_count");
    if warnings > 0 {
        emit(
            findings,
            resource,
            Pillar::Resilience,
            REASON_RES_WARNING_RECOMMENDATIONS,
            Severity::High,
            counted_message(resource, " has ", warnings, " resilience recommendations in warning or error status"),
            obj3(
                "resilience_warning_or_error_count",
                ev_u64(warnings),
                "resilience_recommendation_count",
                ev_opt_copy(data, "resilience_recommendation_count"),
                "recommendations",
                ev_opt_copy(data, "recommendations"),
                Ghost(Ev::U64(warnings)),
                Ghost(opt_copy(r.resource_data, "resilience_recommendation_count"@)),
                Ghost(opt_copy(r.resource_data, "recommendations"@)),
            ),
            Ghost(acc),
            Ghost(start),
            Ghost(res_warnings(r)),
        );
        proof {
            acc = acc.push(res_warnings(r));
        }
    }
    let limits = count(resource, "service_limit_warning_or_error_count");
    if limits > 0 {
        emit(
            findings,
            resource,
            Pillar::Resilience,
            REASON_RES_SERVICE_LIMIT_WARNINGS,
            Severity::Medium,
            counted_message(resource, " has ", limits, " service limit recommendations in warning or error status"),
            obj2(
                "service_limit_warning_or_error_count",
                ev_u64(limits),
                "recommendations",
                ev_opt_copy(data, "recommendations"),
                Ghost(Ev::U64(limits)),
                Ghost(opt_copy(r.resource_data, "recommendations"@)),
            ),
            Ghost(acc),
            Ghost(start),
            Ghost(res_limits(r)),
        );
        proof {
            acc = acc.push(res_limits(r));
        }
    }
    let errors = count(resource, "resource_collection_error_count");
    if errors > 0 {
        emit(
            findings,
            resource,
            Pillar::Resilience,
            REASON_RES_RESOURCE_COLLECTION_ERRORS,
            Severity::Medium,
            counted_message(resource, " had ", errors, " recommendation resource collection errors"),
            obj2(
                "resource_collection_error_count",
                ev_u64(errors),
                "sampled_resource_count",
                ev_opt_copy(data, "sampled_resource_count"),
                Ghost(Ev::U64(errors)),
                Ghost(opt_copy(r.resource_data, "sampled_resource_count"@)),
            ),
            Ghost(acc),
            Ghost(start),
            Ghost(res_collection_errors(r)),
        );
        proof {
            acc = acc.push(res_collection_errors(r));
        }
    }
    assert(acc =~= resilience_checks(r));
}

fn evaluate_security(resource: &AwsResource, findings: &mut Vec<InventoryFinding>)
    ensures
        extends(old(findings)@, final(findings)@, *resource, security_checks(*resource)),
{
    let ghost r = *resource;
    let ghost start = findings@;
    let ghost mut acc: Seq<FindingSpec> = Seq::empty();
    proof {
        lemma_extends_start(start, r);
    }
    let data = &resource.resource_data;
    let warnings = count(resource, "security_warning_or_error_count");
    if warnings > 0 {
        emit(
            findings,
            resource,
            Pillar::Security,
            REASON_SEC_WARNING_RECOMMENDATIONS,
            Severity::High,
            counted_message(resource, " has ", warnings, " security recommendations in warning or error status"),
            obj3(
                "security_warning_or_error_count",
                ev_u64(warnings),
                "security_recommendation_count",
                ev_opt_copy(data, "security_recommendation_count"),
                "recommendations",
                ev_opt_copy(data, "recommendations"),
                Ghost(Ev::U64(warnings)),
                Ghost(opt_copy(r.resource_data, "security_recommendation_count"@)),
                Ghost(opt_copy(r.resource_data, "recommendations"@)),
            ),
            Ghost(acc),
            Ghost(start),
            Ghost(sec_warnings(r)),
        );
        proof {
            acc = acc.push(sec_warnings(r));
        }
    }
    let error_resources = count(resource, "error_resource_count");
    if error_resources > 0 {
        emit(
            findings,
            resource,
            Pillar::Security,
            REASON_SEC_ERROR_RESOURCES,
            Severity::High,
            counted_message(resource, " has ", error_resources, " resources in error status"),
            obj2(
                "error_resource_count",
                ev_u64(error_resources),
                "sampled_resources",
                ev_opt_copy(data, "sampled_resources"),
                Ghost(Ev::U64(error_resources)),
                Ghost(opt_copy(r.resource_data, "sampled_resources"@)),
            ),
            Ghost(acc),
            Ghost(start),
            Ghost(sec_error_resources(r)),
        );
        proof {
            acc = acc.push(sec_error_resources(r));
        }
    }
    let excluded_count = count(resource, "excluded_resource_count");
    let excluded_sample = count(resource, "excluded_resource_sample_count");
    let excluded = if excluded_count >= excluded_sample {
        excluded_count
    } else {
        excluded_sample
    };
    if excluded > 0 {
        emit(
            findings,
            resource,
            Pillar::Security,
            REASON_SEC_EXCLUDED_RESOURCES,
            Severity::Medium,
            counted_message(resource, " has ", excluded, " excluded recommendation resources"),
            obj3(
                "excluded_resource_count",
                ev_opt_copy(data, "excluded_resource_count"),
                "excluded_resource_sample_count",
                ev_opt_copy(data, "excluded_resource_sample_count"),
                "sampled_resources",
                ev_opt_copy(data, "sampled_resources"),
                Ghost(opt_copy(r.resource_data, "excluded_resource_count"@)),
                Ghost(opt_copy(r.resource_data, "excluded_resource_sample_count"@)),
                Ghost(opt_copy(r.resource_data, "sampled_resources"@)),
            ),
            Ghost(acc),
            Ghost(start),
            Ghost(sec_excluded(r)),
        );
        proof {
            acc = acc.push(sec_excluded(r));
        }
    }
    assert(acc =~= security_checks(r));
}

/// The Trusted Advisor rules, with the savings figure of each row of the
/// fleet, by index.
pub struct TrustedAdvisorRules<'a> {
    pub savings: &'a [SavingsFigure],
}

impl<'a> InventoryRules for TrustedAdvisorRules<'a> {
    open spec fn covers(r: AwsResource) -> bool {
        r.resource_type@ == RESOURCE_TYPE@
    }

    open spec fn spec_stale_code() -> Seq<char> {
        REASON_INV_STALE_DATA@
    }

    open spec fn checks(&self, i: int, r: AwsResource, pillar: Pillar, now: Timestamp) -> Seq<FindingSpec> {
        checks(r, self.savings@[i], pillar)
    }

    fn covers_row(resource: &AwsResource) -> (b: bool) {
        str_eq(resource.resource_type.as_str(), RESOURCE_TYPE)
    }

    fn stale_code() -> (r: &'static str) {
        REASON_INV_STALE_DATA
    }

    open spec fn serves(&self, i: int) -> bool {
        0 <= i < self.savings@.len()
    }

    proof fn lemma_checks_pillar(&self, i: int, r: AwsResource, pillar: Pillar, now: Timestamp) {
    }

    proof fn lemma_checks_bound(&self, i: int, r: AwsResource, pillar: Pillar, now: Timestamp) {
    }

    fn evaluate_resource(
        &self,
        i: usize,
        resource: &AwsResource,
        pillar: Pillar,
        now: &Timestamp,
        findings: &mut Vec<InventoryFinding>,
    ) {
        let ghost r = *resource;
        let ghost start = findings@;
        evaluate_inventory_presence(resource, pillar, findings);
        let ghost mid = findings@;
        match pillar {
            Pillar::Cost => evaluate_cost(resource, &self.savings[i], findings),
            Pillar::Resilience => evaluate_resilience(resource, findings),
            Pillar::Security => evaluate_security(resource, findings),
            _ => {
                proof {
                    lemma_extends_start(findings@, *resource);
                }
            },
        }
        proof {
            crate::inventory::fleet::lemma_extends_concat(
                start,
                mid,
                findings@,
                r,
                presence_checks(r, pillar),
                match pillar {
                    Pillar::Cost => cost_checks(r, self.savings@[i as int]),
                    Pillar::Resilience => resilience_checks(r),
                    Pillar::Security => security_checks(r),
                    _ => Seq::empty(),
                },
            );
        }
    }
}

/// Evaluate every Trusted Advisor account row in the fleet for one pillar,
/// with `savings[i]` the savings figure of `resources[i]`. Rows of other
/// resource types are skipped and not counted.
pub fn evaluate_trustedadvisor_fleet(
    resources: &[AwsResource],
    savings: &[SavingsFigure],
    pillar: Pillar,
    now: Timestamp,
) -> (report: PillarReport)
    requires
        fleet_penalty((TrustedAdvisorRules { savings }), resources@, pillar, now) <= i32::MAX,
        savings@.len() == resources@.len(),
    ensures
        report_holds(TrustedAdvisorRules { savings }, report, resources@, pillar, now),
{
    let rules = TrustedAdvisorRules { savings };
    evaluate_fleet(&rules, resources, pillar, now)
}

/// Whether the penalty total of a Trusted Advisor fleet's findings fits the
/// score's `i32` sum, as `evaluate_trustedadvisor_fleet` asks.
pub fn trustedadvisor_fleet_fits(
    resources: &[AwsResource],
    savings: &[SavingsFigure],
    pillar: Pillar,
    now: Timestamp,
) -> (r: bool)
    requires
        savings@.len() == resources@.len(),
    ensures
        r == (fleet_penalty((TrustedAdvisorRules { savings }), resources@, pillar, now) <= i32::MAX),
{
    let rules = TrustedAdvisorRules { savings };
    fleet_penalty_fits(&rules, resources, pillar, now)
}

} // verus!
