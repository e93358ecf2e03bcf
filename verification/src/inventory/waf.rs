//! Deterministic WAF Web ACL inventory evaluators for the cost, security,
//! and resilience pillars.
//!
//! Evaluates fields persisted by the WAF collector: collected, rules_count,
//! managed_rule_group_count, cloud_watch_metrics_enabled,
//! sampled_requests_enabled, logging_enabled, scope, default_action, plus the
//! tags column. Rule-based checks are gated on `rules_count` being present so
//! a detail-collection failure (collected:false) surfaces as a data gap
//! instead of false findings.
use vstd::prelude::*;
use crate::inventory::fleet::{evaluate_fleet, fleet_penalty, report_holds, InventoryRules};
use crate::inventory::types::{data_bool, data_count, data_flag, data_str, data_text, data_u64, emit, ev_bool, ev_copy, ev_opt_bool, ev_opt_text, ev_u64, extends, finding, lemma_extends_start, obj1, obj2, only_if, AwsResource, Ev, FindingSpec, InventoryFinding, Pillar, PillarReport, Severity};
use crate::text::{concat3, str_eq};
use crate::time::Timestamp;

verus! {

/// Only rows of this resource type are evaluated.
pub const RESOURCE_TYPE: &'static str = "WafWebAcl";

// Reason codes are the stable contract for findings; never reuse or rename.
pub const REASON_COST_NO_RULES: &'static str = "WAF_COST_NO_RULES";
pub const REASON_COST_NO_TAGS: &'static str = "WAF_COST_NO_TAGS";
pub const REASON_RES_CLOUDWATCH_METRICS_DISABLED: &'static str = "WAF_RES_CLOUDWATCH_METRICS_DISABLED";
pub const REASON_RES_SAMPLED_REQUESTS_DISABLED: &'static str = "WAF_RES_SAMPLED_REQUESTS_DISABLED";
pub const REASON_RES_DETAIL_DATA_NOT_COLLECTED: &'static str = "WAF_RES_DETAIL_DATA_NOT_COLLECTED";
pub const REASON_SEC_LOGGING_DISABLED: &'static str = "WAF_SEC_LOGGING_DISABLED";
pub const REASON_SEC_LOGGING_DATA_NOT_COLLECTED: &'static str = "WAF_SEC_LOGGING_DATA_NOT_COLLECTED";
pub const REASON_SEC_NO_RULES: &'static str = "WAF_SEC_NO_RULES";
pub const REASON_SEC_NO_MANAGED_RULE_GROUPS: &'static str = "WAF_SEC_NO_MANAGED_RULE_GROUPS";
pub const REASON_INV_STALE_DATA: &'static str = "WAF_INV_STALE_DATA";

pub open spec fn rules_of(r: AwsResource) -> Option<u64> {
    data_count(r.resource_data, "rules_count"@)
}

pub open spec fn cost_no_rules(r: AwsResource) -> FindingSpec {
    finding(
        Pillar::Cost,
        REASON_COST_NO_RULES@,
        Severity::Medium,
        "Web ACL "@ + r.resource_id@
            + " has zero rules; it bills the monthly base fee while providing no protection. Add rules or delete it"@,
        seq![("rules_count"@, Ev::U64(0)), ("scope"@, Ev::OptText(data_text(r.resource_data, "scope"@)))],
    )
}

pub open spec fn cost_no_tags(r: AwsResource) -> FindingSpec {
    finding(
        Pillar::Cost,
        REASON_COST_NO_TAGS@,
        Severity::Medium,
        "Web ACL "@ + r.resource_id@
            + " has no tags recorded (untagged resource or tag collection gap); cost allocation cannot be assessed"@,
        seq![("tags"@, Ev::Copy(r.tags))],
    )
}

/// Cost: web ACLs with zero rules, which bill the base fee and inspect
/// nothing; web ACLs without tags.
pub open spec fn cost_checks(r: AwsResource) -> Seq<FindingSpec> {
    only_if(rules_of(r) == Some(0u64), cost_no_rules(r)) + only_if(
        r.tags.spec_object_empty_or_absent(),
        cost_no_tags(r),
    )
}

pub open spec fn sec_logging_disabled(r: AwsResource) -> FindingSpec {
    finding(
        Pillar::Security,
        REASON_SEC_LOGGING_DISABLED@,
        Severity::High,
        "Web ACL "@ + r.resource_id@
            + " has no logging configuration; blocked and allowed requests leave no audit trail"@,
        seq![("logging_enabled"@, Ev::Bool(false))],
    )
}

pub open spec fn sec_logging_gap(r: AwsResource) -> FindingSpec {
    finding(
        Pillar::Security,
        REASON_SEC_LOGGING_DATA_NOT_COLLECTED@,
        Severity::Low,
        "Logging status for Web ACL "@ + r.resource_id@
            + " is not collected yet; security pillar cannot be fully assessed"@,
        seq![("logging_enabled_collected"@, Ev::Bool(false))],
    )
}

pub open spec fn sec_no_rules(r: AwsResource) -> FindingSpec {
    finding(
        Pillar::Security,
        REASON_SEC_NO_RULES@,
        Severity::High,
        "Web ACL "@ + r.resource_id@
            + " has zero rules; every request falls through to the default action with no inspection"@,
        seq![
            ("rules_count"@, Ev::U64(0)),
            ("default_action"@, Ev::OptText(data_text(r.resource_data, "default_action"@))),
        ],
    )
}

pub open spec fn sec_no_managed(r: AwsResource, rules: u64) -> FindingSpec {
    finding(
        Pillar::Security,
        REASON_SEC_NO_MANAGED_RULE_GROUPS@,
        Severity::Low,
        "Web ACL "@ + r.resource_id@
            + " uses no AWS managed rule groups; baseline protections (e.g. AWSManagedRulesCommonRuleSet) are missing"@,
        seq![("rules_count"@, Ev::U64(rules)), ("managed_rule_group_count"@, Ev::U64(0))],
    )
}

/// Security: logging off (High) or not collected (Low); zero rules (High);
/// rules but no managed rule group (Low). Rule checks need the rule count.
pub open spec fn security_checks(r: AwsResource) -> Seq<FindingSpec> {
    (match data_flag(r.resource_data, "logging_enabled"@) {
        Some(false) => seq![sec_logging_disabled(r)],
        None => seq![sec_logging_gap(r)],
        Some(true) => Seq::empty(),
    }) + match rules_of(r) {
        Some(n) => if n == 0 {
            seq![sec_no_rules(r)]
        } else {
            only_if(
                data_count(r.resource_data, "managed_rule_group_count"@) == Some(0u64),
                sec_no_managed(r, n),
            )
        },
        None => Seq::empty(),
    }
}

pub open spec fn res_detail_gap(r: AwsResource) -> FindingSpec {
    finding(
        Pillar::Resilience,
        REASON_RES_DETAIL_DATA_NOT_COLLECTED@,
        Severity::Low,
        "Detail for Web ACL "@ + r.resource_id@
            + " could not be collected; rule and visibility posture cannot be assessed"@,
        seq![("collected"@, Ev::OptBool(data_flag(r.resource_data, "collected"@)))],
    )
}

pub open spec fn res_metrics_disabled(r: AwsResource) -> FindingSpec {
    finding(
        Pillar::Resilience,
        REASON_RES_CLOUDWATCH_METRICS_DISABLED@,
        Severity::Medium,
        "Web ACL "@ + r.resource_id@
            + " has CloudWatch metrics disabled; rule matches and blocked traffic cannot be monitored or alarmed on"@,
        seq![("cloud_watch_metrics_enabled"@, Ev::Bool(false))],
    )
}

pub open spec fn res_sampling_disabled(r: AwsResource) -> FindingSpec {
    finding(
        Pillar::Resilience,
        REASON_RES_SAMPLED_REQUESTS_DISABLED@,
        Severity::Low,
        "Web ACL "@ + r.resource_id@
            + " has sampled requests disabled; rule behavior cannot be inspected during an incident"@,
        seq![("sampled_requests_enabled"@, Ev::Bool(false))],
    )
}

/// Resilience: when the detail was not collected, only that gap; otherwise
/// CloudWatch metrics off and sampled requests off.
pub open spec fn resilience_checks(r: AwsResource) -> Seq<FindingSpec> {
    if data_flag(r.resource_data, "collected"@) != Some(true) {
        seq![res_detail_gap(r)]
    } else {
        only_if(
            data_flag(r.resource_data, "cloud_watch_metrics_enabled"@) == Some(false),
            res_metrics_disabled(r),
        ) + only_if(
            data_flag(r.resource_data, "sampled_requests_enabled"@) == Some(false),
            res_sampling_disabled(r),
        )
    }
}

/// The pillar findings for one web ACL; pillars without checks for this
/// service yet produce none.
pub open spec fn checks(r: AwsResource, pillar: Pillar) -> Seq<FindingSpec> {
    match pillar {
        Pillar::Cost => cost_checks(r),
        Pillar::Security => security_checks(r),
        Pillar::Resilience => resilience_checks(r),
        _ => Seq::empty(),
    }
}

fn evaluate_cost(resource: &AwsResource, findings: &mut Vec<InventoryFinding>)
    ensures
        extends(old(findings)@, final(findings)@, *resource, cost_checks(*resource)),
{
    let ghost r = *resource;
    let ghost start = findings@;
    let ghost mut acc: Seq<FindingSpec> = Seq::empty();
    proof {
        lemma_extends_start(start, r);
    }
    let id = resource.resource_id.as_str();
    // A web ACL bills a fixed base fee even when it contains no rules and
    // therefore inspects nothing. Gated on rules_count being collected; a
    // detail gap is reported by the resilience pillar.
    if data_u64(&resource.resource_data, "rules_count") == Some(0u64) {
        let scope = data_str(&resource.resource_data, "scope");
        emit(
            findings,
            resource,
            Pillar::Cost,
            REASON_COST_NO_RULES,
            Severity::Medium,
            concat3(
                "Web ACL ",
                id,
                " has zero rules; it bills the monthly base fee while providing no protection. Add rules or delete it",
            ),
            obj2(
                "rules_count",
                ev_u64(0),
                "scope",
                ev_opt_text(&scope),
                Ghost(Ev::U64(0)),
                Ghost(Ev::OptText(data_text(r.resource_data, "scope"@))),
            ),
            Ghost(acc),
            Ghost(start),
            Ghost(cost_no_rules(r)),
        );
        proof {
            acc = acc.push(cost_no_rules(r));
        }
    }
    if resource.tags.object_empty_or_absent() {
        emit(
            findings,
            resource,
            Pillar::Cost,
            REASON_COST_NO_TAGS,
            Severity::Medium,
            concat3(
                "Web ACL ",
                id,
                " has no tags recorded (untagged resource or tag collection gap); cost allocation cannot be assessed",
            ),
            obj1("tags", ev_copy(&resource.tags), Ghost(Ev::Copy(r.tags))),
            Ghost(acc),
            Ghost(start),
            Ghost(cost_no_tags(r)),
        );
        proof {
            acc = acc.push(cost_no_tags(r));
        }
    }
    assert(acc =~= cost_checks(r));
}

fn evaluate_security(resource: &AwsResource, findings: &mut Vec<InventoryFinding>)
    ensures
        extends(old(findings)@, final(findings)@, *resource, security_checks(*resource)),
{
    let ghost r = *resource;
    let ghost start = findings@;
    let ghost mut acc: Seq<FindingSpec> = Seq::empty();
    proof {
        lemma_extends_start(start, r);
    }
    let id = resource.resource_id.as_str();
    // logging_enabled is persisted true/false when collected; the field is
    // absent only when the logging lookup failed unexpectedly.
    match data_bool(&resource.resource_data, "logging_enabled") {
        Some(false) => {
            emit(
                findings,
                resource,
                Pillar::Security,
                REASON_SEC_LOGGING_DISABLED,
                Severity::High,
                concat3(
                    "Web ACL ",
                    id,
                    " has no logging configuration; blocked and allowed requests leave no audit trail",
                ),
                obj1("logging_enabled", ev_bool(false), Ghost(Ev::Bool(false))),
                Ghost(acc),
                Ghost(start),
                Ghost(sec_logging_disabled(r)),
            );
            proof {
                acc = acc.push(sec_logging_disabled(r));
            }
        },
        None => {
            emit(
                findings,
                resource,
                Pillar::Security,
                REASON_SEC_LOGGING_DATA_NOT_COLLECTED,
                Severity::Low,
                concat3(
                    "Logging status for Web ACL ",
                    id,
                    " is not collected yet; security pillar cannot be fully assessed",
                ),
                obj1("logging_enabled_collected", ev_bool(false), Ghost(Ev::Bool(false))),
                Ghost(acc),
                Ghost(start),
                Ghost(sec_logging_gap(r)),
            );
            proof {
                acc = acc.push(sec_logging_gap(r));
            }
        },
        Some(true) => {},
    }
    // Rule-based checks require collected detail; the detail gap itself is a
    // resilience finding, so absent counts are silently skipped here.
    match data_u64(&resource.resource_data, "rules_count") {
        Some(rules_count) => {
            if rules_count == 0 {
                let default_action = data_str(&resource.resource_data, "default_action");
                emit(
                    findings,
                    resource,
                    Pillar::Security,
                    REASON_SEC_NO_RULES,
                    Severity::High,
                    concat3(
                        "Web ACL ",
                        id,
                        " has zero rules; every request falls through to the default action with no inspection",
                    ),
                    obj2(
                        "rules_count",
                        ev_u64(0),
                        "default_action",
                        ev_opt_text(&default_action),
                        Ghost(Ev::U64(0)),
                        Ghost(Ev::OptText(data_text(r.resource_data, "default_action"@))),
                    ),
                    Ghost(acc),
                    Ghost(start),
                    Ghost(sec_no_rules(r)),
                );
                proof {
                    acc = acc.push(sec_no_rules(r));
                }
            } else if data_u64(&resource.resource_data, "managed_rule_group_count") == Some(0u64) {
                emit(
                    findings,
                    resource,
                    Pillar::Security,
                    REASON_SEC_NO_MANAGED_RULE_GROUPS,
                    Severity::Low,
                    concat3(
                        "Web ACL ",
                        id,
                        " uses no AWS managed rule groups; baseline protections (e.g. AWSManagedRulesCommonRuleSet) are missing",
                    ),
                    obj2(
                        "rules_count",
                        ev_u64(rules_count),
                        "managed_rule_group_count",
                        ev_u64(0),
                        Ghost(Ev::U64(rules_count)),
                        Ghost(Ev::U64(0)),
                    ),
                    Ghost(acc),
                    Ghost(start),
                    Ghost(sec_no_managed(r, rules_count)),
                );
                proof {
                    acc = acc.push(sec_no_managed(r, rules_count));
                }
            }
        },
        None => {},
    }
    assert(acc =~= security_checks(r));
}

fn evaluate_resilience(resource: &AwsResource, findings: &mut Vec<InventoryFinding>)
    ensures
        extends(old(findings)@, final(findings)@, *resource, resilience_checks(*resource)),
{
    let ghost r = *resource;
    let ghost start = findings@;
    let ghost mut acc: Seq<FindingSpec> = Seq::empty();
    proof {
        lemma_extends_start(start, r);
    }
    let id = resource.resource_id.as_str();
    let collected = data_bool(&resource.resource_data, "collected");
    if collected != Some(true) {
        emit(
            findings,
            resource,
            Pillar::Resilience,
            REASON_RES_DETAIL_DATA_NOT_COLLECTED,
            Severity::Low,
            concat3(
                "Detail for Web ACL ",
                id,
                " could not be collected; rule and visibility posture cannot be assessed",
            ),
            obj1("collected", ev_opt_bool(collected), Ghost(Ev::OptBool(collected))),
            Ghost(acc),
            Ghost(start),
            Ghost(res_detail_gap(r)),
        );
        assert(acc.push(res_detail_gap(r)) =~= resilience_checks(r));
        return;
    }
    if data_bool(&resource.resource_data, "cloud_watch_metrics_enabled") == Some(false) {
        emit(
            findings,
            resource,
            Pillar::Resilience,
            REASON_RES_CLOUDWATCH_METRICS_DISABLED,
            Severity::Medium,
            concat3(
                "Web ACL ",
                id,
                " has CloudWatch metrics disabled; rule matches and blocked traffic cannot be monitored or alarmed on",
            ),
            obj1("cloud_watch_metrics_enabled", ev_bool(false), Ghost(Ev::Bool(false))),
            Ghost(acc),
            Ghost(start),
            Ghost(res_metrics_disabled(r)),
        );
        proof {
            acc = acc.push(res_metrics_disabled(r));
        }
    }
    if data_bool(&resource.resource_data, "sampled_requests_enabled") == Some(false) {
        emit(
            findings,
            resource,
            Pillar::Resilience,
            REASON_RES_SAMPLED_REQUESTS_DISABLED,
            Severity::Low,
            concat3(
                "Web ACL ",
                id,
                " has sampled requests disabled; rule behavior cannot be inspected during an incident",
            ),
            obj1("sampled_requests_enabled", ev_bool(false), Ghost(Ev::Bool(false))),
            Ghost(acc),
            Ghost(start),
            Ghost(res_sampling_disabled(r)),
        );
        proof {
            acc = acc.push(res_sampling_disabled(r));
        }
    }
    assert(acc =~= resilience_checks(r));
}

/// The WAF Web ACL rules.
pub struct WafRules;

impl InventoryRules for WafRules {
    open spec fn covers(r: AwsResource) -> bool {
        r.resource_type@ == RESOURCE_TYPE@
    }

    open spec fn spec_stale_code() -> Seq<char> {
        REASON_INV_STALE_DATA@
    }

    open spec fn checks(&self, i: int, r: AwsResource, pillar: Pillar, now: Timestamp) -> Seq<FindingSpec> {
        checks(r, pillar)
    }

    fn covers_row(resource: &AwsResource) -> (b: bool) {
        str_eq(resource.resource_type.as_str(), RESOURCE_TYPE)
    }

    fn stale_code() -> (r: &'static str) {
        REASON_INV_STALE_DATA
    }

    open spec fn serves(&self, i: int) -> bool {
        true
    }

    proof fn lemma_checks_pillar(&self, i: int, r: AwsResource, pillar: Pillar, now: Timestamp) {
    }

    proof fn lemma_checks_bound(&self, i: int, r: AwsResource, pillar: Pillar, now: Timestamp) {
    }

    fn evaluate_resource(
        &self,
        i: usize,
        resource: &AwsResource,
        pillar: Pillar,
        now: &Timestamp,
        findings: &mut Vec<InventoryFinding>,
    ) {
        match pillar {
            Pillar::Cost => evaluate_cost(resource, findings),
            Pillar::Security => evaluate_security(resource, findings),
            Pillar::Resilience => evaluate_resilience(resource, findings),
            // Pillars without checks for this service yet produce no findings.
            _ => {
                proof {
                    lemma_extends_start(findings@, *resource);
                }
            },
        }
    }
}

/// Evaluate every WAF Web ACL in the fleet for one pillar. Rows whose
/// `resource_type` is not `WafWebAcl` are skipped and not counted.
pub fn evaluate_waf_fleet(resources: &[AwsResource], pillar: Pillar, now: Timestamp) -> (report: PillarReport)
    requires
        fleet_penalty(WafRules, resources@, pillar, now) <= i32::MAX,
    ensures
        report_holds(WafRules, report, resources@, pillar, now),
{
    evaluate_fleet(&WafRules, resources, pillar, now)
}

} // verus!
