//! Deterministic Step Functions state machine inventory evaluators for all
//! seven pillars.
//!
//! Evaluates fields persisted by the Step Functions collector: status,
//! state_machine_type, role_arn, logging_level, logging_include_execution_data,
//! logging_destination_count, tracing_enabled, plus the tags column. When the
//! per-machine describe call failed during sync, the data-gap reason codes
//! report the missing evidence instead of guessing.
use vstd::prelude::*;
use crate::inventory::fleet::{evaluate_fleet, fleet_penalty, report_holds, InventoryRules};
use crate::inventory::types::{
    all_about, lemma_about_concat,
    data_count, data_flag, data_bool, data_str, data_text, data_u64, emit, ev_bool, ev_copy,
    ev_opt_text, ev_text, ev_texts, ev_u64, extends, finding, has_any_tag, has_tag, is_text,
    lemma_extends_start, obj1, obj2, obj3, opt_view, owner_keys, only_if, AwsResource, Ev,
    FindingSpec, InventoryFinding, Pillar, PillarReport, Severity, OWNER_TAG_KEYS,
};
use crate::text::{concat3, concat5, str_eq};
use crate::time::Timestamp;

verus! {

/// Only rows of this resource type are evaluated.
pub const RESOURCE_TYPE: &'static str = "StepFunction";

// Reason codes are the stable contract for findings; never reuse or rename.
pub const REASON_COST_NO_TAGS: &'static str = "SFN_COST_NO_TAGS";
pub const REASON_COST_MACHINE_DELETING: &'static str = "SFN_COST_MACHINE_DELETING";
pub const REASON_COST_EXPRESS_FULL_EXECUTION_LOGGING: &'static str = "SFN_COST_EXPRESS_FULL_EXECUTION_LOGGING";
pub const REASON_SEC_LOGGING_OFF: &'static str = "SFN_SEC_LOGGING_OFF";
pub const REASON_SEC_TRACING_DISABLED: &'static str = "SFN_SEC_TRACING_DISABLED";
pub const REASON_SEC_NO_ROLE_ARN: &'static str = "SFN_SEC_NO_ROLE_ARN";
pub const REASON_RES_MACHINE_NOT_ACTIVE: &'static str = "SFN_RES_MACHINE_NOT_ACTIVE";
pub const REASON_RES_LOG_DESTINATIONS_MISSING: &'static str = "SFN_RES_LOG_DESTINATIONS_MISSING";
pub const REASON_PERF_TRACING_DISABLED: &'static str = "SFN_PERF_TRACING_DISABLED";
pub const REASON_PERF_EXPRESS_ALL_LOGGING: &'static str = "SFN_PERF_EXPRESS_ALL_LOGGING";
pub const REASON_SCALE_FULL_EXECUTION_LOGGING: &'static str = "SFN_SCALE_FULL_EXECUTION_LOGGING";
pub const REASON_DR_LOGGING_OFF: &'static str = "SFN_DR_LOGGING_OFF";
pub const REASON_OPEX_NO_OWNER_TAG: &'static str = "SFN_OPEX_NO_OWNER_TAG";
pub const REASON_DATA_GAP_MACHINE_TYPE: &'static str = "SFN_DATA_GAP_MACHINE_TYPE";
pub const REASON_DATA_GAP_LOGGING: &'static str = "SFN_DATA_GAP_LOGGING";
pub const REASON_DATA_GAP_TRACING: &'static str = "SFN_DATA_GAP_TRACING";
pub const REASON_DATA_GAP_STATUS: &'static str = "SFN_DATA_GAP_STATUS";
pub const REASON_INV_STALE_DATA: &'static str = "SFN_INV_STALE_DATA";

// ---------------------------------------------------------------------------
// What the row says.
// ---------------------------------------------------------------------------

pub open spec fn status_of(r: AwsResource) -> Option<Seq<char>> {
    data_text(r.resource_data, "status"@)
}

pub open spec fn level_of(r: AwsResource) -> Option<Seq<char>> {
    data_text(r.resource_data, "logging_level"@)
}

pub open spec fn type_of(r: AwsResource) -> Option<Seq<char>> {
    data_text(r.resource_data, "state_machine_type"@)
}

pub open spec fn include_data_of(r: AwsResource) -> Option<bool> {
    data_flag(r.resource_data, "logging_include_execution_data"@)
}

pub open spec fn tracing_of(r: AwsResource) -> Option<bool> {
    data_flag(r.resource_data, "tracing_enabled"@)
}

pub open spec fn role_of(r: AwsResource) -> Option<Seq<char>> {
    data_text(r.resource_data, "role_arn"@)
}

/// The destination count, 0 only_if it is not collected.
pub open spec fn destinations_of(r: AwsResource) -> u64 {
    match data_count(r.resource_data, "logging_destination_count"@) {
        Some(n) => n,
        None => 0,
    }
}

fn machine_status(resource: &AwsResource) -> (r: Option<String>)
    ensures
        opt_view(r) == status_of(*resource),
{
    data_str(&resource.resource_data, "status")
}

fn logging_level(resource: &AwsResource) -> (r: Option<String>)
    ensures
        opt_view(r) == level_of(*resource),
{
    data_str(&resource.resource_data, "logging_level")
}

fn machine_type(resource: &AwsResource) -> (r: Option<String>)
    ensures
        opt_view(r) == type_of(*resource),
{
    data_str(&resource.resource_data, "state_machine_type")
}

// ---------------------------------------------------------------------------
// The findings.
// ---------------------------------------------------------------------------

pub open spec fn cost_no_tags(r: AwsResource) -> FindingSpec {
    finding(
        Pillar::Cost,
        REASON_COST_NO_TAGS@,
        Severity::Medium,
        "State machine "@ + r.resource_id@
            + " has no tags recorded (untagged resource or tag collection gap); cost allocation cannot be assessed"@,
        seq![("tags"@, Ev::Copy(r.tags))],
    )
}

pub open spec fn cost_deleting(r: AwsResource) -> FindingSpec {
    finding(
        Pillar::Cost,
        REASON_COST_MACHINE_DELETING@,
        Severity::Low,
        "State machine "@ + r.resource_id@
            + " is in DELETING status; confirm deletion completes and clean up its log groups and alarms so residual log storage stops billing"@,
        seq![("status"@, Ev::Text("DELETING"@))],
    )
}

pub open spec fn cost_express_logging(r: AwsResource) -> FindingSpec {
    finding(
        Pillar::Cost,
        REASON_COST_EXPRESS_FULL_EXECUTION_LOGGING@,
        Severity::Medium,
        "EXPRESS state machine "@ + r.resource_id@
            + " logs at ALL level with execution data included; CloudWatch Logs ingestion can exceed the workflow cost at high volume"@,
        seq![
            ("state_machine_type"@, Ev::Text("EXPRESS"@)),
            ("logging_level"@, Ev::Text("ALL"@)),
            ("logging_include_execution_data"@, Ev::Bool(true)),
        ],
    )
}

/// Cost: untagged machines, machines being deleted, and EXPRESS machines
/// logging everything with execution data.
pub open spec fn cost_checks(r: AwsResource) -> Seq<FindingSpec> {
    only_if(r.tags.spec_object_empty_or_absent(), cost_no_tags(r)) + only_if(
        status_of(r) == Some("DELETING"@),
        cost_deleting(r),
    ) + only_if(
        type_of(r) == Some("EXPRESS"@) && level_of(r) == Some("ALL"@) && include_data_of(r) == Some(
            true,
        ),
        cost_express_logging(r),
    )
}

pub open spec fn sec_no_role(r: AwsResource) -> FindingSpec {
    finding(
        Pillar::Security,
        REASON_SEC_NO_ROLE_ARN@,
        Severity::Medium,
        "State machine "@ + r.resource_id@
            + " has no execution role ARN recorded (missing role or enrichment gap); permission scope cannot be assessed"@,
        seq![("role_arn"@, Ev::OptText(role_of(r)))],
    )
}

pub open spec fn sec_logging_off(r: AwsResource) -> FindingSpec {
    finding(
        Pillar::Security,
        REASON_SEC_LOGGING_OFF@,
        Severity::Medium,
        "State machine "@ + r.resource_id@
            + " has execution logging turned OFF; there is no audit trail of executions in CloudWatch Logs"@,
        seq![("logging_level"@, Ev::Text("OFF"@))],
    )
}

pub open spec fn sec_logging_gap(r: AwsResource) -> FindingSpec {
    finding(
        Pillar::Security,
        REASON_DATA_GAP_LOGGING@,
        Severity::Low,
        "Logging configuration for state machine "@ + r.resource_id@
            + " is not collected yet; the security pillar cannot be fully assessed"@,
        seq![("logging_level_collected"@, Ev::Bool(false))],
    )
}

pub open spec fn sec_tracing_disabled(r: AwsResource) -> FindingSpec {
    finding(
        Pillar::Security,
        REASON_SEC_TRACING_DISABLED@,
        Severity::Low,
        "State machine "@ + r.resource_id@
            + " has X-Ray tracing disabled; downstream call paths cannot be audited end to end"@,
        seq![("tracing_enabled"@, Ev::Bool(false))],
    )
}

pub open spec fn sec_tracing_gap(r: AwsResource) -> FindingSpec {
    finding(
        Pillar::Security,
        REASON_DATA_GAP_TRACING@,
        Severity::Low,
        "Tracing configuration for state machine "@ + r.resource_id@
            + " is not collected yet; the security pillar cannot be fully assessed"@,
        seq![("tracing_enabled_collected"@, Ev::Bool(false))],
    )
}

/// Security: a missing or empty execution role, logging turned off (or not
/// collected), tracing disabled (or not collected).
pub open spec fn security_checks(r: AwsResource) -> Seq<FindingSpec> {
    only_if(
        match role_of(r) {
            Some(a) => a.len() == 0,
            None => true,
        },
        sec_no_role(r),
    ) + only_if(level_of(r) == Some("OFF"@), sec_logging_off(r)) + only_if(
        level_of(r) is None,
        sec_logging_gap(r),
    ) + only_if(tracing_of(r) == Some(false), sec_tracing_disabled(r)) + only_if(
        tracing_of(r) is None,
        sec_tracing_gap(r),
    )
}

pub open spec fn res_not_active(r: AwsResource, other: Seq<char>) -> FindingSpec {
    finding(
        Pillar::Resilience,
        REASON_RES_MACHINE_NOT_ACTIVE@,
        Severity::High,
        "State machine "@ + r.resource_id@ + " is in status "@ + other
            + "; new executions will fail until it is ACTIVE"@,
        seq![("status"@, Ev::Text(other))],
    )
}

pub open spec fn res_status_gap(r: AwsResource) -> FindingSpec {
    finding(
        Pillar::Resilience,
        REASON_DATA_GAP_STATUS@,
        Severity::Low,
        "Status for state machine "@ + r.resource_id@
            + " is not collected yet; the resilience pillar cannot be fully assessed"@,
        seq![("status_collected"@, Ev::Bool(false))],
    )
}

pub open spec fn res_no_destinations(r: AwsResource, level: Seq<char>) -> FindingSpec {
    finding(
        Pillar::Resilience,
        REASON_RES_LOG_DESTINATIONS_MISSING@,
        Severity::Medium,
        "State machine "@ + r.resource_id@ + " logs at level "@ + level
            + " but has no log destinations; execution history is dropped and incidents cannot be reconstructed"@,
        seq![("logging_level"@, Ev::Text(level)), ("logging_destination_count"@, Ev::U64(0))],
    )
}

/// Resilience: a machine that is not ACTIVE (or whose status is not
/// collected), and logging enabled without any destination.
pub open spec fn resilience_checks(r: AwsResource) -> Seq<FindingSpec> {
    (match status_of(r) {
        Some(s) => only_if(s != "ACTIVE"@, res_not_active(r, s)),
        None => seq![res_status_gap(r)],
    }) + (match level_of(r) {
        Some(l) => only_if(l != "OFF"@ && destinations_of(r) == 0, res_no_destinations(r, l)),
        None => Seq::empty(),
    })
}

pub open spec fn perf_tracing_disabled(r: AwsResource) -> FindingSpec {
    finding(
        Pillar::Performance,
        REASON_PERF_TRACING_DISABLED@,
        Severity::Low,
        "State machine "@ + r.resource_id@
            + " has X-Ray tracing disabled; latency bottlenecks across its downstream calls cannot be located"@,
        seq![("tracing_enabled"@, Ev::Bool(false))],
    )
}

pub open spec fn perf_tracing_gap(r: AwsResource) -> FindingSpec {
    finding(
        Pillar::Performance,
        REASON_DATA_GAP_TRACING@,
        Severity::Low,
        "Tracing configuration for state machine "@ + r.resource_id@
            + " is not collected yet; the performance pillar cannot be fully assessed"@,
        seq![("tracing_enabled_collected"@, Ev::Bool(false))],
    )
}

pub open spec fn perf_express_all(r: AwsResource) -> FindingSpec {
    finding(
        Pillar::Performance,
        REASON_PERF_EXPRESS_ALL_LOGGING@,
        Severity::Low,
        "EXPRESS state machine "@ + r.resource_id@
            + " logs at ALL level; per-state-transition log writes add latency on the hot path it was chosen for"@,
        seq![("state_machine_type"@, Ev::Text("EXPRESS"@)), ("logging_level"@, Ev::Text("ALL"@))],
    )
}

/// Performance: tracing disabled (or not collected), and EXPRESS machines
/// logging at ALL level.
pub open spec fn performance_checks(r: AwsResource) -> Seq<FindingSpec> {
    only_if(tracing_of(r) == Some(false), perf_tracing_disabled(r)) + only_if(
        tracing_of(r) is None,
        perf_tracing_gap(r),
    ) + only_if(type_of(r) == Some("EXPRESS"@) && level_of(r) == Some("ALL"@), perf_express_all(r))
}

pub open spec fn scale_full_logging(r: AwsResource) -> FindingSpec {
    finding(
        Pillar::Scalability,
        REASON_SCALE_FULL_EXECUTION_LOGGING@,
        Severity::Low,
        "State machine "@ + r.resource_id@
            + " logs at ALL level with execution data included; log volume scales linearly with executions and CloudWatch Logs ingestion quotas become the scaling ceiling"@,
        seq![("logging_level"@, Ev::Text("ALL"@)), ("logging_include_execution_data"@, Ev::Bool(true))],
    )
}

pub open spec fn scale_type_gap(r: AwsResource) -> FindingSpec {
    finding(
        Pillar::Scalability,
        REASON_DATA_GAP_MACHINE_TYPE@,
        Severity::Low,
        "Workflow type for state machine "@ + r.resource_id@
            + " is not collected yet; throughput characteristics cannot be assessed"@,
        seq![("state_machine_type_collected"@, Ev::Bool(false))],
    )
}

/// Scalability: ALL-level logging with execution data on any machine type,
/// and a workflow type that is not collected.
pub open spec fn scalability_checks(r: AwsResource) -> Seq<FindingSpec> {
    only_if(level_of(r) == Some("ALL"@) && include_data_of(r) == Some(true), scale_full_logging(r))
        + only_if(type_of(r) is None, scale_type_gap(r))
}

pub open spec fn dr_logging_off(r: AwsResource) -> FindingSpec {
    finding(
        Pillar::DisasterRecovery,
        REASON_DR_LOGGING_OFF@,
        Severity::Medium,
        "State machine "@ + r.resource_id@
            + " has execution logging OFF; after an outage there is no durable execution record to identify and replay lost work"@,
        seq![("logging_level"@, Ev::Text("OFF"@))],
    )
}

pub open spec fn dr_logging_gap(r: AwsResource) -> FindingSpec {
    finding(
        Pillar::DisasterRecovery,
        REASON_DATA_GAP_LOGGING@,
        Severity::Low,
        "Logging configuration for state machine "@ + r.resource_id@
            + " is not collected yet; the disaster-recovery pillar cannot be fully assessed"@,
        seq![("logging_level_collected"@, Ev::Bool(false))],
    )
}

/// Disaster recovery: logging turned off, or not collected.
pub open spec fn disaster_recovery_checks(r: AwsResource) -> Seq<FindingSpec> {
    only_if(level_of(r) == Some("OFF"@), dr_logging_off(r)) + only_if(
        level_of(r) is None,
        dr_logging_gap(r),
    )
}

pub open spec fn opex_no_owner(r: AwsResource) -> FindingSpec {
    finding(
        Pillar::OperationalExcellence,
        REASON_OPEX_NO_OWNER_TAG@,
        Severity::Medium,
        "State machine "@ + r.resource_id@
            + " carries no owner or team tag; findings and incidents for it cannot be routed to an owner"@,
        seq![("tags"@, Ev::Copy(r.tags)), ("accepted_tag_keys"@, Ev::Texts(owner_keys()))],
    )
}

/// Operational excellence: no owner or team tag.
pub open spec fn operational_excellence_checks(r: AwsResource) -> Seq<FindingSpec> {
    only_if(!has_tag(r.tags, owner_keys()), opex_no_owner(r))
}

/// The pillar findings for one state machine.
pub open spec fn checks(r: AwsResource, pillar: Pillar) -> Seq<FindingSpec> {
    match pillar {
        Pillar::Cost => cost_checks(r),
        Pillar::Security => security_checks(r),
        Pillar::Resilience => resilience_checks(r),
        Pillar::Performance => performance_checks(r),
        Pillar::Scalability => scalability_checks(r),
        Pillar::DisasterRecovery => disaster_recovery_checks(r),
        Pillar::OperationalExcellence => operational_excellence_checks(r),
    }
}

// ---------------------------------------------------------------------------
// The evaluation.
// ---------------------------------------------------------------------------

fn evaluate_cost(resource: &AwsResource, findings: &mut Vec<InventoryFinding>)
    ensures
        extends(old(findings)@, final(findings)@, *resource, cost_checks(*resource)),
{
    let ghost r = *resource;
    let ghost start = findings@;
    let ghost mut acc: Seq<FindingSpec> = Seq::empty();
    proof {
        lemma_extends_start(start, r);
    }
    let id = resource.resource_id.as_str();
    if resource.tags.object_empty_or_absent() {
        emit(
            findings,
            resource,
            Pillar::Cost,
            REASON_COST_NO_TAGS,
            Severity::Medium,
            concat3(
                "State machine ",
                id,
                " has no tags recorded (untagged resource or tag collection gap); cost allocation cannot be assessed",
            ),
            obj1("tags", ev_copy(&resource.tags), Ghost(Ev::Copy(r.tags))),
            Ghost(acc),
            Ghost(start),
            Ghost(cost_no_tags(r)),
        );
        proof {
            acc = acc.push(cost_no_tags(r));
        }
    }
    let status = machine_status(resource);
    if is_text(&status, "DELETING") {
        emit(
            findings,
            resource,
            Pillar::Cost,
            REASON_COST_MACHINE_DELETING,
            Severity::Low,
            concat3(
                "State machine ",
                id,
                " is in DELETING status; confirm deletion completes and clean up its log groups and alarms so residual log storage stops billing",
            ),
            obj1("status", ev_text("DELETING"), Ghost(Ev::Text("DELETING"@))),
            Ghost(acc),
            Ghost(start),
            Ghost(cost_deleting(r)),
        );
        proof {
            acc = acc.push(cost_deleting(r));
        }
    }
    let include_execution_data = data_bool(&resource.resource_data, "logging_include_execution_data");
    if is_text(&machine_type(resource), "EXPRESS") && is_text(&logging_level(resource), "ALL")
        && include_execution_data == Some(true) {
        emit(
            findings,
            resource,
            Pillar::Cost,
            REASON_COST_EXPRESS_FULL_EXECUTION_LOGGING,
            Severity::Medium,
            concat3(
                "EXPRESS state machine ",
                id,
                " logs at ALL level with execution data included; CloudWatch Logs ingestion can exceed the workflow cost at high volume",
            ),
            obj3(
                "state_machine_type",
                ev_text("EXPRESS"),
                "logging_level",
                ev_text("ALL"),
                "logging_include_execution_data",
                ev_bool(true),
                Ghost(Ev::Text("EXPRESS"@)),
                Ghost(Ev::Text("ALL"@)),
                Ghost(Ev::Bool(true)),
            ),
            Ghost(acc),
            Ghost(start),
            Ghost(cost_express_logging(r)),
        );
        proof {
            acc = acc.push(cost_express_logging(r));
        }
    }
    assert(acc =~= cost_checks(r));
}

fn evaluate_security(resource: &AwsResource, findings: &mut Vec<InventoryFinding>)
    ensures
        extends(old(findings)@, final(findings)@, *resource, security_checks(*resource)),
{
    let ghost r = *resource;
    let ghost start = findings@;
    let ghost mut acc: Seq<FindingSpec> = Seq::empty();
    proof {
        lemma_extends_start(start, r);
    }
    let id = resource.resource_id.as_str();
    let role_arn = data_str(&resource.resource_data, "role_arn");
    let no_role = match &role_arn {
        Some(a) => a.as_str().is_empty(),
        None => true,
    };
    if no_role {
        emit(
            findings,
            resource,
            Pillar::Security,
            REASON_SEC_NO_ROLE_ARN,
            Severity::Medium,
            concat3(
                "State machine ",
                id,
                " has no execution role ARN recorded (missing role or enrichment gap); permission scope cannot be assessed",
            ),
            obj1("role_arn", ev_opt_text(&role_arn), Ghost(Ev::OptText(role_of(r)))),
            Ghost(acc),
            Ghost(start),
            Ghost(sec_no_role(r)),
        );
        proof {
            acc = acc.push(sec_no_role(r));
        }
    }
    let level = logging_level(resource);
    match &level {
        Some(l) => {
            if str_eq(l.as_str(), "OFF") {
                emit(
                    findings,
                    resource,
                    Pillar::Security,
                    REASON_SEC_LOGGING_OFF,
                    Severity::Medium,
                    concat3(
                        "State machine ",
                        id,
                        " has execution logging turned OFF; there is no audit trail of executions in CloudWatch Logs",
                    ),
                    obj1("logging_level", ev_text("OFF"), Ghost(Ev::Text("OFF"@))),
                    Ghost(acc),
                    Ghost(start),
                    Ghost(sec_logging_off(r)),
                );
                proof {
                    acc = acc.push(sec_logging_off(r));
                }
            }
        },
        None => {
            emit(
                findings,
                resource,
                Pillar::Security,
                REASON_DATA_GAP_LOGGING,
                Severity::Low,
                concat3(
                    "Logging configuration for state machine ",
                    id,
                    " is not collected yet; the security pillar cannot be fully assessed",
                ),
                obj1("logging_level_collected", ev_bool(false), Ghost(Ev::Bool(false))),
                Ghost(acc),
                Ghost(start),
                Ghost(sec_logging_gap(r)),
            );
            proof {
                acc = acc.push(sec_logging_gap(r));
            }
        },
    }
    let tracing_enabled = data_bool(&resource.resource_data, "tracing_enabled");
    match tracing_enabled {
        Some(false) => {
            emit(
                findings,
                resource,
                Pillar::Security,
                REASON_SEC_TRACING_DISABLED,
                Severity::Low,
                concat3(
                    "State machine ",
                    id,
                    " has X-Ray tracing disabled; downstream call paths cannot be audited end to end",
                ),
                obj1("tracing_enabled", ev_bool(false), Ghost(Ev::Bool(false))),
                Ghost(acc),
                Ghost(start),
                Ghost(sec_tracing_disabled(r)),
            );
            proof {
                acc = acc.push(sec_tracing_disabled(r));
            }
        },
        Some(true) => {},
        None => {
            emit(
                findings,
                resource,
                Pillar::Security,
                REASON_DATA_GAP_TRACING,
                Severity::Low,
                concat3(
                    "Tracing configuration for state machine ",
                    id,
                    " is not collected yet; the security pillar cannot be fully assessed",
                ),
                obj1("tracing_enabled_collected", ev_bool(false), Ghost(Ev::Bool(false))),
                Ghost(acc),
                Ghost(start),
                Ghost(sec_tracing_gap(r)),
            );
            proof {
                acc = acc.push(sec_tracing_gap(r));
            }
        },
    }
    assert(acc =~= security_checks(r));
}

fn evaluate_resilience(resource: &AwsResource, findings: &mut Vec<InventoryFinding>)
    ensures
        extends(old(findings)@, final(findings)@, *resource, resilience_checks(*resource)),
{
    let ghost r = *resource;
    let ghost start = findings@;
    let ghost mut acc: Seq<FindingSpec> = Seq::empty();
    proof {
        lemma_extends_start(start, r);
    }
    let id = resource.resource_id.as_str();
    match machine_status(resource) {
        Some(other) => {
            if !str_eq(other.as_str(), "ACTIVE") {
                emit(
                    findings,
                    resource,
                    Pillar::Resilience,
                    REASON_RES_MACHINE_NOT_ACTIVE,
                    Severity::High,
                    concat5(
                        "State machine ",
                        id,
                        " is in status ",
                        other.as_str(),
                        "; new executions will fail until it is ACTIVE",
                    ),
                    obj1("status", ev_text(other.as_str()), Ghost(Ev::Text(other@))),
                    Ghost(acc),
                    Ghost(start),
                    Ghost(res_not_active(r, other@)),
                );
                proof {
                    acc = acc.push(res_not_active(r, other@));
                }
            }
        },
        None => {
            emit(
                findings,
                resource,
                Pillar::Resilience,
                REASON_DATA_GAP_STATUS,
                Severity::Low,
                concat3(
                    "Status for state machine ",
                    id,
                    " is not collected yet; the resilience pillar cannot be fully assessed",
                ),
                obj1("status_collected", ev_bool(false), Ghost(Ev::Bool(false))),
                Ghost(acc),
                Ghost(start),
                Ghost(res_status_gap(r)),
            );
            proof {
                acc = acc.push(res_status_gap(r));
            }
        },
    }
    let ghost mid = acc;
    match logging_level(resource) {
        Some(level) => {
            if !str_eq(level.as_str(), "OFF") {
                let destination_count = match data_u64(
                    &resource.resource_data,
                    "logging_destination_count",
                ) {
                    Some(n) => n,
                    None => 0,
                };
                if destination_count == 0 {
                    emit(
                        findings,
                        resource,
                        Pillar::Resilience,
                        REASON_RES_LOG_DESTINATIONS_MISSING,
                        Severity::Medium,
                        concat5(
                            "State machine ",
                            id,
                            " logs at level ",
                            level.as_str(),
                            " but has no log destinations; execution history is dropped and incidents cannot be reconstructed",
                        ),
                        obj2(
                            "logging_level",
                            ev_text(level.as_str()),
                            "logging_destination_count",
                            ev_u64(destination_count),
                            Ghost(Ev::Text(level@)),
                            Ghost(Ev::U64(0)),
                        ),
                        Ghost(acc),
                        Ghost(start),
                        Ghost(res_no_destinations(r, level@)),
                    );
                    proof {
                        acc = acc.push(res_no_destinations(r, level@));
                    }
                }
            }
        },
        None => {},
    }
    assert(acc =~= resilience_checks(r));
}

fn evaluate_performance(resource: &AwsResource, findings: &mut Vec<InventoryFinding>)
    ensures
        extends(old(findings)@, final(findings)@, *resource, performance_checks(*resource)),
{
    let ghost r = *resource;
    let ghost start = findings@;
    let ghost mut acc: Seq<FindingSpec> = Seq::empty();
    proof {
        lemma_extends_start(start, r);
    }
    let id = resource.resource_id.as_str();
    let tracing_enabled = data_bool(&resource.resource_data, "tracing_enabled");
    match tracing_enabled {
        Some(false) => {
            emit(
                findings,
                resource,
                Pillar::Performance,
                REASON_PERF_TRACING_DISABLED,
                Severity::Low,
                concat3(
                    "State machine ",
                    id,
                    " has X-Ray tracing disabled; latency bottlenecks across its downstream calls cannot be located",
                ),
                obj1("tracing_enabled", ev_bool(false), Ghost(Ev::Bool(false))),
                Ghost(acc),
                Ghost(start),
                Ghost(perf_tracing_disabled(r)),
            );
            proof {
                acc = acc.push(perf_tracing_disabled(r));
            }
        },
        Some(true) => {},
        None => {
            emit(
                findings,
                resource,
                Pillar::Performance,
                REASON_DATA_GAP_TRACING,
                Severity::Low,
                concat3(
                    "Tracing configuration for state machine ",
                    id,
                    " is not collected yet; the performance pillar cannot be fully assessed",
                ),
                obj1("tracing_enabled_collected", ev_bool(false), Ghost(Ev::Bool(false))),
                Ghost(acc),
                Ghost(start),
                Ghost(perf_tracing_gap(r)),
            );
            proof {
                acc = acc.push(perf_tracing_gap(r));
            }
        },
    }
    if is_text(&machine_type(resource), "EXPRESS") && is_text(&logging_level(resource), "ALL") {
        emit(
            findings,
            resource,
            Pillar::Performance,
            REASON_PERF_EXPRESS_ALL_LOGGING,
            Severity::Low,
            concat3(
                "EXPRESS state machine ",
                id,
                " logs at ALL level; per-state-transition log writes add latency on the hot path it was chosen for",
            ),
            obj2(
                "state_machine_type",
                ev_text("EXPRESS"),
                "logging_level",
                ev_text("ALL"),
                Ghost(Ev::Text("EXPRESS"@)),
                Ghost(Ev::Text("ALL"@)),
            ),
            Ghost(acc),
            Ghost(start),
            Ghost(perf_express_all(r)),
        );
        proof {
            acc = acc.push(perf_express_all(r));
        }
    }
    assert(acc =~= performance_checks(r));
}

fn evaluate_scalability(resource: &AwsResource, findings: &mut Vec<InventoryFinding>)
    ensures
        extends(old(findings)@, final(findings)@, *resource, scalability_checks(*resource)),
{
    let ghost r = *resource;
    let ghost start = findings@;
    let ghost mut acc: Seq<FindingSpec> = Seq::empty();
    proof {
        lemma_extends_start(start, r);
    }
    let id = resource.resource_id.as_str();
    if is_text(&logging_level(resource), "ALL") && data_bool(
        &resource.resource_data,
        "logging_include_execution_data",
    ) == Some(true) {
        emit(
            findings,
            resource,
            Pillar::Scalability,
            REASON_SCALE_FULL_EXECUTION_LOGGING,
            Severity::Low,
            concat3(
                "State machine ",
                id,
                " logs at ALL level with execution data included; log volume scales linearly with executions and CloudWatch Logs ingestion quotas become the scaling ceiling",
            ),
            obj2(
                "logging_level",
                ev_text("ALL"),
                "logging_include_execution_data",
                ev_bool(true),
                Ghost(Ev::Text("ALL"@)),
                Ghost(Ev::Bool(true)),
            ),
            Ghost(acc),
            Ghost(start),
            Ghost(scale_full_logging(r)),
        );
        proof {
            acc = acc.push(scale_full_logging(r));
        }
    }
    if machine_type(resource).is_none() {
        emit(
            findings,
            resource,
            Pillar::Scalability,
            REASON_DATA_GAP_MACHINE_TYPE,
            Severity::Low,
            concat3(
                "Workflow type for state machine ",
                id,
                " is not collected yet; throughput characteristics cannot be assessed",
            ),
            obj1("state_machine_type_collected", ev_bool(false), Ghost(Ev::Bool(false))),
            Ghost(acc),
            Ghost(start),
            Ghost(scale_type_gap(r)),
        );
        proof {
            acc = acc.push(scale_type_gap(r));
        }
    }
    assert(acc =~= scalability_checks(r));
}

fn evaluate_disaster_recovery(resource: &AwsResource, findings: &mut Vec<InventoryFinding>)
    ensures
        extends(old(findings)@, final(findings)@, *resource, disaster_recovery_checks(*resource)),
{
    let ghost r = *resource;
    let ghost start = findings@;
    let ghost mut acc: Seq<FindingSpec> = Seq::empty();
    proof {
        lemma_extends_start(start, r);
    }
    let id = resource.resource_id.as_str();
    match logging_level(resource) {
        Some(l) => {
            if str_eq(l.as_str(), "OFF") {
                emit(
                    findings,
                    resource,
                    Pillar::DisasterRecovery,
                    REASON_DR_LOGGING_OFF,
                    Severity::Medium,
                    concat3(
                        "State machine ",
                        id,
                        " has execution logging OFF; after an outage there is no durable execution record to identify and replay lost work",
                    ),
                    obj1("logging_level", ev_text("OFF"), Ghost(Ev::Text("OFF"@))),
                    Ghost(acc),
                    Ghost(start),
                    Ghost(dr_logging_off(r)),
                );
                proof {
                    acc = acc.push(dr_logging_off(r));
                }
            }
        },
        None => {
            emit(
                findings,
                resource,
                Pillar::DisasterRecovery,
                REASON_DATA_GAP_LOGGING,
                Severity::Low,
                concat3(
                    "Logging configuration for state machine ",
                    id,
                    " is not collected yet; the disaster-recovery pillar cannot be fully assessed",
                ),
                obj1("logging_level_collected", ev_bool(false), Ghost(Ev::Bool(false))),
                Ghost(acc),
                Ghost(start),
                Ghost(dr_logging_gap(r)),
            );
            proof {
                acc = acc.push(dr_logging_gap(r));
            }
        },
    }
    assert(acc =~= disaster_recovery_checks(r));
}

fn evaluate_operational_excellence(resource: &AwsResource, findings: &mut Vec<InventoryFinding>)
    ensures
        extends(
            old(findings)@,
            final(findings)@,
            *resource,
            operational_excellence_checks(*resource),
        ),
{
    let ghost r = *resource;
    let ghost start = findings@;
    let ghost mut acc: Seq<FindingSpec> = Seq::empty();
    proof {
        lemma_extends_start(start, r);
    }
    let id = resource.resource_id.as_str();
    if !has_any_tag(&resource.tags, &OWNER_TAG_KEYS) {
        emit(
            findings,
            resource,
            Pillar::OperationalExcellence,
            REASON_OPEX_NO_OWNER_TAG,
            Severity::Medium,
            concat3(
                "State machine ",
                id,
                " carries no owner or team tag; findings and incidents for it cannot be routed to an owner",
            ),
            obj2(
                "tags",
                ev_copy(&resource.tags),
                "accepted_tag_keys",
                ev_texts(&OWNER_TAG_KEYS),
                Ghost(Ev::Copy(r.tags)),
                Ghost(Ev::Texts(owner_keys())),
            ),
            Ghost(acc),
            Ghost(start),
            Ghost(opex_no_owner(r)),
        );
        proof {
            acc = acc.push(opex_no_owner(r));
        }
    }
    assert(acc =~= operational_excellence_checks(r));
}

proof fn lemma_checks_about(r: AwsResource, pillar: Pillar)
    ensures
        all_about(checks(r, pillar), pillar),
{
    match pillar {
        Pillar::Cost => {
            lemma_about_concat(
                only_if(r.tags.spec_object_empty_or_absent(), cost_no_tags(r)),
                only_if(status_of(r) == Some("DELETING"@), cost_deleting(r)),
                pillar,
            );
            lemma_about_concat(
                only_if(r.tags.spec_object_empty_or_absent(), cost_no_tags(r)) + only_if(
                    status_of(r) == Some("DELETING"@),
                    cost_deleting(r),
                ),
                only_if(
                    type_of(r) == Some("EXPRESS"@) && level_of(r) == Some("ALL"@) && include_data_of(r) == Some(
                        true,
                    ),
                    cost_express_logging(r),
                ),
                pillar,
            );
        },
        Pillar::Security => {
            let a = only_if(
                match role_of(r) {
                    Some(x) => x.len() == 0,
                    None => true,
                },
                sec_no_role(r),
            );
            let b = only_if(level_of(r) == Some("OFF"@), sec_logging_off(r));
            let c = only_if(level_of(r) is None, sec_logging_gap(r));
            let d = only_if(tracing_of(r) == Some(false), sec_tracing_disabled(r));
            let e = only_if(tracing_of(r) is None, sec_tracing_gap(r));
            lemma_about_concat(a, b, pillar);
            lemma_about_concat(a + b, c, pillar);
            lemma_about_concat(a + b + c, d, pillar);
            lemma_about_concat(a + b + c + d, e, pillar);
        },
        Pillar::Resilience => {
            let a = match status_of(r) {
                Some(s) => only_if(s != "ACTIVE"@, res_not_active(r, s)),
                None => seq![res_status_gap(r)],
            };
            let b = match level_of(r) {
                Some(l) => only_if(l != "OFF"@ && destinations_of(r) == 0, res_no_destinations(r, l)),
                None => Seq::empty(),
            };
            lemma_about_concat(a, b, pillar);
        },
        Pillar::Performance => {
            let a = only_if(tracing_of(r) == Some(false), perf_tracing_disabled(r));
            let b = only_if(tracing_of(r) is None, perf_tracing_gap(r));
            let c = only_if(type_of(r) == Some("EXPRESS"@) && level_of(r) == Some("ALL"@), perf_express_all(r));
            lemma_about_concat(a, b, pillar);
            lemma_about_concat(a + b, c, pillar);
        },
        Pillar::Scalability => {
            let a = only_if(level_of(r) == Some("ALL"@) && include_data_of(r) == Some(true), scale_full_logging(r));
            let b = only_if(type_of(r) is None, scale_type_gap(r));
            lemma_about_concat(a, b, pillar);
        },
        Pillar::DisasterRecovery => {
            let a = only_if(level_of(r) == Some("OFF"@), dr_logging_off(r));
            let b = only_if(level_of(r) is None, dr_logging_gap(r));
            lemma_about_concat(a, b, pillar);
        },
        Pillar::OperationalExcellence => {},
    }
}

/// The Step Functions rules.
pub struct StepFunctionsRules;

impl InventoryRules for StepFunctionsRules {
    open spec fn covers(r: AwsResource) -> bool {
        r.resource_type@ == RESOURCE_TYPE@
    }

    open spec fn spec_stale_code() -> Seq<char> {
        REASON_INV_STALE_DATA@
    }

    open spec fn checks(&self, i: int, r: AwsResource, pillar: Pillar, now: Timestamp) -> Seq<FindingSpec> {
        checks(r, pillar)
    }

    fn covers_row(resource: &AwsResource) -> (b: bool) {
        str_eq(resource.resource_type.as_str(), RESOURCE_TYPE)
    }

    fn stale_code() -> (r: &'static str) {
        REASON_INV_STALE_DATA
    }

    open spec fn serves(&self, i: int) -> bool {
        true
    }

    proof fn lemma_checks_pillar(&self, i: int, r: AwsResource, pillar: Pillar, now: Timestamp) {
        lemma_checks_about(r, pillar);
    }

    proof fn lemma_checks_bound(&self, i: int, r: AwsResource, pillar: Pillar, now: Timestamp) {
    }

    fn evaluate_resource(
        &self,
        i: usize,
        resource: &AwsResource,
        pillar: Pillar,
        now: &Timestamp,
        findings: &mut Vec<InventoryFinding>,
    ) {
        match pillar {
            Pillar::Cost => evaluate_cost(resource, findings),
            Pillar::Security => evaluate_security(resource, findings),
            Pillar::Resilience => evaluate_resilience(resource, findings),
            Pillar::Performance => evaluate_performance(resource, findings),
            Pillar::Scalability => evaluate_scalability(resource, findings),
            Pillar::DisasterRecovery => evaluate_disaster_recovery(resource, findings),
            Pillar::OperationalExcellence => evaluate_operational_excellence(resource, findings),
        }
    }
}

/// Evaluate every Step Functions state machine in the fleet for one pillar.
/// Rows whose `resource_type` is not `StepFunction` are skipped and not
/// counted.
pub fn evaluate_stepfunctions_fleet(
    resources: &[AwsResource],
    pillar: Pillar,
    now: Timestamp,
) -> (report: PillarReport)
    requires
        fleet_penalty(StepFunctionsRules, resources@, pillar, now) <= i32::MAX,
    ensures
        report_holds(StepFunctionsRules, report, resources@, pillar, now),
{
    evaluate_fleet(&StepFunctionsRules, resources, pillar, now)
}

} // verus!
