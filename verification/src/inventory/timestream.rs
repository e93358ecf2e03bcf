//! Deterministic Timestream table inventory evaluators for the cost,
//! resilience, and security pillars.
use vstd::prelude::*;
use crate::inventory::fleet::{evaluate_fleet, fleet_penalty, report_holds, InventoryRules};
use crate::inventory::types::{
    cost_allocation_keys, data_bool, data_flag, data_i64, data_int, data_str, data_text, emit, ev_bool,
    ev_copy, ev_i64, ev_opt_copy, ev_text, extends, finding, has_any_tag, has_tag, lemma_extends_start,
    obj1, obj2, only_if, opt_copy, AwsResource, Ev, FindingSpec, InventoryFinding, Pillar,
    PillarReport, Severity, COST_ALLOCATION_TAG_KEYS,
};
use crate::json::JsonValue;
use crate::text::{concat3, concat5, i64_decimal, signed_decimal, str_eq, trim, trimmed};
use crate::time::Timestamp;

verus! {

/// Only rows of this resource type are evaluated.
pub const RESOURCE_TYPE: &'static str = "TimestreamTable";

/// Memory-store retention beyond this many hours is flagged as a cost.
pub const RECOMMENDED_MAX_MEMORY_HOURS: i64 = 24;

// Reason codes are the stable contract for findings; never reuse or rename.
pub const REASON_COST_NO_TAGS: &'static str = "TIMESTREAM_COST_NO_TAGS";
pub const REASON_COST_LONG_MEMORY_RETENTION: &'static str = "TIMESTREAM_COST_LONG_MEMORY_RETENTION";
pub const REASON_RES_TABLE_NOT_ACTIVE: &'static str = "TIMESTREAM_RES_TABLE_NOT_ACTIVE";
pub const REASON_RES_MAGNETIC_STORE_DISABLED: &'static str = "TIMESTREAM_RES_MAGNETIC_STORE_DISABLED";
pub const REASON_SEC_NO_CUSTOMER_KMS: &'static str = "TIMESTREAM_SEC_NO_CUSTOMER_KMS";
pub const REASON_INV_STALE_DATA: &'static str = "TIMESTREAM_INV_STALE_DATA";

pub open spec fn cost_no_tags(r: AwsResource) -> FindingSpec {
    finding(
        Pillar::Cost,
        REASON_COST_NO_TAGS@,
        Severity::Medium,
        "Timestream table "@ + r.resource_id@ + " has no cost allocation tags"@,
        seq![("tags"@, Ev::Copy(r.tags))],
    )
}

pub open spec fn cost_long_retention(r: AwsResource, hours: i64) -> FindingSpec {
    finding(
        Pillar::Cost,
        REASON_COST_LONG_MEMORY_RETENTION@,
        Severity::Medium,
        "Timestream table "@ + r.resource_id@ + " keeps "@ + signed_decimal(hours as int)
            + " hours in memory store; long memory retention can increase hot-tier cost"@,
        seq![
            ("memory_retention_hours"@, Ev::I64(hours)),
            ("recommended_max_hours"@, Ev::I64(RECOMMENDED_MAX_MEMORY_HOURS)),
        ],
    )
}

/// Cost: tables without a cost allocation tag; tables keeping more than a
/// day in the memory store.
pub open spec fn cost_checks(r: AwsResource) -> Seq<FindingSpec> {
    only_if(!has_tag(r.tags, cost_allocation_keys()), cost_no_tags(r)) + match data_int(
        r.resource_data,
        "memory_retention_hours"@,
    ) {
        Some(h) => only_if(h > RECOMMENDED_MAX_MEMORY_HOURS, cost_long_retention(r, h)),
        None => Seq::empty(),
    }
}

pub open spec fn res_not_active(r: AwsResource, status: Seq<char>) -> FindingSpec {
    finding(
        Pillar::Resilience,
        REASON_RES_TABLE_NOT_ACTIVE@,
        Severity::High,
        "Timestream table "@ + r.resource_id@ + " is in "@ + status + " state, not ACTIVE"@,
        seq![("table_status"@, Ev::Text(status))],
    )
}

pub open spec fn res_status_gap(r: AwsResource) -> FindingSpec {
    finding(
        Pillar::Resilience,
        REASON_RES_TABLE_NOT_ACTIVE@,
        Severity::Medium,
        "Timestream table "@ + r.resource_id@ + " status is not collected"@,
        seq![("table_status"@, Ev::Null)],
    )
}

pub open spec fn res_magnetic_disabled(r: AwsResource) -> FindingSpec {
    finding(
        Pillar::Resilience,
        REASON_RES_MAGNETIC_STORE_DISABLED@,
        Severity::Medium,
        "Timestream table "@ + r.resource_id@
            + " has magnetic store writes disabled; late-arriving records can be rejected"@,
        seq![("magnetic_store_writes_enabled"@, Ev::Bool(false))],
    )
}

/// Resilience: tables whose status is not ACTIVE (High) or not collected
/// (Medium); tables with magnetic store writes disabled.
pub open spec fn resilience_checks(r: AwsResource) -> Seq<FindingSpec> {
    (match data_text(r.resource_data, "table_status"@) {
        Some(s) => only_if(s != "ACTIVE"@, res_not_active(r, s)),
        None => seq![res_status_gap(r)],
    }) + only_if(
        data_flag(r.resource_data, "magnetic_store_writes_enabled"@) == Some(false),
        res_magnetic_disabled(r),
    )
}

pub open spec fn sec_no_kms(r: AwsResource) -> FindingSpec {
    finding(
        Pillar::Security,
        REASON_SEC_NO_CUSTOMER_KMS@,
        Severity::Medium,
        "Timestream table "@ + r.resource_id@
            + " has no customer managed KMS key recorded for the database"@,
        seq![("kms_key_id"@, opt_copy(r.resource_data, "kms_key_id"@))],
    )
}

/// Security: tables whose KMS key is absent, not a string, or blank.
pub open spec fn security_checks(r: AwsResource) -> Seq<FindingSpec> {
    only_if(
        match data_text(r.resource_data, "kms_key_id"@) {
            Some(k) => trimmed(k).len() == 0,
            None => true,
        },
        sec_no_kms(r),
    )
}

/// The pillar findings for one table; pillars without checks for this
/// service yet produce none.
pub open spec fn checks(r: AwsResource, pillar: Pillar) -> Seq<FindingSpec> {
    match pillar {
        Pillar::Cost => cost_checks(r),
        Pillar::Resilience => resilience_checks(r),
        Pillar::Security => security_checks(r),
        _ => Seq::empty(),
    }
}

fn evaluate_cost(resource: &AwsResource, findings: &mut Vec<InventoryFinding>)
    ensures
        extends(old(findings)@, final(findings)@, *resource, cost_checks(*resource)),
{
    let ghost r = *resource;
    let ghost start = findings@;
    let ghost mut acc: Seq<FindingSpec> = Seq::empty();
    proof {
        lemma_extends_start(start, r);
    }
    let id = resource.resource_id.as_str();
    if !has_any_tag(&resource.tags, &COST_ALLOCATION_TAG_KEYS) {
        emit(
            findings,
            resource,
            Pillar::Cost,
            REASON_COST_NO_TAGS,
            Severity::Medium,
            concat3("Timestream table ", id, " has no cost allocation tags"),
            obj1("tags", ev_copy(&resource.tags), Ghost(Ev::Copy(r.tags))),
            Ghost(acc),
            Ghost(start),
            Ghost(cost_no_tags(r)),
        );
        proof {
            acc = acc.push(cost_no_tags(r));
        }
    }
    if let Some(hours) = data_i64(&resource.resource_data, "memory_retention_hours") {
        if hours > RECOMMENDED_MAX_MEMORY_HOURS {
            let shown = i64_decimal(hours);
            emit(
                findings,
                resource,
                Pillar::Cost,
                REASON_COST_LONG_MEMORY_RETENTION,
                Severity::Medium,
                concat5(
                    "Timestream table ",
                    id,
                    " keeps ",
                    shown.as_str(),
                    " hours in memory store; long memory retention can increase hot-tier cost",
                ),
                obj2(
                    "memory_retention_hours",
                    ev_i64(hours),
                    "recommended_max_hours",
                    ev_i64(RECOMMENDED_MAX_MEMORY_HOURS),
                    Ghost(Ev::I64(hours)),
                    Ghost(Ev::I64(RECOMMENDED_MAX_MEMORY_HOURS)),
                ),
                Ghost(acc),
                Ghost(start),
                Ghost(cost_long_retention(r, hours)),
            );
            proof {
                acc = acc.push(cost_long_retention(r, hours));
            }
        }
    }
    assert(acc =~= cost_checks(r));
}

fn evaluate_resilience(resource: &AwsResource, findings: &mut Vec<InventoryFinding>)
    ensures
        extends(old(findings)@, final(findings)@, *resource, resilience_checks(*resource)),
{
    let ghost r = *resource;
    let ghost start = findings@;
    let ghost mut acc: Seq<FindingSpec> = Seq::empty();
    proof {
        lemma_extends_start(start, r);
    }
    let id = resource.resource_id.as_str();
    match data_str(&resource.resource_data, "table_status") {
        Some(status) => {
            if !str_eq(status.as_str(), "ACTIVE") {
                emit(
                    findings,
                    resource,
                    Pillar::Resilience,
                    REASON_RES_TABLE_NOT_ACTIVE,
                    Severity::High,
                    concat5("Timestream table ", id, " is in ", status.as_str(), " state, not ACTIVE"),
                    obj1("table_status", ev_text(status.as_str()), Ghost(Ev::Text(status@))),
                    Ghost(acc),
                    Ghost(start),
                    Ghost(res_not_active(r, status@)),
                );
                proof {
                    acc = acc.push(res_not_active(r, status@));
                }
            }
        },
        None => {
            emit(
                findings,
                resource,
                Pillar::Resilience,
                REASON_RES_TABLE_NOT_ACTIVE,
                Severity::Medium,
                concat3("Timestream table ", id, " status is not collected"),
                obj1("table_status", JsonValue::Null, Ghost(Ev::Null)),
                Ghost(acc),
                Ghost(start),
                Ghost(res_status_gap(r)),
            );
            proof {
                acc = acc.push(res_status_gap(r));
            }
        },
    }
    if data_bool(&resource.resource_data, "magnetic_store_writes_enabled") == Some(false) {
        emit(
            findings,
            resource,
            Pillar::Resilience,
            REASON_RES_MAGNETIC_STORE_DISABLED,
            Severity::Medium,
            concat3(
                "Timestream table ",
                id,
                " has magnetic store writes disabled; late-arriving records can be rejected",
            ),
            obj1("magnetic_store_writes_enabled", ev_bool(false), Ghost(Ev::Bool(false))),
            Ghost(acc),
            Ghost(start),
            Ghost(res_magnetic_disabled(r)),
        );
        proof {
            acc = acc.push(res_magnetic_disabled(r));
        }
    }
    assert(acc =~= resilience_checks(r));
}

fn evaluate_security(resource: &AwsResource, findings: &mut Vec<InventoryFinding>)
    ensures
        extends(old(findings)@, final(findings)@, *resource, security_checks(*resource)),
{
    let ghost r = *resource;
    let ghost start = findings@;
    let ghost mut acc: Seq<FindingSpec> = Seq::empty();
    proof {
        lemma_extends_start(start, r);
    }
    let missing = match data_str(&resource.resource_data, "kms_key_id") {
        Some(k) => trim(k.as_str()).unicode_len() == 0,
        None => true,
    };
    if missing {
        emit(
            findings,
            resource,
            Pillar::Security,
            REASON_SEC_NO_CUSTOMER_KMS,
            Severity::Medium,
            concat3(
                "Timestream table ",
                resource.resource_id.as_str(),
                " has no customer managed KMS key recorded for the database",
            ),
            obj1(
                "kms_key_id",
                ev_opt_copy(&resource.resource_data, "kms_key_id"),
                Ghost(opt_copy(r.resource_data, "kms_key_id"@)),
            ),
            Ghost(acc),
            Ghost(start),
            Ghost(sec_no_kms(r)),
        );
        proof {
            acc = acc.push(sec_no_kms(r));
        }
    }
    assert(acc =~= security_checks(r));
}

/// The Timestream rules.
pub struct TimestreamRules;

impl InventoryRules for TimestreamRules {
    open spec fn covers(r: AwsResource) -> bool {
        r.resource_type@ == RESOURCE_TYPE@
    }

    open spec fn spec_stale_code() -> Seq<char> {
        REASON_INV_STALE_DATA@
    }

    open spec fn checks(&self, i: int, r: AwsResource, pillar: Pillar, now: Timestamp) -> Seq<FindingSpec> {
        checks(r, pillar)
    }

    fn covers_row(resource: &AwsResource) -> (b: bool) {
        str_eq(resource.resource_type.as_str(), RESOURCE_TYPE)
    }

    fn stale_code() -> (r: &'static str) {
        REASON_INV_STALE_DATA
    }

    open spec fn serves(&self, i: int) -> bool {
        true
    }

    proof fn lemma_checks_pillar(&self, i: int, r: AwsResource, pillar: Pillar, now: Timestamp) {
    }

    proof fn lemma_checks_bound(&self, i: int, r: AwsResource, pillar: Pillar, now: Timestamp) {
    }

    fn evaluate_resource(
        &self,
        i: usize,
        resource: &AwsResource,
        pillar: Pillar,
        now: &Timestamp,
        findings: &mut Vec<InventoryFinding>,
    ) {
        match pillar {
            Pillar::Cost => evaluate_cost(resource, findings),
            Pillar::Resilience => evaluate_resilience(resource, findings),
            Pillar::Security => evaluate_security(resource, findings),
            _ => {
                proof {
                    lemma_extends_start(findings@, *resource);
                }
            },
        }
    }
}

/// Evaluate every Timestream table in the fleet for one pillar. Rows of other
/// resource types are skipped and not counted.
pub fn evaluate_timestream_fleet(resources: &[AwsResource], pillar: Pillar, now: Timestamp) -> (report: PillarReport)
    requires
        fleet_penalty(TimestreamRules, resources@, pillar, now) <= i32::MAX,
    ensures
        report_holds(TimestreamRules, report, resources@, pillar, now),
{
    evaluate_fleet(&TimestreamRules, resources, pillar, now)
}

} // verus!
