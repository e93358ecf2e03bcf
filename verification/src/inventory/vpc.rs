//! Deterministic VPC inventory evaluators for the cost, security, and
//! resilience pillars.
//!
//! Evaluates the VPC rows the collector persists: vpc_id, cidr_block, state,
//! is_default. Flow logs are not collected yet and are reported as an
//! explicit data gap. This evaluator is handed VPC rows only: it evaluates
//! and counts every row it is given.
use vstd::prelude::*;
use crate::inventory::fleet::{evaluate_fleet, fleet_penalty, report_holds, InventoryRules};
use crate::inventory::types::{
    data_flag, data_str, data_text, emit, ev_bool, ev_copy, ev_text, extends, finding,
    lemma_extends_start, obj1, only_if, AwsResource, Ev, FindingSpec, InventoryFinding, Pillar,
    PillarReport, Severity,
};
use crate::text::{concat3, concat5, str_eq};
use crate::time::Timestamp;
use crate::json::JsonValue;

verus! {

// Reason codes are the stable contract for findings; never reuse or rename.
pub const REASON_COST_NO_TAGS: &'static str = "VPC_COST_NO_TAGS";
pub const REASON_SEC_DEFAULT_VPC_PRESENT: &'static str = "VPC_SEC_DEFAULT_VPC_PRESENT";
pub const REASON_SEC_FLOW_LOGS_DATA_NOT_COLLECTED: &'static str = "VPC_SEC_FLOW_LOGS_DATA_NOT_COLLECTED";
pub const REASON_RES_NOT_AVAILABLE: &'static str = "VPC_RES_NOT_AVAILABLE";
pub const REASON_INV_STALE_DATA: &'static str = "VPC_INV_STALE_DATA";

pub open spec fn cost_no_tags(r: AwsResource) -> FindingSpec {
    finding(
        Pillar::Cost,
        REASON_COST_NO_TAGS@,
        Severity::Low,
        "VPC "@ + r.resource_id@
            + " has no tags recorded; attached billable resources (NAT gateways, endpoints) cannot be allocated"@,
        seq![("tags"@, Ev::Copy(r.tags))],
    )
}

/// Cost: VPCs without tags.
pub open spec fn cost_checks(r: AwsResource) -> Seq<FindingSpec> {
    only_if(r.tags.spec_object_empty_or_absent(), cost_no_tags(r))
}

pub open spec fn sec_default_vpc(r: AwsResource) -> FindingSpec {
    finding(
        Pillar::Security,
        REASON_SEC_DEFAULT_VPC_PRESENT@,
        Severity::Medium,
        "VPC "@ + r.resource_id@
            + " is the default VPC; default VPCs allow broad implicit networking and should not host workloads"@,
        seq![("is_default"@, Ev::Bool(true))],
    )
}

pub open spec fn sec_flow_logs_gap(r: AwsResource) -> FindingSpec {
    finding(
        Pillar::Security,
        REASON_SEC_FLOW_LOGS_DATA_NOT_COLLECTED@,
        Severity::Medium,
        "Flow log configuration for VPC "@ + r.resource_id@
            + " is not collected yet; network audit posture cannot be assessed"@,
        seq![("flow_logs_collected"@, Ev::Bool(false))],
    )
}

/// Security: the default VPC; VPCs whose row holds no flow_logs field.
pub open spec fn security_checks(r: AwsResource) -> Seq<FindingSpec> {
    only_if(data_flag(r.resource_data, "is_default"@) == Some(true), sec_default_vpc(r)) + only_if(
        r.resource_data.spec_get("flow_logs"@) is None,
        sec_flow_logs_gap(r),
    )
}

pub open spec fn res_not_available(r: AwsResource, state: Seq<char>) -> FindingSpec {
    finding(
        Pillar::Resilience,
        REASON_RES_NOT_AVAILABLE@,
        Severity::Medium,
        "VPC "@ + r.resource_id@ + " is in state '"@ + state + "'"@,
        seq![("state"@, Ev::Text(state))],
    )
}

/// Resilience: VPCs in a collected state other than `available`.
pub open spec fn resilience_checks(r: AwsResource) -> Seq<FindingSpec> {
    match data_text(r.resource_data, "state"@) {
        Some(s) => only_if(s != "available"@, res_not_available(r, s)),
        None => Seq::empty(),
    }
}

/// The pillar findings for one VPC; pillars without checks for this service
/// yet produce none.
pub open spec fn checks(r: AwsResource, pillar: Pillar) -> Seq<FindingSpec> {
    match pillar {
        Pillar::Cost => cost_checks(r),
        Pillar::Security => security_checks(r),
        Pillar::Resilience => resilience_checks(r),
        _ => Seq::empty(),
    }
}

fn evaluate_cost(resource: &AwsResource, findings: &mut Vec<InventoryFinding>)
    ensures
        extends(old(findings)@, final(findings)@, *resource, cost_checks(*resource)),
{
    let ghost r = *resource;
    let ghost start = findings@;
    let ghost mut acc: Seq<FindingSpec> = Seq::empty();
    proof {
        lemma_extends_start(start, r);
    }
    if resource.tags.object_empty_or_absent() {
        emit(
            findings,
            resource,
            Pillar::Cost,
            REASON_COST_NO_TAGS,
            Severity::Low,
            concat3(
                "VPC ",
                resource.resource_id.as_str(),
                " has no tags recorded; attached billable resources (NAT gateways, endpoints) cannot be allocated",
            ),
            obj1("tags", ev_copy(&resource.tags), Ghost(Ev::Copy(r.tags))),
            Ghost(acc),
            Ghost(start),
            Ghost(cost_no_tags(r)),
        );
        proof {
            acc = acc.push(cost_no_tags(r));
        }
    }
    assert(acc =~= cost_checks(r));
}

fn evaluate_security(resource: &AwsResource, findings: &mut Vec<InventoryFinding>)
    ensures
        extends(old(findings)@, final(findings)@, *resource, security_checks(*resource)),
{
    let ghost r = *resource;
    let ghost start = findings@;
    let ghost mut acc: Seq<FindingSpec> = Seq::empty();
    proof {
        lemma_extends_start(start, r);
    }
    let id = resource.resource_id.as_str();
    if crate::inventory::types::data_bool(&resource.resource_data, "is_default") == Some(true) {
        emit(
            findings,
            resource,
            Pillar::Security,
            REASON_SEC_DEFAULT_VPC_PRESENT,
            Severity::Medium,
            concat3(
                "VPC ",
                id,
                " is the default VPC; default VPCs allow broad implicit networking and should not host workloads",
            ),
            obj1("is_default", ev_bool(true), Ghost(Ev::Bool(true))),
            Ghost(acc),
            Ghost(start),
            Ghost(sec_default_vpc(r)),
        );
        proof {
            acc = acc.push(sec_default_vpc(r));
        }
    }
    if resource.resource_data.get("flow_logs").is_none() {
        emit(
            findings,
            resource,
            Pillar::Security,
            REASON_SEC_FLOW_LOGS_DATA_NOT_COLLECTED,
            Severity::Medium,
            concat3(
                "Flow log configuration for VPC ",
                id,
                " is not collected yet; network audit posture cannot be assessed",
            ),
            obj1("flow_logs_collected", ev_bool(false), Ghost(Ev::Bool(false))),
            Ghost(acc),
            Ghost(start),
            Ghost(sec_flow_logs_gap(r)),
        );
        proof {
            acc = acc.push(sec_flow_logs_gap(r));
        }
    }
    assert(acc =~= security_checks(r));
}

fn evaluate_resilience(resource: &AwsResource, findings: &mut Vec<InventoryFinding>)
    ensures
        extends(old(findings)@, final(findings)@, *resource, resilience_checks(*resource)),
{
    let ghost r = *resource;
    let ghost start = findings@;
    let ghost mut acc: Seq<FindingSpec> = Seq::empty();
    proof {
        lemma_extends_start(start, r);
    }
    if let Some(state) = data_str(&resource.resource_data, "state") {
        if !str_eq(state.as_str(), "available") {
            emit(
                findings,
                resource,
                Pillar::Resilience,
                REASON_RES_NOT_AVAILABLE,
                Severity::Medium,
                concat5("VPC ", resource.resource_id.as_str(), " is in state '", state.as_str(), "'"),
                obj1("state", ev_text(state.as_str()), Ghost(Ev::Text(state@))),
                Ghost(acc),
                Ghost(start),
                Ghost(res_not_available(r, state@)),
            );
            proof {
                acc = acc.push(res_not_available(r, state@));
            }
        }
    }
    assert(acc =~= resilience_checks(r));
}

/// The VPC rules: every row handed over is a VPC row.
pub struct VpcRules;

impl InventoryRules for VpcRules {
    open spec fn covers(r: AwsResource) -> bool {
        true
    }

    open spec fn spec_stale_code() -> Seq<char> {
        REASON_INV_STALE_DATA@
    }

    open spec fn checks(&self, i: int, r: AwsResource, pillar: Pillar, now: Timestamp) -> Seq<FindingSpec> {
        checks(r, pillar)
    }

    fn covers_row(resource: &AwsResource) -> (b: bool) {
        true
    }

    fn stale_code() -> (r: &'static str) {
        REASON_INV_STALE_DATA
    }

    open spec fn serves(&self, i: int) -> bool {
        true
    }

    proof fn lemma_checks_pillar(&self, i: int, r: AwsResource, pillar: Pillar, now: Timestamp) {
    }

    proof fn lemma_checks_bound(&self, i: int, r: AwsResource, pillar: Pillar, now: Timestamp) {
    }

    fn evaluate_resource(
        &self,
        i: usize,
        resource: &AwsResource,
        pillar: Pillar,
        now: &Timestamp,
        findings: &mut Vec<InventoryFinding>,
    ) {
        match pillar {
            Pillar::Cost => evaluate_cost(resource, findings),
            Pillar::Security => evaluate_security(resource, findings),
            Pillar::Resilience => evaluate_resilience(resource, findings),
            // Pillars without checks for this service yet produce no findings.
            _ => {
                proof {
                    lemma_extends_start(findings@, *resource);
                }
            },
        }
    }
}

/// Evaluate every VPC in the fleet for one pillar; every row is evaluated
/// and counted.
pub fn evaluate_vpc_fleet(resources: &[AwsResource], pillar: Pillar, now: Timestamp) -> (report: PillarReport)
    requires
        fleet_penalty(VpcRules, resources@, pillar, now) <= i32::MAX,
    ensures
        report_holds(VpcRules, report, resources@, pillar, now),
        report.resources_evaluated == resources@.len(),
{
    let report = evaluate_fleet(&VpcRules, resources, pillar, now);
    proof {
        lemma_every_row_counted(resources@);
    }
    report
}

/// The VPC evaluator counts every row.
proof fn lemma_every_row_counted(rs: Seq<AwsResource>)
    ensures
        crate::inventory::fleet::rows_covered::<VpcRules>(rs) == rs.len(),
    decreases rs.len(),
{
    if rs.len() > 0 {
        lemma_every_row_counted(rs.drop_last());
    }
}

/// The tags hold no key: they are an empty object, or no object at all.
pub open spec fn untagged(tags: JsonValue) -> bool {
    match tags {
        JsonValue::Object(f) => *f is Nil,
        _ => true,
    }
}

/// Cost findings go to untagged VPCs alone: for the Cost pillar a VPC yields
/// the `VPC_COST_NO_TAGS` finding (Low) exactly when its tags hold no key,
/// and a VPC whose tags hold a key yields no Cost finding at all.
pub proof fn lemma_cost_finding_iff_untagged(r: AwsResource)
    ensures
        (exists|k: int|
            0 <= k < checks(r, Pillar::Cost).len() && (#[trigger] checks(r, Pillar::Cost)[k]).code
                == "VPC_COST_NO_TAGS"@ && checks(r, Pillar::Cost)[k].severity == Severity::Low)
            <==> untagged(r.tags),
        !untagged(r.tags) ==> checks(r, Pillar::Cost).len() == 0,
        forall|k: int|
            0 <= k < checks(r, Pillar::Cost).len() ==> (#[trigger] checks(r, Pillar::Cost)[k]).code
                == "VPC_COST_NO_TAGS"@,
{
    reveal_strlit("VPC_COST_NO_TAGS");
    if untagged(r.tags) {
        assert(checks(r, Pillar::Cost)[0].code == "VPC_COST_NO_TAGS"@);
    }
}

} // verus!
