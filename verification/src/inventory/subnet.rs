//! Deterministic subnet inventory evaluators for the cost, security, and
//! resilience pillars.
//!
//! Evaluates fields persisted by the subnet collector: subnet_id, cidr_block,
//! vpc_id, availability_zone, availability_zone_id, state. Tags are collected
//! for subnets. Per-subnet security posture (for example
//! map_public_ip_on_launch) is not collected yet, so the security pillar
//! reports an honest data-gap finding instead of guessing.
use vstd::prelude::*;
use crate::inventory::fleet::{evaluate_fleet, fleet_penalty, report_holds, InventoryRules};
use crate::inventory::types::{
    data_str, data_text, emit, ev_bool, ev_copy, ev_text, extends, finding, lemma_extends_start, obj1,
    only_if, AwsResource, Ev, FindingSpec, InventoryFinding, Pillar, PillarReport, Severity,
};
use crate::text::{concat3, concat5, str_eq};
use crate::time::Timestamp;

verus! {

/// Only rows of this resource type are evaluated.
pub const RESOURCE_TYPE: &'static str = "Subnet";

// Reason codes are the stable contract for findings; never reuse or rename.
pub const REASON_COST_NO_TAGS: &'static str = "SUBNET_COST_NO_TAGS";
pub const REASON_RES_STATE_NOT_AVAILABLE: &'static str = "SUBNET_RES_STATE_NOT_AVAILABLE";
pub const REASON_RES_AZ_DATA_NOT_COLLECTED: &'static str = "SUBNET_RES_AZ_DATA_NOT_COLLECTED";
pub const REASON_SEC_POSTURE_DATA_NOT_COLLECTED: &'static str = "SUBNET_SEC_POSTURE_DATA_NOT_COLLECTED";
pub const REASON_INV_STALE_DATA: &'static str = "SUBNET_INV_STALE_DATA";

pub open spec fn cost_no_tags(r: AwsResource) -> FindingSpec {
    finding(
        Pillar::Cost,
        REASON_COST_NO_TAGS@,
        Severity::Medium,
        "Subnet "@ + r.resource_id@
            + " has no tags recorded (untagged resource or tag collection gap); cost allocation cannot be assessed"@,
        seq![("tags"@, Ev::Copy(r.tags))],
    )
}

/// Cost: subnets without tags.
pub open spec fn cost_checks(r: AwsResource) -> Seq<FindingSpec> {
    only_if(r.tags.spec_object_empty_or_absent(), cost_no_tags(r))
}

pub open spec fn sec_posture_gap(r: AwsResource) -> FindingSpec {
    finding(
        Pillar::Security,
        REASON_SEC_POSTURE_DATA_NOT_COLLECTED@,
        Severity::Medium,
        "Security posture for subnet "@ + r.resource_id@
            + " is not collected yet (no map_public_ip_on_launch data); security pillar cannot be fully assessed"@,
        seq![("security_posture_fields_collected"@, Ev::Bool(false))],
    )
}

/// Security: no posture fields are collected, so every subnet reports the gap.
pub open spec fn security_checks(r: AwsResource) -> Seq<FindingSpec> {
    seq![sec_posture_gap(r)]
}

pub open spec fn res_not_available(r: AwsResource, state: Seq<char>) -> FindingSpec {
    finding(
        Pillar::Resilience,
        REASON_RES_STATE_NOT_AVAILABLE@,
        Severity::High,
        "Subnet "@ + r.resource_id@ + " is in state '"@ + state
            + "' instead of 'available'; workloads in it may be unreachable"@,
        seq![("state"@, Ev::Text(state))],
    )
}

pub open spec fn res_az_gap(r: AwsResource) -> FindingSpec {
    finding(
        Pillar::Resilience,
        REASON_RES_AZ_DATA_NOT_COLLECTED@,
        Severity::Medium,
        "Availability zone for subnet "@ + r.resource_id@
            + " is not collected yet; AZ spread cannot be assessed"@,
        seq![("availability_zone_collected"@, Ev::Bool(false))],
    )
}

/// Resilience: subnets in a collected state other than `available`, and
/// subnets whose availability zone is not collected.
pub open spec fn resilience_checks(r: AwsResource) -> Seq<FindingSpec> {
    (match data_text(r.resource_data, "state"@) {
        Some(state) => only_if(state != "available"@, res_not_available(r, state)),
        None => Seq::empty(),
    }) + only_if(data_text(r.resource_data, "availability_zone"@) is None, res_az_gap(r))
}

/// The pillar findings for one subnet; pillars without checks for this
/// service yet produce none.
pub open spec fn checks(r: AwsResource, pillar: Pillar) -> Seq<FindingSpec> {
    match pillar {
        Pillar::Cost => cost_checks(r),
        Pillar::Security => security_checks(r),
        Pillar::Resilience => resilience_checks(r),
        _ => Seq::empty(),
    }
}

fn evaluate_cost(resource: &AwsResource, findings: &mut Vec<InventoryFinding>)
    ensures
        extends(old(findings)@, final(findings)@, *resource, cost_checks(*resource)),
{
    let ghost r = *resource;
    let ghost start = findings@;
    let ghost mut acc: Seq<FindingSpec> = Seq::empty();
    proof {
        lemma_extends_start(start, r);
    }
    if resource.tags.object_empty_or_absent() {
        emit(
            findings,
            resource,
            Pillar::Cost,
            REASON_COST_NO_TAGS,
            Severity::Medium,
            concat3(
                "Subnet ",
                resource.resource_id.as_str(),
                " has no tags recorded (untagged resource or tag collection gap); cost allocation cannot be assessed",
            ),
            obj1("tags", ev_copy(&resource.tags), Ghost(Ev::Copy(r.tags))),
            Ghost(acc),
            Ghost(start),
            Ghost(cost_no_tags(r)),
        );
        proof {
            acc = acc.push(cost_no_tags(r));
        }
    }
    assert(acc =~= cost_checks(r));
}

fn evaluate_security(resource: &AwsResource, findings: &mut Vec<InventoryFinding>)
    ensures
        extends(old(findings)@, final(findings)@, *resource, security_checks(*resource)),
{
    // The collector does not gather per-subnet security posture fields such
    // as map_public_ip_on_launch, so report the gap instead of guessing.
    let ghost r = *resource;
    let ghost start = findings@;
    let ghost acc: Seq<FindingSpec> = Seq::empty();
    proof {
        lemma_extends_start(start, r);
    }
    emit(
        findings,
        resource,
        Pillar::Security,
        REASON_SEC_POSTURE_DATA_NOT_COLLECTED,
        Severity::Medium,
        concat3(
            "Security posture for subnet ",
            resource.resource_id.as_str(),
            " is not collected yet (no map_public_ip_on_launch data); security pillar cannot be fully assessed",
        ),
        obj1("security_posture_fields_collected", ev_bool(false), Ghost(Ev::Bool(false))),
        Ghost(acc),
        Ghost(start),
        Ghost(sec_posture_gap(r)),
    );
    assert(acc.push(sec_posture_gap(r)) =~= security_checks(r));
}

fn evaluate_resilience(resource: &AwsResource, findings: &mut Vec<InventoryFinding>)
    ensures
        extends(old(findings)@, final(findings)@, *resource, resilience_checks(*resource)),
{
    let ghost r = *resource;
    let ghost start = findings@;
    let ghost mut acc: Seq<FindingSpec> = Seq::empty();
    proof {
        lemma_extends_start(start, r);
    }
    if let Some(state) = data_str(&resource.resource_data, "state") {
        if !str_eq(state.as_str(), "available") {
            emit(
                findings,
                resource,
                Pillar::Resilience,
                REASON_RES_STATE_NOT_AVAILABLE,
                Severity::High,
                concat5(
                    "Subnet ",
                    resource.resource_id.as_str(),
                    " is in state '",
                    state.as_str(),
                    "' instead of 'available'; workloads in it may be unreachable",
                ),
                obj1("state", ev_text(state.as_str()), Ghost(Ev::Text(state@))),
                Ghost(acc),
                Ghost(start),
                Ghost(res_not_available(r, state@)),
            );
            proof {
                acc = acc.push(res_not_available(r, state@));
            }
        }
    }
    if data_str(&resource.resource_data, "availability_zone").is_none() {
        emit(
            findings,
            resource,
            Pillar::Resilience,
            REASON_RES_AZ_DATA_NOT_COLLECTED,
            Severity::Medium,
            concat3(
                "Availability zone for subnet ",
                resource.resource_id.as_str(),
                " is not collected yet; AZ spread cannot be assessed",
            ),
            obj1("availability_zone_collected", ev_bool(false), Ghost(Ev::Bool(false))),
            Ghost(acc),
            Ghost(start),
            Ghost(res_az_gap(r)),
        );
        proof {
            acc = acc.push(res_az_gap(r));
        }
    }
    assert(acc =~= resilience_checks(r));
}

/// Whether a row is a subnet at all; the others are skipped.
fn is_subnet(resource: &AwsResource) -> (b: bool)
    ensures
        b == (resource.resource_type@ == RESOURCE_TYPE@),
{
    str_eq(resource.resource_type.as_str(), RESOURCE_TYPE)
}

/// The subnet rules.
pub struct SubnetRules;

impl InventoryRules for SubnetRules {
    open spec fn covers(r: AwsResource) -> bool {
        r.resource_type@ == RESOURCE_TYPE@
    }

    open spec fn spec_stale_code() -> Seq<char> {
        REASON_INV_STALE_DATA@
    }

    open spec fn checks(&self, i: int, r: AwsResource, pillar: Pillar, now: Timestamp) -> Seq<FindingSpec> {
        checks(r, pillar)
    }

    fn covers_row(resource: &AwsResource) -> (b: bool) {
        is_subnet(resource)
    }

    fn stale_code() -> (r: &'static str) {
        REASON_INV_STALE_DATA
    }

    open spec fn serves(&self, i: int) -> bool {
        true
    }

    proof fn lemma_checks_pillar(&self, i: int, r: AwsResource, pillar: Pillar, now: Timestamp) {
    }

    proof fn lemma_checks_bound(&self, i: int, r: AwsResource, pillar: Pillar, now: Timestamp) {
    }

    fn evaluate_resource(
        &self,
        i: usize,
        resource: &AwsResource,
        pillar: Pillar,
        now: &Timestamp,
        findings: &mut Vec<InventoryFinding>,
    ) {
        match pillar {
            Pillar::Cost => evaluate_cost(resource, findings),
            Pillar::Security => evaluate_security(resource, findings),
            Pillar::Resilience => evaluate_resilience(resource, findings),
            // Pillars without checks for this service yet produce no findings.
            _ => {
                proof {
                    lemma_extends_start(findings@, *resource);
                }
            },
        }
    }
}

/// Evaluate every subnet in the fleet for one pillar. Rows whose
/// resource_type is not "Subnet" are skipped and not counted.
pub fn evaluate_subnet_fleet(resources: &[AwsResource], pillar: Pillar, now: Timestamp) -> (report: PillarReport)
    requires
        fleet_penalty(SubnetRules, resources@, pillar, now) <= i32::MAX,
    ensures
        report_holds(SubnetRules, report, resources@, pillar, now),
{
    evaluate_fleet(&SubnetRules, resources, pillar, now)
}

} // verus!
