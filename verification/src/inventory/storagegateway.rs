//! Deterministic Storage Gateway inventory evaluators for the cost, security,
//! and resilience pillars.
//!
//! Evaluates fields persisted by the Storage Gateway collector: GatewayId,
//! GatewayName, GatewayARN, GatewayType, GatewayOperationalState. The
//! collector does not persist tags or security posture fields yet, so those
//! gaps are reported honestly instead of being guessed.
use vstd::prelude::*;
use crate::inventory::fleet::{evaluate_fleet, fleet_penalty, report_holds, InventoryRules};
use crate::inventory::types::{
    data_str, data_text, emit, ev_bool, ev_copy, ev_text, extends, finding, lemma_extends_start, obj1,
    only_if, AwsResource, Ev, FindingSpec, InventoryFinding, Pillar, PillarReport, Severity,
};
use crate::text::{ascii_lower, concat3, concat5, lower_eq, str_eq, trim, trimmed};
use crate::time::Timestamp;

verus! {

/// Only rows of this resource type are evaluated.
pub const RESOURCE_TYPE: &'static str = "StorageGateway";

// Reason codes are the stable contract for findings; never reuse or rename.
pub const REASON_COST_NO_TAGS: &'static str = "STORAGEGATEWAY_COST_NO_TAGS";
pub const REASON_SEC_POSTURE_DATA_NOT_COLLECTED: &'static str = "STORAGEGATEWAY_SEC_POSTURE_DATA_NOT_COLLECTED";
pub const REASON_RES_GATEWAY_NOT_ACTIVE: &'static str = "STORAGEGATEWAY_RES_GATEWAY_NOT_ACTIVE";
pub const REASON_RES_OPERATIONAL_STATE_DATA_NOT_COLLECTED: &'static str = "STORAGEGATEWAY_RES_OPERATIONAL_STATE_DATA_NOT_COLLECTED";
pub const REASON_INV_STALE_DATA: &'static str = "STORAGEGATEWAY_INV_STALE_DATA";

/// The operational state, trimmed, when it is collected and not blank.
pub open spec fn state_of(r: AwsResource) -> Option<Seq<char>> {
    match data_text(r.resource_data, "GatewayOperationalState"@) {
        Some(t) => if trimmed(t).len() > 0 {
            Some(trimmed(t))
        } else {
            None
        },
        None => None,
    }
}

/// A gateway in this state serves its shares and volumes.
pub open spec fn is_serving(state: Seq<char>) -> bool {
    ascii_lower(state) == "active"@ || ascii_lower(state) == "running"@
}

pub open spec fn cost_no_tags(r: AwsResource) -> FindingSpec {
    finding(
        Pillar::Cost,
        REASON_COST_NO_TAGS@,
        Severity::Medium,
        "Gateway "@ + r.resource_id@
            + " has no tags recorded (untagged resource or tag collection gap); cost allocation cannot be assessed"@,
        seq![("tags"@, Ev::Copy(r.tags))],
    )
}

/// Cost: gateways without tags.
pub open spec fn cost_checks(r: AwsResource) -> Seq<FindingSpec> {
    only_if(r.tags.spec_object_empty_or_absent(), cost_no_tags(r))
}

pub open spec fn sec_posture_gap(r: AwsResource) -> FindingSpec {
    finding(
        Pillar::Security,
        REASON_SEC_POSTURE_DATA_NOT_COLLECTED@,
        Severity::Medium,
        "Security posture for gateway "@ + r.resource_id@
            + " is not collected yet (no CHAP, SMB security, or endpoint fields); security pillar cannot be assessed"@,
        seq![("security_fields_collected"@, Ev::Bool(false))],
    )
}

/// Security: no posture fields are collected, so every gateway reports the gap.
pub open spec fn security_checks(r: AwsResource) -> Seq<FindingSpec> {
    seq![sec_posture_gap(r)]
}

pub open spec fn res_state_gap(r: AwsResource) -> FindingSpec {
    finding(
        Pillar::Resilience,
        REASON_RES_OPERATIONAL_STATE_DATA_NOT_COLLECTED@,
        Severity::Medium,
        "Operational state for gateway "@ + r.resource_id@
            + " is not collected yet; resilience pillar cannot be fully assessed"@,
        seq![("operational_state_collected"@, Ev::Bool(false))],
    )
}

pub open spec fn res_not_active(r: AwsResource, state: Seq<char>) -> FindingSpec {
    finding(
        Pillar::Resilience,
        REASON_RES_GATEWAY_NOT_ACTIVE@,
        Severity::High,
        "Gateway "@ + r.resource_id@ + " is in operational state '"@ + state
            + "' (not active/running); attached file shares and volumes may be unavailable"@,
        seq![("GatewayOperationalState"@, Ev::Text(state))],
    )
}

/// Resilience: gateways neither active nor running (case-insensitively), or
/// whose state is not collected.
pub open spec fn resilience_checks(r: AwsResource) -> Seq<FindingSpec> {
    match state_of(r) {
        Some(state) => only_if(!is_serving(state), res_not_active(r, state)),
        None => seq![res_state_gap(r)],
    }
}

/// The pillar findings for one gateway; pillars without checks for this
/// service yet produce none.
pub open spec fn checks(r: AwsResource, pillar: Pillar) -> Seq<FindingSpec> {
    match pillar {
        Pillar::Cost => cost_checks(r),
        Pillar::Security => security_checks(r),
        Pillar::Resilience => resilience_checks(r),
        _ => Seq::empty(),
    }
}

fn evaluate_cost(resource: &AwsResource, findings: &mut Vec<InventoryFinding>)
    ensures
        extends(old(findings)@, final(findings)@, *resource, cost_checks(*resource)),
{
    let ghost r = *resource;
    let ghost start = findings@;
    let ghost mut acc: Seq<FindingSpec> = Seq::empty();
    proof {
        lemma_extends_start(start, r);
    }
    if resource.tags.object_empty_or_absent() {
        emit(
            findings,
            resource,
            Pillar::Cost,
            REASON_COST_NO_TAGS,
            Severity::Medium,
            concat3(
                "Gateway ",
                resource.resource_id.as_str(),
                " has no tags recorded (untagged resource or tag collection gap); cost allocation cannot be assessed",
            ),
            obj1("tags", ev_copy(&resource.tags), Ghost(Ev::Copy(r.tags))),
            Ghost(acc),
            Ghost(start),
            Ghost(cost_no_tags(r)),
        );
        proof {
            acc = acc.push(cost_no_tags(r));
        }
    }
    assert(acc =~= cost_checks(r));
}

fn evaluate_security(resource: &AwsResource, findings: &mut Vec<InventoryFinding>)
    ensures
        extends(old(findings)@, final(findings)@, *resource, security_checks(*resource)),
{
    // The collector persists no security posture fields (no CHAP, SMB
    // security strategy, or endpoint configuration), so report the gap
    // honestly instead of inventing a verdict.
    let ghost r = *resource;
    let ghost start = findings@;
    let ghost acc: Seq<FindingSpec> = Seq::empty();
    proof {
        lemma_extends_start(start, r);
    }
    emit(
        findings,
        resource,
        Pillar::Security,
        REASON_SEC_POSTURE_DATA_NOT_COLLECTED,
        Severity::Medium,
        concat3(
            "Security posture for gateway ",
            resource.resource_id.as_str(),
            " is not collected yet (no CHAP, SMB security, or endpoint fields); security pillar cannot be assessed",
        ),
        obj1("security_fields_collected", ev_bool(false), Ghost(Ev::Bool(false))),
        Ghost(acc),
        Ghost(start),
        Ghost(sec_posture_gap(r)),
    );
    assert(acc.push(sec_posture_gap(r)) =~= security_checks(r));
}

fn evaluate_resilience(resource: &AwsResource, findings: &mut Vec<InventoryFinding>)
    ensures
        extends(old(findings)@, final(findings)@, *resource, resilience_checks(*resource)),
{
    let ghost r = *resource;
    let ghost start = findings@;
    let ghost mut acc: Seq<FindingSpec> = Seq::empty();
    proof {
        lemma_extends_start(start, r);
    }
    let state = match data_str(&resource.resource_data, "GatewayOperationalState") {
        Some(raw) => {
            let t = trim(raw.as_str());
            if t.unicode_len() > 0 {
                Some(t)
            } else {
                None
            }
        },
        None => None,
    };
    match state {
        None => {
            emit(
                findings,
                resource,
                Pillar::Resilience,
                REASON_RES_OPERATIONAL_STATE_DATA_NOT_COLLECTED,
                Severity::Medium,
                concat3(
                    "Operational state for gateway ",
                    resource.resource_id.as_str(),
                    " is not collected yet; resilience pillar cannot be fully assessed",
                ),
                obj1("operational_state_collected", ev_bool(false), Ghost(Ev::Bool(false))),
                Ghost(acc),
                Ghost(start),
                Ghost(res_state_gap(r)),
            );
            proof {
                acc = acc.push(res_state_gap(r));
            }
        },
        Some(state) => {
            if !lower_eq(state.as_str(), "active") && !lower_eq(state.as_str(), "running") {
                emit(
                    findings,
                    resource,
                    Pillar::Resilience,
                    REASON_RES_GATEWAY_NOT_ACTIVE,
                    Severity::High,
                    concat5(
                        "Gateway ",
                        resource.resource_id.as_str(),
                        " is in operational state '",
                        state.as_str(),
                        "' (not active/running); attached file shares and volumes may be unavailable",
                    ),
                    obj1("GatewayOperationalState", ev_text(state.as_str()), Ghost(Ev::Text(state@))),
                    Ghost(acc),
                    Ghost(start),
                    Ghost(res_not_active(r, state@)),
                );
                proof {
                    acc = acc.push(res_not_active(r, state@));
                }
            }
        },
    }
    assert(acc =~= resilience_checks(r));
}

/// The Storage Gateway rules.
pub struct StorageGatewayRules;

impl InventoryRules for StorageGatewayRules {
    open spec fn covers(r: AwsResource) -> bool {
        r.resource_type@ == RESOURCE_TYPE@
    }

    open spec fn spec_stale_code() -> Seq<char> {
        REASON_INV_STALE_DATA@
    }

    open spec fn checks(&self, i: int, r: AwsResource, pillar: Pillar, now: Timestamp) -> Seq<FindingSpec> {
        checks(r, pillar)
    }

    fn covers_row(resource: &AwsResource) -> (b: bool) {
        str_eq(resource.resource_type.as_str(), RESOURCE_TYPE)
    }

    fn stale_code() -> (r: &'static str) {
        REASON_INV_STALE_DATA
    }

    open spec fn serves(&self, i: int) -> bool {
        true
    }

    proof fn lemma_checks_pillar(&self, i: int, r: AwsResource, pillar: Pillar, now: Timestamp) {
    }

    proof fn lemma_checks_bound(&self, i: int, r: AwsResource, pillar: Pillar, now: Timestamp) {
    }

    fn evaluate_resource(
        &self,
        i: usize,
        resource: &AwsResource,
        pillar: Pillar,
        now: &Timestamp,
        findings: &mut Vec<InventoryFinding>,
    ) {
        match pillar {
            Pillar::Cost => evaluate_cost(resource, findings),
            Pillar::Security => evaluate_security(resource, findings),
            Pillar::Resilience => evaluate_resilience(resource, findings),
            // Pillars without checks for this service yet produce no findings.
            _ => {
                proof {
                    lemma_extends_start(findings@, *resource);
                }
            },
        }
    }
}

/// Evaluate every Storage Gateway in the fleet for one pillar. Rows of other
/// resource types may share a sync batch; they are skipped and not counted.
pub fn evaluate_storagegateway_fleet(resources: &[AwsResource], pillar: Pillar, now: Timestamp) -> (report: PillarReport)
    requires
        fleet_penalty(StorageGatewayRules, resources@, pillar, now) <= i32::MAX,
    ensures
        report_holds(StorageGatewayRules, report, resources@, pillar, now),
{
    evaluate_fleet(&StorageGatewayRules, resources, pillar, now)
}

} // verus!
