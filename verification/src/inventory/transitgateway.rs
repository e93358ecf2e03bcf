//! Deterministic Transit Gateway inventory evaluators for the cost,
//! resilience, and security pillars.
//!
//! Evaluates fields persisted by the Transit Gateway collector: state,
//! attachment_count, vpn_ecmp_support, auto_accept_shared_attachments,
//! default_route_table_association, default_route_table_propagation, plus the
//! tags column.
use vstd::prelude::*;
use crate::inventory::fleet::{evaluate_fleet, fleet_penalty, report_holds, InventoryRules};
use crate::inventory::types::{
    data_bool, data_count, data_flag, data_str, data_text, data_u64, emit, ev_bool, ev_copy, ev_text,
    ev_u64, extends, finding, is_text, lemma_extends_start, obj1, obj2, only_if, AwsResource, Ev,
    FindingSpec, InventoryFinding, Pillar, PillarReport, Severity,
};
use crate::text::{concat3, concat5, str_eq};
use crate::time::Timestamp;

verus! {

/// Only rows of this resource type are evaluated.
pub const RESOURCE_TYPE: &'static str = "TransitGateway";

// Reason codes are the stable contract for findings; never reuse or rename.
pub const REASON_COST_NO_TAGS: &'static str = "TGW_COST_NO_TAGS";
pub const REASON_COST_NO_ATTACHMENTS: &'static str = "TGW_COST_NO_ATTACHMENTS";
pub const REASON_RES_NOT_AVAILABLE: &'static str = "TGW_RES_NOT_AVAILABLE";
pub const REASON_RES_VPN_ECMP_DISABLED: &'static str = "TGW_RES_VPN_ECMP_DISABLED";
pub const REASON_SEC_AUTO_ACCEPT_SHARED_ATTACHMENTS: &'static str = "TGW_SEC_AUTO_ACCEPT_SHARED_ATTACHMENTS";
pub const REASON_SEC_FLAT_ROUTING_DEFAULTS: &'static str = "TGW_SEC_FLAT_ROUTING_DEFAULTS";
pub const REASON_INV_STALE_DATA: &'static str = "TGW_INV_STALE_DATA";

pub open spec fn state_of(r: AwsResource) -> Option<Seq<char>> {
    data_text(r.resource_data, "state"@)
}

pub open spec fn cost_no_tags(r: AwsResource) -> FindingSpec {
    finding(
        Pillar::Cost,
        REASON_COST_NO_TAGS@,
        Severity::Medium,
        "Transit Gateway "@ + r.resource_id@
            + " has no tags recorded (untagged resource or tag collection gap); cost allocation cannot be assessed"@,
        seq![("tags"@, Ev::Copy(r.tags))],
    )
}

pub open spec fn cost_no_attachments(r: AwsResource) -> FindingSpec {
    finding(
        Pillar::Cost,
        REASON_COST_NO_ATTACHMENTS@,
        Severity::Medium,
        "Transit Gateway "@ + r.resource_id@
            + " is available but has no attachments; the hourly transit gateway charge is incurred with nothing connected"@,
        seq![("state"@, Ev::Text("available"@)), ("attachment_count"@, Ev::U64(0))],
    )
}

/// Cost: gateways without tags; available gateways with no attachments,
/// which bill hourly with nothing connected.
pub open spec fn cost_checks(r: AwsResource) -> Seq<FindingSpec> {
    only_if(r.tags.spec_object_empty_or_absent(), cost_no_tags(r)) + only_if(
        state_of(r) == Some("available"@) && data_count(r.resource_data, "attachment_count"@) == Some(
            0u64,
        ),
        cost_no_attachments(r),
    )
}

pub open spec fn sec_auto_accept(r: AwsResource) -> FindingSpec {
    finding(
        Pillar::Security,
        REASON_SEC_AUTO_ACCEPT_SHARED_ATTACHMENTS@,
        Severity::Medium,
        "Transit Gateway "@ + r.resource_id@
            + " auto-accepts shared attachments; cross-account attachments attach without review"@,
        seq![("auto_accept_shared_attachments"@, Ev::Bool(true))],
    )
}

pub open spec fn sec_flat_routing(r: AwsResource) -> FindingSpec {
    finding(
        Pillar::Security,
        REASON_SEC_FLAT_ROUTING_DEFAULTS@,
        Severity::Low,
        "Transit Gateway "@ + r.resource_id@
            + " enables both default route table association and propagation; every attachment can reach every other attachment by default (flat network)"@,
        seq![
            ("default_route_table_association"@, Ev::Bool(true)),
            ("default_route_table_propagation"@, Ev::Bool(true)),
        ],
    )
}

/// Security: gateways that auto-accept shared attachments; gateways with
/// both default association and default propagation on (a flat network).
pub open spec fn security_checks(r: AwsResource) -> Seq<FindingSpec> {
    only_if(
        data_flag(r.resource_data, "auto_accept_shared_attachments"@) == Some(true),
        sec_auto_accept(r),
    ) + only_if(
        data_flag(r.resource_data, "default_route_table_association"@) == Some(true) && data_flag(
            r.resource_data,
            "default_route_table_propagation"@,
        ) == Some(true),
        sec_flat_routing(r),
    )
}

pub open spec fn res_not_available(r: AwsResource, state: Seq<char>) -> FindingSpec {
    finding(
        Pillar::Resilience,
        REASON_RES_NOT_AVAILABLE@,
        Severity::Medium,
        "Transit Gateway "@ + r.resource_id@ + " is in state '"@ + state
            + "' instead of 'available'; attached networks may be degraded or in transition"@,
        seq![("state"@, Ev::Text(state))],
    )
}

pub open spec fn res_ecmp_disabled(r: AwsResource) -> FindingSpec {
    finding(
        Pillar::Resilience,
        REASON_RES_VPN_ECMP_DISABLED@,
        Severity::Low,
        "Transit Gateway "@ + r.resource_id@
            + " has VPN ECMP support disabled; VPN attachments cannot load-balance across tunnels, reducing redundancy and throughput"@,
        seq![("vpn_ecmp_support"@, Ev::Bool(false))],
    )
}

/// Resilience: gateways in a transitional state (neither available nor
/// deleted); gateways with VPN ECMP support off.
pub open spec fn resilience_checks(r: AwsResource) -> Seq<FindingSpec> {
    (match state_of(r) {
        Some(s) => only_if(s != "available"@ && s != "deleted"@, res_not_available(r, s)),
        None => Seq::empty(),
    }) + only_if(data_flag(r.resource_data, "vpn_ecmp_support"@) == Some(false), res_ecmp_disabled(r))
}

/// The pillar findings for one gateway; pillars without checks for this
/// service yet produce none.
pub open spec fn checks(r: AwsResource, pillar: Pillar) -> Seq<FindingSpec> {
    match pillar {
        Pillar::Cost => cost_checks(r),
        Pillar::Security => security_checks(r),
        Pillar::Resilience => resilience_checks(r),
        _ => Seq::empty(),
    }
}

fn evaluate_cost(resource: &AwsResource, findings: &mut Vec<InventoryFinding>)
    ensures
        extends(old(findings)@, final(findings)@, *resource, cost_checks(*resource)),
{
    let ghost r = *resource;
    let ghost start = findings@;
    let ghost mut acc: Seq<FindingSpec> = Seq::empty();
    proof {
        lemma_extends_start(start, r);
    }
    let id = resource.resource_id.as_str();
    if resource.tags.object_empty_or_absent() {
        emit(
            findings,
            resource,
            Pillar::Cost,
            REASON_COST_NO_TAGS,
            Severity::Medium,
            concat3(
                "Transit Gateway ",
                id,
                " has no tags recorded (untagged resource or tag collection gap); cost allocation cannot be assessed",
            ),
            obj1("tags", ev_copy(&resource.tags), Ghost(Ev::Copy(r.tags))),
            Ghost(acc),
            Ghost(start),
            Ghost(cost_no_tags(r)),
        );
        proof {
            acc = acc.push(cost_no_tags(r));
        }
    }
    // An available transit gateway bills hourly even with nothing attached;
    // zero attachments means pure spend. Deleted or transitional gateways are
    // not flagged because the attachment count is not meaningful there.
    let state = data_str(&resource.resource_data, "state");
    let attachment_count = data_u64(&resource.resource_data, "attachment_count");
    if is_text(&state, "available") && attachment_count == Some(0u64) {
        emit(
            findings,
            resource,
            Pillar::Cost,
            REASON_COST_NO_ATTACHMENTS,
            Severity::Medium,
            concat3(
                "Transit Gateway ",
                id,
                " is available but has no attachments; the hourly transit gateway charge is incurred with nothing connected",
            ),
            obj2(
                "state",
                ev_text("available"),
                "attachment_count",
                ev_u64(0),
                Ghost(Ev::Text("available"@)),
                Ghost(Ev::U64(0)),
            ),
            Ghost(acc),
            Ghost(start),
            Ghost(cost_no_attachments(r)),
        );
        proof {
            acc = acc.push(cost_no_attachments(r));
        }
    }
    assert(acc =~= cost_checks(r));
}

fn evaluate_security(resource: &AwsResource, findings: &mut Vec<InventoryFinding>)
    ensures
        extends(old(findings)@, final(findings)@, *resource, security_checks(*resource)),
{
    let ghost r = *resource;
    let ghost start = findings@;
    let ghost mut acc: Seq<FindingSpec> = Seq::empty();
    proof {
        lemma_extends_start(start, r);
    }
    let id = resource.resource_id.as_str();
    if data_bool(&resource.resource_data, "auto_accept_shared_attachments") == Some(true) {
        emit(
            findings,
            resource,
            Pillar::Security,
            REASON_SEC_AUTO_ACCEPT_SHARED_ATTACHMENTS,
            Severity::Medium,
            concat3(
                "Transit Gateway ",
                id,
                " auto-accepts shared attachments; cross-account attachments attach without review",
            ),
            obj1("auto_accept_shared_attachments", ev_bool(true), Ghost(Ev::Bool(true))),
            Ghost(acc),
            Ghost(start),
            Ghost(sec_auto_accept(r)),
        );
        proof {
            acc = acc.push(sec_auto_accept(r));
        }
    }
    // With both default association and default propagation enabled, every
    // attachment lands on the default route table and learns every other
    // attachment's routes, producing a flat network by default.
    let default_association = data_bool(&resource.resource_data, "default_route_table_association")
        == Some(true);
    let default_propagation = data_bool(&resource.resource_data, "default_route_table_propagation")
        == Some(true);
    if default_association && default_propagation {
        emit(
            findings,
            resource,
            Pillar::Security,
            REASON_SEC_FLAT_ROUTING_DEFAULTS,
            Severity::Low,
            concat3(
                "Transit Gateway ",
                id,
                " enables both default route table association and propagation; every attachment can reach every other attachment by default (flat network)",
            ),
            obj2(
                "default_route_table_association",
                ev_bool(true),
                "default_route_table_propagation",
                ev_bool(true),
                Ghost(Ev::Bool(true)),
                Ghost(Ev::Bool(true)),
            ),
            Ghost(acc),
            Ghost(start),
            Ghost(sec_flat_routing(r)),
        );
        proof {
            acc = acc.push(sec_flat_routing(r));
        }
    }
    assert(acc =~= security_checks(r));
}

fn evaluate_resilience(resource: &AwsResource, findings: &mut Vec<InventoryFinding>)
    ensures
        extends(old(findings)@, final(findings)@, *resource, resilience_checks(*resource)),
{
    let ghost r = *resource;
    let ghost start = findings@;
    let ghost mut acc: Seq<FindingSpec> = Seq::empty();
    proof {
        lemma_extends_start(start, r);
    }
    let id = resource.resource_id.as_str();
    // pending/modifying/deleting are transitional states worth surfacing;
    // "deleted" rows are inert leftovers and skip this check.
    if let Some(state) = data_str(&resource.resource_data, "state") {
        if !str_eq(state.as_str(), "available") && !str_eq(state.as_str(), "deleted") {
            emit(
                findings,
                resource,
                Pillar::Resilience,
                REASON_RES_NOT_AVAILABLE,
                Severity::Medium,
                concat5(
                    "Transit Gateway ",
                    id,
                    " is in state '",
                    state.as_str(),
                    "' instead of 'available'; attached networks may be degraded or in transition",
                ),
                obj1("state", ev_text(state.as_str()), Ghost(Ev::Text(state@))),
                Ghost(acc),
                Ghost(start),
                Ghost(res_not_available(r, state@)),
            );
            proof {
                acc = acc.push(res_not_available(r, state@));
            }
        }
    }
    if data_bool(&resource.resource_data, "vpn_ecmp_support") == Some(false) {
        emit(
            findings,
            resource,
            Pillar::Resilience,
            REASON_RES_VPN_ECMP_DISABLED,
            Severity::Low,
            concat3(
                "Transit Gateway ",
                id,
                " has VPN ECMP support disabled; VPN attachments cannot load-balance across tunnels, reducing redundancy and throughput",
            ),
            obj1("vpn_ecmp_support", ev_bool(false), Ghost(Ev::Bool(false))),
            Ghost(acc),
            Ghost(start),
            Ghost(res_ecmp_disabled(r)),
        );
        proof {
            acc = acc.push(res_ecmp_disabled(r));
        }
    }
    assert(acc =~= resilience_checks(r));
}

/// The Transit Gateway rules.
pub struct TransitGatewayRules;

impl InventoryRules for TransitGatewayRules {
    open spec fn covers(r: AwsResource) -> bool {
        r.resource_type@ == RESOURCE_TYPE@
    }

    open spec fn spec_stale_code() -> Seq<char> {
        REASON_INV_STALE_DATA@
    }

    open spec fn checks(&self, i: int, r: AwsResource, pillar: Pillar, now: Timestamp) -> Seq<FindingSpec> {
        checks(r, pillar)
    }

    fn covers_row(resource: &AwsResource) -> (b: bool) {
        str_eq(resource.resource_type.as_str(), RESOURCE_TYPE)
    }

    fn stale_code() -> (r: &'static str) {
        REASON_INV_STALE_DATA
    }

    open spec fn serves(&self, i: int) -> bool {
        true
    }

    proof fn lemma_checks_pillar(&self, i: int, r: AwsResource, pillar: Pillar, now: Timestamp) {
    }

    proof fn lemma_checks_bound(&self, i: int, r: AwsResource, pillar: Pillar, now: Timestamp) {
    }

    fn evaluate_resource(
        &self,
        i: usize,
        resource: &AwsResource,
        pillar: Pillar,
        now: &Timestamp,
        findings: &mut Vec<InventoryFinding>,
    ) {
        match pillar {
            Pillar::Cost => evaluate_cost(resource, findings),
            Pillar::Security => evaluate_security(resource, findings),
            Pillar::Resilience => evaluate_resilience(resource, findings),
            // Pillars without checks for this service yet produce no findings.
            _ => {
                proof {
                    lemma_extends_start(findings@, *resource);
                }
            },
        }
    }
}

/// Evaluate every Transit Gateway in the fleet for one pillar. Rows whose
/// `resource_type` is not `TransitGateway` are skipped and not counted.
pub fn evaluate_transitgateway_fleet(resources: &[AwsResource], pillar: Pillar, now: Timestamp) -> (report: PillarReport)
    requires
        fleet_penalty(TransitGatewayRules, resources@, pillar, now) <= i32::MAX,
    ensures
        report_holds(TransitGatewayRules, report, resources@, pillar, now),
{
    evaluate_fleet(&TransitGatewayRules, resources, pillar, now)
}

} // verus!
