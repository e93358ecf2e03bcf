#![allow(dead_code)]
use backend::inventory::transitgateway::{
    REASON_COST_NO_ATTACHMENTS, REASON_COST_NO_TAGS, REASON_INV_STALE_DATA, REASON_RES_NOT_AVAILABLE, REASON_RES_VPN_ECMP_DISABLED, REASON_SEC_AUTO_ACCEPT_SHARED_ATTACHMENTS, REASON_SEC_FLAT_ROUTING_DEFAULTS, RESOURCE_TYPE, evaluate_transitgateway_fleet,
};
use backend::inventory::types::{AwsResource, Pillar, PillarReport, Severity};
use backend::json::{ArrayBuilder, JsonNumber, JsonValue, ObjectBuilder};
use backend::time::Timestamp;

const ACCOUNT: &str = "123456789012";
const NOW: i64 = 1_781_049_600; // 2026-06-10T00:00:00Z

fn now() -> Timestamp {
    Timestamp::from_unix(NOW, 0).unwrap()
}

fn hours_ago(h: i64) -> Timestamp {
    Timestamp::from_unix(NOW - h * 3600, 0).unwrap()
}

fn s(v: &str) -> JsonValue {
    JsonValue::Str(v.to_string())
}

fn n(v: u64) -> JsonValue {
    JsonValue::Number(JsonNumber::PosInt(v))
}

fn b(v: bool) -> JsonValue {
    JsonValue::Bool(v)
}

fn arr(items: Vec<JsonValue>) -> JsonValue {
    let mut a = ArrayBuilder::new();
    for v in items {
        a = a.item(v);
    }
    a.build()
}

fn obj(pairs: Vec<(&str, JsonValue)>) -> JsonValue {
    let mut o = ObjectBuilder::new();
    for (k, v) in pairs {
        o = o.field(k, v);
    }
    o.build()
}

/// `base` with the fields of `overrides` replaced or added and the fields
/// named in `removed` left out.
fn with(base: Vec<(&'static str, JsonValue)>, overrides: Vec<(&'static str, JsonValue)>, removed: &[&str]) -> JsonValue {
    let mut fields = base;
    for (k, v) in overrides {
        match fields.iter().position(|(name, _)| *name == k) {
            Some(i) => fields[i].1 = v,
            None => fields.push((k, v)),
        }
    }
    fields.retain(|(k, _)| !removed.contains(k));
    obj(fields)
}

fn codes(report: &PillarReport) -> Vec<&str> {
    report.findings.iter().map(|f| f.reason_code.as_str()).collect()
}

fn fixture(resource_id: &str, tags: JsonValue, resource_data: JsonValue) -> AwsResource {
    AwsResource {
        account_id: ACCOUNT.to_string(),
        profile: None,
        region: "us-east-1".to_string(),
        resource_type: RESOURCE_TYPE.to_string(),
        resource_id: resource_id.to_string(),
        arn: format!("arn:aws:ec2:us-east-1:123456789012:transit-gateway/{}", resource_id),
        name: Some(resource_id.to_string()),
        tags,
        resource_data,
        last_refreshed: hours_ago(1),
    }
}

fn healthy_fields() -> Vec<(&'static str, JsonValue)> {
    vec![
        ("transit_gateway_id", s("tgw-ok")),
        ("state", s("available")),
        ("owner_id", s("123456789012")),
        ("amazon_side_asn", n(64512)),
        ("auto_accept_shared_attachments", b(false)),
        ("default_route_table_association", b(true)),
        ("default_route_table_propagation", b(false)),
        ("dns_support", b(true)),
        ("vpn_ecmp_support", b(true)),
        ("multicast_support", b(false)),
        ("attachment_count", n(3)),
    ]
}

fn healthy_data() -> JsonValue {
    with(healthy_fields(), vec![], &[])
}

fn network_tags() -> JsonValue {
    obj(vec![("team", s("network"))])
}

#[test]
fn cost_flags_untagged_transit_gateway() {
    let r = fixture("tgw-untagged", obj(vec![]), healthy_data());
    let report = evaluate_transitgateway_fleet(&[r], Pillar::Cost, now());
    assert_eq!(codes(&report), vec![REASON_COST_NO_TAGS]);
}

#[test]
fn cost_flags_available_gateway_without_attachments() {
    let data = with(healthy_fields(), vec![("attachment_count", n(0))], &[]);
    let r = fixture("tgw-idle", network_tags(), data);
    let report = evaluate_transitgateway_fleet(&[r], Pillar::Cost, now());
    assert_eq!(codes(&report), vec![REASON_COST_NO_ATTACHMENTS]);
}

#[test]
fn cost_does_not_flag_available_gateway_with_attachments() {
    let r = fixture("tgw-busy", network_tags(), healthy_data());
    let report = evaluate_transitgateway_fleet(&[r], Pillar::Cost, now());
    assert!(report.findings.is_empty(), "unexpected: {:?}", codes(&report));
}

#[test]
fn resilience_flags_pending_state() {
    let data = with(healthy_fields(), vec![("state", s("pending"))], &[]);
    let r = fixture("tgw-pending", network_tags(), data);
    let report = evaluate_transitgateway_fleet(&[r], Pillar::Resilience, now());
    assert_eq!(codes(&report), vec![REASON_RES_NOT_AVAILABLE]);
    assert_eq!(report.findings[0].evidence.get("state").and_then(|v| v.as_str()).map(|t| t.as_str()), Some("pending"));
}

#[test]
fn deleted_gateway_is_not_flagged_for_state_or_attachments() {
    let data = with(healthy_fields(), vec![("state", s("deleted")), ("attachment_count", n(0))], &[]);
    let r = fixture("tgw-deleted", network_tags(), data);
    let resilience = evaluate_transitgateway_fleet(std::slice::from_ref(&r), Pillar::Resilience, now());
    assert!(resilience.findings.is_empty(), "unexpected: {:?}", codes(&resilience));
    let cost = evaluate_transitgateway_fleet(&[r], Pillar::Cost, now());
    assert!(cost.findings.is_empty(), "unexpected: {:?}", codes(&cost));
}

#[test]
fn resilience_flags_vpn_ecmp_disabled() {
    let data = with(healthy_fields(), vec![("vpn_ecmp_support", b(false))], &[]);
    let r = fixture("tgw-noecmp", network_tags(), data);
    let report = evaluate_transitgateway_fleet(&[r], Pillar::Resilience, now());
    assert_eq!(codes(&report), vec![REASON_RES_VPN_ECMP_DISABLED]);
    assert!(matches!(report.findings[0].severity, Severity::Low));
}

#[test]
fn security_flags_auto_accept_shared_attachments() {
    let data = with(healthy_fields(), vec![("auto_accept_shared_attachments", b(true))], &[]);
    let r = fixture("tgw-autoaccept", network_tags(), data);
    let report = evaluate_transitgateway_fleet(&[r], Pillar::Security, now());
    assert_eq!(codes(&report), vec![REASON_SEC_AUTO_ACCEPT_SHARED_ATTACHMENTS]);
}

#[test]
fn security_flags_flat_routing_defaults() {
    let data = with(
        healthy_fields(),
        vec![("default_route_table_association", b(true)), ("default_route_table_propagation", b(true))],
        &[],
    );
    let r = fixture("tgw-flat", network_tags(), data);
    let report = evaluate_transitgateway_fleet(&[r], Pillar::Security, now());
    assert_eq!(codes(&report), vec![REASON_SEC_FLAT_ROUTING_DEFAULTS]);
}

#[test]
fn security_requires_both_routing_defaults_for_flat_network() {
    let data = with(
        healthy_fields(),
        vec![("default_route_table_association", b(true)), ("default_route_table_propagation", b(false))],
        &[],
    );
    let r = fixture("tgw-assoc-only", network_tags(), data);
    let report = evaluate_transitgateway_fleet(&[r], Pillar::Security, now());
    assert!(report.findings.is_empty(), "unexpected: {:?}", codes(&report));
}

#[test]
fn transitgateway_pillar_evaluator_stale_inventory_is_flagged() {
    let mut r = fixture("tgw-stale", network_tags(), healthy_data());
    r.last_refreshed = hours_ago(48);
    let report = evaluate_transitgateway_fleet(&[r], Pillar::Resilience, now());
    assert_eq!(report.stale_resources, 1);
    assert!(codes(&report).contains(&REASON_INV_STALE_DATA));
}

#[test]
fn non_tgw_resources_are_skipped_and_not_counted() {
    let mut r = fixture("queue-1", obj(vec![]), obj(vec![]));
    r.resource_type = "SqsQueue".to_string();
    let report = evaluate_transitgateway_fleet(&[r], Pillar::Cost, now());
    assert_eq!(report.resources_evaluated, 0);
    assert!(report.findings.is_empty());
}

#[test]
fn healthy_transit_gateway_passes_all_pillars() {
    let r = fixture("tgw-ok", network_tags(), healthy_data());
    for pillar in [Pillar::Cost, Pillar::Security, Pillar::Resilience] {
        let report = evaluate_transitgateway_fleet(std::slice::from_ref(&r), pillar, now());
        assert!(report.findings.is_empty(), "unexpected for {:?}: {:?}", pillar, codes(&report));
        assert_eq!(report.score, 100);
    }
}

#[test]
fn idle_untagged_gateway_scores_two_medium_penalties() {
    let data = with(healthy_fields(), vec![("attachment_count", n(0))], &[]);
    let r = fixture("tgw-idle2", obj(vec![]), data);
    let report = evaluate_transitgateway_fleet(&[r], Pillar::Cost, now());
    assert_eq!(codes(&report), vec![REASON_COST_NO_TAGS, REASON_COST_NO_ATTACHMENTS]);
    assert_eq!(report.score, 86);
    assert_eq!(report.findings[1].evidence.get("attachment_count").and_then(|v| v.as_u64()), Some(0));
}
