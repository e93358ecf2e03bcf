#![allow(dead_code)]
use backend::inventory::subnet::{
    REASON_COST_NO_TAGS, REASON_INV_STALE_DATA, REASON_RES_AZ_DATA_NOT_COLLECTED, REASON_RES_STATE_NOT_AVAILABLE, REASON_SEC_POSTURE_DATA_NOT_COLLECTED, RESOURCE_TYPE, evaluate_subnet_fleet,
};
use backend::inventory::types::{AwsResource, Pillar, PillarReport, Severity};
use backend::json::{ArrayBuilder, JsonNumber, JsonValue, ObjectBuilder};
use backend::time::Timestamp;

const ACCOUNT: &str = "123456789012";
const NOW: i64 = 1_781_049_600; // 2026-06-10T00:00:00Z

fn now() -> Timestamp {
    Timestamp::from_unix(NOW, 0).unwrap()
}

fn hours_ago(h: i64) -> Timestamp {
    Timestamp::from_unix(NOW - h * 3600, 0).unwrap()
}

fn s(v: &str) -> JsonValue {
    JsonValue::Str(v.to_string())
}

fn n(v: u64) -> JsonValue {
    JsonValue::Number(JsonNumber::PosInt(v))
}

fn b(v: bool) -> JsonValue {
    JsonValue::Bool(v)
}

fn arr(items: Vec<JsonValue>) -> JsonValue {
    let mut a = ArrayBuilder::new();
    for v in items {
        a = a.item(v);
    }
    a.build()
}

fn obj(pairs: Vec<(&str, JsonValue)>) -> JsonValue {
    let mut o = ObjectBuilder::new();
    for (k, v) in pairs {
        o = o.field(k, v);
    }
    o.build()
}

/// `base` with the fields of `overrides` replaced or added and the fields
/// named in `removed` left out.
fn with(base: Vec<(&'static str, JsonValue)>, overrides: Vec<(&'static str, JsonValue)>, removed: &[&str]) -> JsonValue {
    let mut fields = base;
    for (k, v) in overrides {
        match fields.iter().position(|(name, _)| *name == k) {
            Some(i) => fields[i].1 = v,
            None => fields.push((k, v)),
        }
    }
    fields.retain(|(k, _)| !removed.contains(k));
    obj(fields)
}

fn codes(report: &PillarReport) -> Vec<&str> {
    report.findings.iter().map(|f| f.reason_code.as_str()).collect()
}

fn fixture(resource_id: &str, tags: JsonValue, resource_data: JsonValue) -> AwsResource {
    AwsResource {
        account_id: ACCOUNT.to_string(),
        profile: None,
        region: "us-east-1".to_string(),
        resource_type: RESOURCE_TYPE.to_string(),
        resource_id: resource_id.to_string(),
        arn: format!("arn:aws:ec2:us-east-1:123456789012:subnet/{}", resource_id),
        name: Some(resource_id.to_string()),
        tags,
        resource_data,
        last_refreshed: hours_ago(1),
    }
}

fn healthy_fields() -> Vec<(&'static str, JsonValue)> {
    vec![
        ("subnet_id", s("subnet-ok")),
        ("cidr_block", s("10.0.1.0/24")),
        ("vpc_id", s("vpc-1")),
        ("availability_zone", s("us-east-1a")),
        ("availability_zone_id", s("use1-az1")),
        ("state", s("available")),
    ]
}

fn healthy_data() -> JsonValue {
    with(healthy_fields(), vec![], &[])
}

fn net_tags() -> JsonValue {
    obj(vec![("team", s("net"))])
}

#[test]
fn cost_flags_missing_tags() {
    let r = fixture("subnet-untagged", obj(vec![]), healthy_data());
    let report = evaluate_subnet_fleet(&[r], Pillar::Cost, now());
    assert_eq!(codes(&report), vec![REASON_COST_NO_TAGS]);
    assert!(report.findings[0].message.contains("untagged resource or tag collection gap"));
}

#[test]
fn resilience_flags_state_not_available() {
    let data = with(healthy_fields(), vec![("state", s("pending"))], &[]);
    let r = fixture("subnet-pending", net_tags(), data);
    let report = evaluate_subnet_fleet(&[r], Pillar::Resilience, now());
    assert_eq!(codes(&report), vec![REASON_RES_STATE_NOT_AVAILABLE]);
}

#[test]
fn resilience_reports_gap_when_az_not_collected() {
    let r = fixture("subnet-no-az", net_tags(), obj(vec![("subnet_id", s("subnet-no-az")), ("state", s("available"))]));
    let report = evaluate_subnet_fleet(&[r], Pillar::Resilience, now());
    assert_eq!(codes(&report), vec![REASON_RES_AZ_DATA_NOT_COLLECTED]);
}

#[test]
fn subnet_pillar_evaluator_security_reports_posture_data_gap() {
    let r = fixture("subnet-sec", net_tags(), healthy_data());
    let report = evaluate_subnet_fleet(&[r], Pillar::Security, now());
    assert_eq!(codes(&report), vec![REASON_SEC_POSTURE_DATA_NOT_COLLECTED]);
}

#[test]
fn stale_inventory_is_reported() {
    let mut r = fixture("subnet-stale", net_tags(), healthy_data());
    r.last_refreshed = hours_ago(48);
    let report = evaluate_subnet_fleet(&[r], Pillar::Cost, now());
    assert_eq!(report.stale_resources, 1);
    assert!(report.findings.iter().any(|f| f.reason_code == REASON_INV_STALE_DATA));
}

#[test]
fn non_subnet_rows_are_skipped() {
    let mut r = fixture("vpc-1", obj(vec![]), obj(vec![]));
    r.resource_type = "Vpc".to_string();
    let report = evaluate_subnet_fleet(&[r], Pillar::Cost, now());
    assert_eq!(report.resources_evaluated, 0);
    assert!(report.findings.is_empty());
    assert_eq!(report.score, 100);
}

#[test]
fn healthy_subnet_passes_cost_and_resilience_and_only_gaps_security() {
    let r = fixture("subnet-ok", net_tags(), healthy_data());
    for pillar in [Pillar::Cost, Pillar::Resilience] {
        let report = evaluate_subnet_fleet(std::slice::from_ref(&r), pillar, now());
        assert!(report.findings.is_empty(), "unexpected for {:?}: {:?}", pillar, codes(&report));
    }
    let report = evaluate_subnet_fleet(std::slice::from_ref(&r), Pillar::Security, now());
    assert_eq!(codes(&report), vec![REASON_SEC_POSTURE_DATA_NOT_COLLECTED]);
}

#[test]
fn subnet_with_missing_state_only_reports_missing_zone() {
    // An absent state is not a non-available state.
    let r = fixture("subnet-bare", net_tags(), obj(vec![("subnet_id", s("subnet-bare"))]));
    let report = evaluate_subnet_fleet(&[r], Pillar::Resilience, now());
    assert_eq!(codes(&report), vec![REASON_RES_AZ_DATA_NOT_COLLECTED]);
    assert_eq!(report.score, 93);
}

#[test]
fn pending_subnet_without_zone_scores_both_penalties() {
    let data = with(healthy_fields(), vec![("state", s("pending"))], &["availability_zone"]);
    let r = fixture("subnet-two", net_tags(), data);
    let report = evaluate_subnet_fleet(&[r], Pillar::Resilience, now());
    assert_eq!(codes(&report), vec![REASON_RES_STATE_NOT_AVAILABLE, REASON_RES_AZ_DATA_NOT_COLLECTED]);
    assert!(matches!(report.findings[0].severity, Severity::High));
    assert_eq!(
        report.findings[0].message,
        "Subnet subnet-two is in state 'pending' instead of 'available'; workloads in it may be unreachable"
    );
    assert_eq!(report.score, 100 - 15 - 7);
}
