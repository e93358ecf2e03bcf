#![allow(dead_code)]
use backend::inventory::vpc::{
    REASON_COST_NO_TAGS, REASON_INV_STALE_DATA, REASON_RES_NOT_AVAILABLE, REASON_SEC_DEFAULT_VPC_PRESENT, REASON_SEC_FLOW_LOGS_DATA_NOT_COLLECTED, evaluate_vpc_fleet,
};
use backend::inventory::types::{AwsResource, Pillar, PillarReport, Severity};
use backend::json::{ArrayBuilder, JsonNumber, JsonValue, ObjectBuilder};
use backend::time::Timestamp;

const RESOURCE_TYPE: &str = "Vpc";
const ACCOUNT: &str = "123456789012";
const NOW: i64 = 1_781_049_600; // 2026-06-10T00:00:00Z

fn now() -> Timestamp {
    Timestamp::from_unix(NOW, 0).unwrap()
}

fn hours_ago(h: i64) -> Timestamp {
    Timestamp::from_unix(NOW - h * 3600, 0).unwrap()
}

fn s(v: &str) -> JsonValue {
    JsonValue::Str(v.to_string())
}

fn n(v: u64) -> JsonValue {
    JsonValue::Number(JsonNumber::PosInt(v))
}

fn b(v: bool) -> JsonValue {
    JsonValue::Bool(v)
}

fn arr(items: Vec<JsonValue>) -> JsonValue {
    let mut a = ArrayBuilder::new();
    for v in items {
        a = a.item(v);
    }
    a.build()
}

fn obj(pairs: Vec<(&str, JsonValue)>) -> JsonValue {
    let mut o = ObjectBuilder::new();
    for (k, v) in pairs {
        o = o.field(k, v);
    }
    o.build()
}

/// `base` with the fields of `overrides` replaced or added and the fields
/// named in `removed` left out.
fn with(base: Vec<(&'static str, JsonValue)>, overrides: Vec<(&'static str, JsonValue)>, removed: &[&str]) -> JsonValue {
    let mut fields = base;
    for (k, v) in overrides {
        match fields.iter().position(|(name, _)| *name == k) {
            Some(i) => fields[i].1 = v,
            None => fields.push((k, v)),
        }
    }
    fields.retain(|(k, _)| !removed.contains(k));
    obj(fields)
}

fn codes(report: &PillarReport) -> Vec<&str> {
    report.findings.iter().map(|f| f.reason_code.as_str()).collect()
}

fn fixture(resource_id: &str, tags: JsonValue, resource_data: JsonValue) -> AwsResource {
    AwsResource {
        account_id: ACCOUNT.to_string(),
        profile: None,
        region: "us-east-1".to_string(),
        resource_type: RESOURCE_TYPE.to_string(),
        resource_id: resource_id.to_string(),
        arn: format!("arn:aws:ec2:us-east-1:123456789012:vpc/{}", resource_id),
        name: Some(resource_id.to_string()),
        tags,
        resource_data,
        last_refreshed: hours_ago(1),
    }
}

fn net_tags() -> JsonValue {
    obj(vec![("team", s("net"))])
}

#[test]
fn security_flags_default_vpc_and_flow_log_gap() {
    let r = fixture("vpc-default", net_tags(), obj(vec![("vpc_id", s("vpc-default")), ("state", s("available")), ("is_default", b(true))]));
    let report = evaluate_vpc_fleet(&[r], Pillar::Security, now());
    let codes = codes(&report);
    assert!(codes.contains(&REASON_SEC_DEFAULT_VPC_PRESENT));
    assert!(codes.contains(&REASON_SEC_FLOW_LOGS_DATA_NOT_COLLECTED));
}

#[test]
fn security_passes_for_custom_vpc_with_flow_log_data() {
    let r = fixture(
        "vpc-app",
        net_tags(),
        obj(vec![
            ("vpc_id", s("vpc-app")),
            ("state", s("available")),
            ("is_default", b(false)),
            ("flow_logs", arr(vec![obj(vec![("id", s("fl-1"))])])),
        ]),
    );
    let report = evaluate_vpc_fleet(&[r], Pillar::Security, now());
    assert!(report.findings.is_empty(), "unexpected: {:?}", codes(&report));
}

#[test]
fn resilience_flags_pending_vpc() {
    let r = fixture("vpc-new", net_tags(), obj(vec![("vpc_id", s("vpc-new")), ("state", s("pending")), ("is_default", b(false))]));
    let report = evaluate_vpc_fleet(&[r], Pillar::Resilience, now());
    assert_eq!(codes(&report), vec![REASON_RES_NOT_AVAILABLE]);
}

#[test]
fn cost_reports_tag_gap_as_low() {
    let r = fixture("vpc-untagged", obj(vec![]), obj(vec![("vpc_id", s("vpc-untagged")), ("state", s("available")), ("is_default", b(false))]));
    let report = evaluate_vpc_fleet(&[r], Pillar::Cost, now());
    assert_eq!(report.findings.len(), 1);
    assert_eq!(report.findings[0].severity, Severity::Low);
}

#[test]
fn vpc_evaluator_counts_every_row_it_is_given() {
    let mut other = fixture("subnet-1", net_tags(), obj(vec![("state", s("available"))]));
    other.resource_type = "Subnet".to_string();
    let vpc = fixture("vpc-a", net_tags(), obj(vec![("state", s("available"))]));
    let report = evaluate_vpc_fleet(&[vpc, other], Pillar::Resilience, now());
    assert_eq!(report.resources_evaluated, 2);
    assert!(report.findings.is_empty());
}

#[test]
fn pending_vpc_message_names_the_state() {
    let mut r = fixture("vpc-new", net_tags(), obj(vec![("state", s("pending"))]));
    r.last_refreshed = hours_ago(25);
    let report = evaluate_vpc_fleet(&[r], Pillar::Resilience, now());
    assert_eq!(codes(&report), vec![REASON_INV_STALE_DATA, REASON_RES_NOT_AVAILABLE]);
    assert_eq!(report.findings[1].message, "VPC vpc-new is in state 'pending'");
    assert_eq!(report.stale_resources, 1);
    assert_eq!(report.score, 86);
}
