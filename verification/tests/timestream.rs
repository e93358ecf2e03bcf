#![allow(dead_code)]
use backend::inventory::timestream::{
    REASON_COST_LONG_MEMORY_RETENTION, REASON_COST_NO_TAGS, REASON_INV_STALE_DATA, REASON_RES_MAGNETIC_STORE_DISABLED, REASON_RES_TABLE_NOT_ACTIVE, REASON_SEC_NO_CUSTOMER_KMS, RESOURCE_TYPE, evaluate_timestream_fleet,
};
use backend::inventory::types::{AwsResource, Pillar, PillarReport, Severity};
use backend::json::{ArrayBuilder, JsonNumber, JsonValue, ObjectBuilder};
use backend::time::Timestamp;

const ACCOUNT: &str = "123456789012";
const NOW: i64 = 1_781_049_600; // 2026-06-10T00:00:00Z

fn now() -> Timestamp {
    Timestamp::from_unix(NOW, 0).unwrap()
}

fn hours_ago(h: i64) -> Timestamp {
    Timestamp::from_unix(NOW - h * 3600, 0).unwrap()
}

fn s(v: &str) -> JsonValue {
    JsonValue::Str(v.to_string())
}

fn n(v: u64) -> JsonValue {
    JsonValue::Number(JsonNumber::PosInt(v))
}

fn b(v: bool) -> JsonValue {
    JsonValue::Bool(v)
}

fn arr(items: Vec<JsonValue>) -> JsonValue {
    let mut a = ArrayBuilder::new();
    for v in items {
        a = a.item(v);
    }
    a.build()
}

fn obj(pairs: Vec<(&str, JsonValue)>) -> JsonValue {
    let mut o = ObjectBuilder::new();
    for (k, v) in pairs {
        o = o.field(k, v);
    }
    o.build()
}

/// `base` with the fields of `overrides` replaced or added and the fields
/// named in `removed` left out.
fn with(base: Vec<(&'static str, JsonValue)>, overrides: Vec<(&'static str, JsonValue)>, removed: &[&str]) -> JsonValue {
    let mut fields = base;
    for (k, v) in overrides {
        match fields.iter().position(|(name, _)| *name == k) {
            Some(i) => fields[i].1 = v,
            None => fields.push((k, v)),
        }
    }
    fields.retain(|(k, _)| !removed.contains(k));
    obj(fields)
}

fn codes(report: &PillarReport) -> Vec<&str> {
    report.findings.iter().map(|f| f.reason_code.as_str()).collect()
}

fn fixture(resource_id: &str, tags: JsonValue, resource_data: JsonValue) -> AwsResource {
    AwsResource {
        account_id: ACCOUNT.to_string(),
        profile: None,
        region: "us-east-1".to_string(),
        resource_type: RESOURCE_TYPE.to_string(),
        resource_id: resource_id.to_string(),
        arn: format!("arn:aws:timestream:us-east-1:123456789012:table/{}", resource_id),
        name: Some(resource_id.to_string()),
        tags,
        resource_data,
        last_refreshed: hours_ago(1),
    }
}

fn table(resource_data: JsonValue, tags: JsonValue) -> AwsResource {
    let mut r = fixture("metrics/events", tags, resource_data);
    r.arn = "arn:aws:timestream:us-east-1:123456789012:database/metrics/table/events".to_string();
    r.name = Some("events".to_string());
    r
}

fn healthy() -> JsonValue {
    obj(vec![
        ("table_status", s("ACTIVE")),
        ("memory_retention_hours", n(12)),
        ("magnetic_store_writes_enabled", b(true)),
        ("kms_key_id", s("arn:aws:kms:us-east-1:123456789012:key/k")),
    ])
}

#[test]
fn evaluates_timestream_inventory_findings() {
    let resources = vec![table(
        obj(vec![
            ("table_status", s("DELETING")),
            ("memory_retention_hours", n(72)),
            ("magnetic_store_writes_enabled", b(false)),
            ("kms_key_id", JsonValue::Null),
        ]),
        obj(vec![]),
    )];

    let cost = evaluate_timestream_fleet(&resources, Pillar::Cost, now());
    assert_eq!(cost.resources_evaluated, 1);
    assert!(cost.findings.iter().any(|f| f.reason_code == REASON_COST_NO_TAGS));
    assert!(cost.findings.iter().any(|f| f.reason_code == REASON_COST_LONG_MEMORY_RETENTION));

    let resilience = evaluate_timestream_fleet(&resources, Pillar::Resilience, now());
    assert!(resilience.findings.iter().any(|f| f.reason_code == REASON_RES_TABLE_NOT_ACTIVE));
    assert!(resilience.findings.iter().any(|f| f.reason_code == REASON_RES_MAGNETIC_STORE_DISABLED));

    let security = evaluate_timestream_fleet(&resources, Pillar::Security, now());
    assert!(security.findings.iter().any(|f| f.reason_code == REASON_SEC_NO_CUSTOMER_KMS));
}

#[test]
fn healthy_tagged_table_passes_every_pillar() {
    let r = table(healthy(), obj(vec![("project", s("metrics"))]));
    for pillar in [Pillar::Cost, Pillar::Resilience, Pillar::Security, Pillar::Performance] {
        let report = evaluate_timestream_fleet(std::slice::from_ref(&r), pillar, now());
        assert!(report.findings.is_empty(), "{:?}: {:?}", pillar, codes(&report));
        assert_eq!(report.score, 100);
    }
}

#[test]
fn long_retention_message_and_evidence() {
    let data = obj(vec![("table_status", s("ACTIVE")), ("memory_retention_hours", n(25))]);
    let r = table(data, obj(vec![("owner", s("data"))]));
    let report = evaluate_timestream_fleet(&[r], Pillar::Cost, now());
    assert_eq!(codes(&report), vec![REASON_COST_LONG_MEMORY_RETENTION]);
    let f = &report.findings[0];
    assert_eq!(
        f.message,
        "Timestream table metrics/events keeps 25 hours in memory store; long memory retention can increase hot-tier cost"
    );
    assert_eq!(f.evidence.get("recommended_max_hours").and_then(|v| v.as_i64()), Some(24));
}

#[test]
fn retention_of_exactly_a_day_is_not_flagged() {
    let data = obj(vec![("memory_retention_hours", n(24))]);
    let r = table(data, obj(vec![("team", s("data"))]));
    let report = evaluate_timestream_fleet(&[r], Pillar::Cost, now());
    assert!(report.findings.is_empty(), "{:?}", codes(&report));
}

#[test]
fn missing_status_is_a_medium_gap_and_inactive_status_is_high() {
    let r = table(obj(vec![]), obj(vec![]));
    let report = evaluate_timestream_fleet(&[r], Pillar::Resilience, now());
    assert_eq!(codes(&report), vec![REASON_RES_TABLE_NOT_ACTIVE]);
    assert!(matches!(report.findings[0].severity, Severity::Medium));
    assert_eq!(report.findings[0].message, "Timestream table metrics/events status is not collected");
    assert!(matches!(report.findings[0].evidence.get("table_status"), Some(JsonValue::Null)));

    let r = table(obj(vec![("table_status", s("DELETING"))]), obj(vec![]));
    let report = evaluate_timestream_fleet(&[r], Pillar::Resilience, now());
    assert!(matches!(report.findings[0].severity, Severity::High));
    assert_eq!(report.findings[0].message, "Timestream table metrics/events is in DELETING state, not ACTIVE");
}

#[test]
fn blank_kms_key_counts_as_missing() {
    let r = table(obj(vec![("kms_key_id", s("   "))]), obj(vec![]));
    let report = evaluate_timestream_fleet(&[r], Pillar::Security, now());
    assert_eq!(codes(&report), vec![REASON_SEC_NO_CUSTOMER_KMS]);
    assert_eq!(report.findings[0].evidence.get("kms_key_id").and_then(|v| v.as_str()).map(|t| t.as_str()), Some("   "));
}

#[test]
fn stale_table_is_flagged_for_every_pillar() {
    let mut r = table(healthy(), obj(vec![("team", s("data"))]));
    r.last_refreshed = hours_ago(30);
    let report = evaluate_timestream_fleet(&[r], Pillar::Scalability, now());
    assert_eq!(codes(&report), vec![REASON_INV_STALE_DATA]);
    assert_eq!(report.stale_resources, 1);
    assert_eq!(report.score, 93);
}
