#![allow(dead_code)]
use backend::inventory::storagegateway::{
    REASON_COST_NO_TAGS, REASON_INV_STALE_DATA, REASON_RES_GATEWAY_NOT_ACTIVE, REASON_RES_OPERATIONAL_STATE_DATA_NOT_COLLECTED, REASON_SEC_POSTURE_DATA_NOT_COLLECTED, RESOURCE_TYPE, evaluate_storagegateway_fleet,
};
use backend::inventory::types::{AwsResource, Pillar, PillarReport, Severity};
use backend::json::{ArrayBuilder, JsonNumber, JsonValue, ObjectBuilder};
use backend::time::Timestamp;

const ACCOUNT: &str = "123456789012";
const NOW: i64 = 1_781_049_600; // 2026-06-10T00:00:00Z

fn now() -> Timestamp {
    Timestamp::from_unix(NOW, 0).unwrap()
}

fn hours_ago(h: i64) -> Timestamp {
    Timestamp::from_unix(NOW - h * 3600, 0).unwrap()
}

fn s(v: &str) -> JsonValue {
    JsonValue::Str(v.to_string())
}

fn n(v: u64) -> JsonValue {
    JsonValue::Number(JsonNumber::PosInt(v))
}

fn b(v: bool) -> JsonValue {
    JsonValue::Bool(v)
}

fn arr(items: Vec<JsonValue>) -> JsonValue {
    let mut a = ArrayBuilder::new();
    for v in items {
        a = a.item(v);
    }
    a.build()
}

fn obj(pairs: Vec<(&str, JsonValue)>) -> JsonValue {
    let mut o = ObjectBuilder::new();
    for (k, v) in pairs {
        o = o.field(k, v);
    }
    o.build()
}

/// `base` with the fields of `overrides` replaced or added and the fields
/// named in `removed` left out.
fn with(base: Vec<(&'static str, JsonValue)>, overrides: Vec<(&'static str, JsonValue)>, removed: &[&str]) -> JsonValue {
    let mut fields = base;
    for (k, v) in overrides {
        match fields.iter().position(|(name, _)| *name == k) {
            Some(i) => fields[i].1 = v,
            None => fields.push((k, v)),
        }
    }
    fields.retain(|(k, _)| !removed.contains(k));
    obj(fields)
}

fn codes(report: &PillarReport) -> Vec<&str> {
    report.findings.iter().map(|f| f.reason_code.as_str()).collect()
}

fn fixture(resource_id: &str, tags: JsonValue, resource_data: JsonValue) -> AwsResource {
    AwsResource {
        account_id: ACCOUNT.to_string(),
        profile: None,
        region: "us-east-1".to_string(),
        resource_type: RESOURCE_TYPE.to_string(),
        resource_id: resource_id.to_string(),
        arn: format!("arn:aws:storagegateway:us-east-1:123456789012:gateway/{}", resource_id),
        name: Some(resource_id.to_string()),
        tags,
        resource_data,
        last_refreshed: hours_ago(1),
    }
}

fn healthy_fields() -> Vec<(&'static str, JsonValue)> {
    vec![
        ("GatewayId", s("sgw-12A3456B")),
        ("GatewayName", s("backup-gw")),
        ("GatewayARN", s("arn:aws:storagegateway:us-east-1:123456789012:gateway/sgw-12A3456B")),
        ("GatewayType", s("FILE_S3")),
        ("GatewayOperationalState", s("ACTIVE")),
    ]
}

fn healthy_data() -> JsonValue {
    with(healthy_fields(), vec![], &[])
}

fn storage_tags() -> JsonValue {
    obj(vec![("team", s("storage"))])
}

#[test]
fn cost_flags_untagged_gateway() {
    let r = fixture("sgw-untagged", obj(vec![]), healthy_data());
    let report = evaluate_storagegateway_fleet(&[r], Pillar::Cost, now());
    assert_eq!(codes(&report), vec![REASON_COST_NO_TAGS]);
}

#[test]
fn storagegateway_pillar_evaluator_security_reports_posture_data_gap() {
    let r = fixture("sgw-sec", storage_tags(), healthy_data());
    let report = evaluate_storagegateway_fleet(&[r], Pillar::Security, now());
    assert_eq!(codes(&report), vec![REASON_SEC_POSTURE_DATA_NOT_COLLECTED]);
}

#[test]
fn resilience_flags_gateway_not_active() {
    let data = with(healthy_fields(), vec![("GatewayOperationalState", s("DISABLED"))], &[]);
    let r = fixture("sgw-down", storage_tags(), data);
    let report = evaluate_storagegateway_fleet(&[r], Pillar::Resilience, now());
    assert_eq!(codes(&report), vec![REASON_RES_GATEWAY_NOT_ACTIVE]);
}

#[test]
fn resilience_reports_gap_when_state_not_collected() {
    let data = with(healthy_fields(), vec![("GatewayOperationalState", s(""))], &[]);
    let r = fixture("sgw-gap", storage_tags(), data);
    let report = evaluate_storagegateway_fleet(&[r], Pillar::Resilience, now());
    assert_eq!(codes(&report), vec![REASON_RES_OPERATIONAL_STATE_DATA_NOT_COLLECTED]);
}

#[test]
fn storagegateway_pillar_evaluator_stale_inventory_is_flagged() {
    let mut r = fixture("sgw-stale", storage_tags(), healthy_data());
    r.last_refreshed = hours_ago(48);
    let report = evaluate_storagegateway_fleet(&[r], Pillar::Resilience, now());
    assert_eq!(report.stale_resources, 1);
    assert!(report.findings.iter().any(|f| f.reason_code == REASON_INV_STALE_DATA));
}

#[test]
fn non_storagegateway_rows_are_skipped() {
    let mut r = fixture("vol-other", obj(vec![]), obj(vec![]));
    r.resource_type = "StorageGatewayVolume".to_string();
    let report = evaluate_storagegateway_fleet(&[r], Pillar::Cost, now());
    assert_eq!(report.resources_evaluated, 0);
    assert!(report.findings.is_empty());
}

#[test]
fn healthy_gateway_passes_cost_and_resilience() {
    let r = fixture("sgw-ok", storage_tags(), healthy_data());
    for pillar in [Pillar::Cost, Pillar::Resilience] {
        let report = evaluate_storagegateway_fleet(std::slice::from_ref(&r), pillar, now());
        assert!(report.findings.is_empty(), "unexpected for {:?}: {:?}", pillar, codes(&report));
        assert_eq!(report.score, 100);
    }
}

#[test]
fn gateway_state_is_trimmed_and_compared_without_case() {
    for state in ["  running ", "Active", "\tACTIVE\n"] {
        let data = with(healthy_fields(), vec![("GatewayOperationalState", s(state))], &[]);
        let r = fixture("sgw-case", storage_tags(), data);
        let report = evaluate_storagegateway_fleet(&[r], Pillar::Resilience, now());
        assert!(report.findings.is_empty(), "state {:?}: {:?}", state, codes(&report));
    }
    let data = with(healthy_fields(), vec![("GatewayOperationalState", s("   "))], &[]);
    let r = fixture("sgw-blank", storage_tags(), data);
    let report = evaluate_storagegateway_fleet(&[r], Pillar::Resilience, now());
    assert_eq!(codes(&report), vec![REASON_RES_OPERATIONAL_STATE_DATA_NOT_COLLECTED]);
}

#[test]
fn inactive_gateway_finding_is_high_and_names_the_trimmed_state() {
    let data = with(healthy_fields(), vec![("GatewayOperationalState", s(" SHUTDOWN "))], &[]);
    let r = fixture("sgw-off", storage_tags(), data);
    let report = evaluate_storagegateway_fleet(&[r], Pillar::Resilience, now());
    let f = &report.findings[0];
    assert!(matches!(f.severity, Severity::High));
    assert_eq!(
        f.message,
        "Gateway sgw-off is in operational state 'SHUTDOWN' (not active/running); attached file shares and volumes may be unavailable"
    );
    assert_eq!(report.score, 85);
}
