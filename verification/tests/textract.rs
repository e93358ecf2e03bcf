#![allow(dead_code)]
use backend::inventory::textract::{
    REASON_COST_CUSTOM_ADAPTER_VERSION, REASON_COST_NO_TAGS, REASON_INV_STALE_DATA, REASON_RES_COLLECTION_ERRORS, REASON_RES_FAILED_ADAPTER_VERSION, REASON_RES_INACTIVE_ADAPTER, REASON_RES_INCOMPLETE_ADAPTER_VERSION, REASON_SEC_ADAPTER_VERSION_WITHOUT_KMS, REASON_SEC_OUTPUT_CONFIG_MISSING, REASON_SEC_OUTPUT_WITHOUT_KMS, RESOURCE_TYPE, evaluate_textract_fleet,
};
use backend::inventory::types::{AwsResource, Pillar, PillarReport, Severity};
use backend::json::{ArrayBuilder, JsonNumber, JsonValue, ObjectBuilder};
use backend::time::Timestamp;

const ACCOUNT: &str = "123456789012";
const NOW: i64 = 1_781_049_600; // 2026-06-10T00:00:00Z

fn now() -> Timestamp {
    Timestamp::from_unix(NOW, 0).unwrap()
}

fn hours_ago(h: i64) -> Timestamp {
    Timestamp::from_unix(NOW - h * 3600, 0).unwrap()
}

fn s(v: &str) -> JsonValue {
    JsonValue::Str(v.to_string())
}

fn n(v: u64) -> JsonValue {
    JsonValue::Number(JsonNumber::PosInt(v))
}

fn b(v: bool) -> JsonValue {
    JsonValue::Bool(v)
}

fn arr(items: Vec<JsonValue>) -> JsonValue {
    let mut a = ArrayBuilder::new();
    for v in items {
        a = a.item(v);
    }
    a.build()
}

fn obj(pairs: Vec<(&str, JsonValue)>) -> JsonValue {
    let mut o = ObjectBuilder::new();
    for (k, v) in pairs {
        o = o.field(k, v);
    }
    o.build()
}

/// `base` with the fields of `overrides` replaced or added and the fields
/// named in `removed` left out.
fn with(base: Vec<(&'static str, JsonValue)>, overrides: Vec<(&'static str, JsonValue)>, removed: &[&str]) -> JsonValue {
    let mut fields = base;
    for (k, v) in overrides {
        match fields.iter().position(|(name, _)| *name == k) {
            Some(i) => fields[i].1 = v,
            None => fields.push((k, v)),
        }
    }
    fields.retain(|(k, _)| !removed.contains(k));
    obj(fields)
}

fn codes(report: &PillarReport) -> Vec<&str> {
    report.findings.iter().map(|f| f.reason_code.as_str()).collect()
}

fn fixture(resource_id: &str, tags: JsonValue, resource_data: JsonValue) -> AwsResource {
    AwsResource {
        account_id: ACCOUNT.to_string(),
        profile: None,
        region: "us-east-1".to_string(),
        resource_type: RESOURCE_TYPE.to_string(),
        resource_id: resource_id.to_string(),
        arn: format!("arn:aws:textract:us-east-1:123456789012:{}", resource_id),
        name: Some(resource_id.to_string()),
        tags,
        resource_data,
        last_refreshed: hours_ago(1),
    }
}

fn row(resource_id: &str, resource_data: JsonValue) -> AwsResource {
    let mut r = fixture(resource_id, obj(vec![]), resource_data);
    r.profile = Some("test".to_string());
    r.last_refreshed = hours_ago(26);
    r
}

fn fleet() -> Vec<AwsResource> {
    vec![
        row(
            "textract:123456789012",
            obj(vec![
                ("resource_kind", s("account_summary")),
                ("resource_count", n(4)),
                ("collection_error_count", n(1)),
                ("collection_errors", arr(vec![obj(vec![("operation", s("ListAdapterVersions")), ("error", s("denied"))])])),
                ("resources_by_kind", obj(vec![("adapter", n(2)), ("adapter_version", n(2))])),
                ("inactive_adapter_count", n(1)),
                ("failed_adapter_version_count", n(1)),
                ("incomplete_adapter_version_count", n(1)),
                ("adapter_version_without_kms_count", n(2)),
                ("output_without_kms_count", n(1)),
                ("output_config_missing_count", n(1)),
            ]),
        ),
        row(
            "adapter/invoices",
            obj(vec![
                ("resource_kind", s("adapter")),
                ("adapter_id", s("adapter-a")),
                ("adapter_name", s("invoices")),
                ("status", s("INACTIVE")),
                ("feature_types", arr(vec![s("FORMS")])),
                ("feature_type_count", n(1)),
            ]),
        ),
        row(
            "adapter_version/adapter-a/1",
            obj(vec![
                ("resource_kind", s("adapter_version")),
                ("adapter_id", s("adapter-a")),
                ("adapter_version", s("1")),
                ("status", s("CREATION_ERROR")),
                ("status_message", s("training failed")),
                ("feature_types", arr(vec![s("FORMS")])),
                ("feature_type_count", n(1)),
                ("output_configured", b(true)),
                ("output_kms_configured", b(false)),
                ("output_s3_bucket", s("textract-output")),
            ]),
        ),
        row(
            "adapter_version/adapter-a/2",
            obj(vec![
                ("resource_kind", s("adapter_version")),
                ("adapter_id", s("adapter-a")),
                ("adapter_version", s("2")),
                ("status", s("AT_RISK")),
                ("status_message", s("quality degraded")),
                ("feature_types", arr(vec![s("FORMS")])),
                ("feature_type_count", n(1)),
                ("output_configured", b(false)),
                ("output_kms_configured", b(false)),
            ]),
        ),
    ]
}

#[test]
fn evaluates_textract_inventory_findings() {
    let resources = fleet();

    let cost = evaluate_textract_fleet(&resources, Pillar::Cost, now());
    assert_eq!(cost.resources_evaluated, 4);
    assert_eq!(cost.stale_resources, 4);
    assert!(cost.findings.iter().any(|finding| finding.reason_code == REASON_COST_NO_TAGS));
    assert!(cost.findings.iter().any(|finding| finding.reason_code == REASON_COST_CUSTOM_ADAPTER_VERSION));

    let resilience = evaluate_textract_fleet(&resources, Pillar::Resilience, now());
    assert!(resilience.findings.iter().any(|finding| finding.reason_code == REASON_RES_COLLECTION_ERRORS));
    assert!(resilience.findings.iter().any(|finding| finding.reason_code == REASON_RES_INACTIVE_ADAPTER));
    assert!(resilience.findings.iter().any(|finding| finding.reason_code == REASON_RES_FAILED_ADAPTER_VERSION));
    assert!(resilience.findings.iter().any(|finding| finding.reason_code == REASON_RES_INCOMPLETE_ADAPTER_VERSION));

    let security = evaluate_textract_fleet(&resources, Pillar::Security, now());
    assert!(security.findings.iter().any(|finding| finding.reason_code == REASON_SEC_ADAPTER_VERSION_WITHOUT_KMS));
    assert!(security.findings.iter().any(|finding| finding.reason_code == REASON_SEC_OUTPUT_WITHOUT_KMS));
    assert!(security.findings.iter().any(|finding| finding.reason_code == REASON_SEC_OUTPUT_CONFIG_MISSING));
}

#[test]
fn textract_resilience_findings_come_in_row_order() {
    let report = evaluate_textract_fleet(&fleet(), Pillar::Resilience, now());
    assert_eq!(
        codes(&report),
        vec![
            REASON_INV_STALE_DATA,
            REASON_RES_COLLECTION_ERRORS,
            REASON_RES_INACTIVE_ADAPTER,
            REASON_RES_FAILED_ADAPTER_VERSION,
            REASON_RES_INCOMPLETE_ADAPTER_VERSION,
            REASON_INV_STALE_DATA,
            REASON_RES_INACTIVE_ADAPTER,
            REASON_INV_STALE_DATA,
            REASON_RES_FAILED_ADAPTER_VERSION,
            REASON_INV_STALE_DATA,
            REASON_RES_INCOMPLETE_ADAPTER_VERSION,
        ]
    );
    assert_eq!(report.findings[1].message, "Textract account textract:123456789012 had 1 inventory collection errors");
    assert_eq!(report.findings[3].message, "Textract account textract:123456789012 has 1 Textract failed adapter versions");
    assert_eq!(report.score, 100 - 4 * 7 - 7 - 7 - 15 - 7 - 7 - 15 - 7);
}

#[test]
fn textract_summary_counts_name_their_key_in_evidence() {
    let report = evaluate_textract_fleet(&fleet(), Pillar::Security, now());
    let f = report.findings.iter().find(|f| f.reason_code == REASON_SEC_ADAPTER_VERSION_WITHOUT_KMS).unwrap();
    assert_eq!(f.message, "Textract account textract:123456789012 has 2 Textract adapter versions without KMS keys");
    assert_eq!(f.evidence.get("adapter_version_without_kms_count").and_then(|v| v.as_u64()), Some(2));
    assert!(f.evidence.get("resources_by_kind").is_some());
}

#[test]
fn tagged_adapter_in_any_case_is_not_flagged_for_cost() {
    let mut r = row("adapter/receipts", obj(vec![("resource_kind", s("adapter")), ("status", s("Active"))]));
    r.tags = obj(vec![("Cost-Center", s("ml"))]);
    r.last_refreshed = hours_ago(1);
    let report = evaluate_textract_fleet(std::slice::from_ref(&r), Pillar::Cost, now());
    assert!(report.findings.is_empty(), "{:?}", codes(&report));
    let report = evaluate_textract_fleet(std::slice::from_ref(&r), Pillar::Resilience, now());
    assert!(report.findings.is_empty(), "{:?}", codes(&report));
}

#[test]
fn completed_adapter_version_with_encrypted_output_only_costs() {
    let mut r = row(
        "adapter_version/adapter-b/3",
        obj(vec![
            ("resource_kind", s("adapter_version")),
            ("status", s("Succeeded")),
            ("kms_key_id", s("arn:aws:kms:us-east-1:123456789012:key/k")),
            ("output_configured", b(true)),
            ("output_kms_configured", b(true)),
        ]),
    );
    r.last_refreshed = hours_ago(1);
    for pillar in [Pillar::Resilience, Pillar::Security] {
        let report = evaluate_textract_fleet(std::slice::from_ref(&r), pillar, now());
        assert!(report.findings.is_empty(), "{:?}: {:?}", pillar, codes(&report));
    }
    let report = evaluate_textract_fleet(std::slice::from_ref(&r), Pillar::Cost, now());
    assert_eq!(codes(&report), vec![REASON_COST_CUSTOM_ADAPTER_VERSION]);
    assert!(matches!(report.findings[0].severity, Severity::Low));
}

#[test]
fn adapter_version_without_status_is_neither_failed_nor_incomplete() {
    let mut r = row("adapter_version/adapter-c/1", obj(vec![("resource_kind", s("adapter_version"))]));
    r.last_refreshed = hours_ago(1);
    let report = evaluate_textract_fleet(&[r], Pillar::Resilience, now());
    assert!(report.findings.is_empty(), "{:?}", codes(&report));
}
