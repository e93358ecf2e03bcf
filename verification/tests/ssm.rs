use backend::inventory::ssm::{
    REASON_COST_AGING_NEVER_REVIEWED, REASON_COST_CREATED_DATE_DATA_NOT_COLLECTED, REASON_COST_NO_TAGS, REASON_INV_STALE_DATA, REASON_RES_LEGACY_SCHEMA_VERSION, REASON_RES_SCHEMA_DATA_NOT_COLLECTED, REASON_RES_TEXT_FORMAT_DOCUMENT, REASON_SEC_DOCUMENT_SHARED_PUBLICLY, REASON_SEC_OWNER_DATA_NOT_COLLECTED, REASON_SEC_REVIEW_NOT_APPROVED, REASON_SEC_SHARING_DATA_NOT_COLLECTED, REASON_SEC_THIRD_PARTY_OWNER, RESOURCE_TYPE, evaluate_ssm_fleet,
};
use backend::inventory::types::{AwsResource, Pillar, PillarReport, Severity};
use backend::json::{ArrayBuilder, JsonValue, ObjectBuilder};
use backend::time::Timestamp;

const ACCOUNT: &str = "123456789012";
const NOW: i64 = 1_781_049_600; // 2026-06-10T00:00:00Z

fn now() -> Timestamp {
    Timestamp::from_unix(NOW, 0).unwrap()
}

fn hours_ago(h: i64) -> Timestamp {
    Timestamp::from_unix(NOW - h * 3600, 0).unwrap()
}

fn s(v: &str) -> JsonValue {
    JsonValue::Str(v.to_string())
}

fn arr(items: Vec<JsonValue>) -> JsonValue {
    let mut a = ArrayBuilder::new();
    for v in items {
        a = a.item(v);
    }
    a.build()
}

fn obj(pairs: Vec<(&str, JsonValue)>) -> JsonValue {
    let mut o = ObjectBuilder::new();
    for (k, v) in pairs {
        o = o.field(k, v);
    }
    o.build()
}

fn team_tags() -> JsonValue {
    obj(vec![("team", s("sre"))])
}

fn fixture(resource_id: &str, tags: JsonValue, resource_data: JsonValue) -> AwsResource {
    AwsResource {
        account_id: ACCOUNT.to_string(),
        profile: None,
        region: "us-east-1".to_string(),
        resource_type: RESOURCE_TYPE.to_string(),
        resource_id: resource_id.to_string(),
        arn: format!("arn:aws:ssm:us-east-1:{}:document/{}", ACCOUNT, resource_id),
        name: Some(resource_id.to_string()),
        tags,
        resource_data,
        last_refreshed: hours_ago(1),
    }
}

/// The healthy document data, with the fields of `overrides` replaced or
/// added and the fields named in `removed` left out.
fn document_data(overrides: Vec<(&str, JsonValue)>, removed: &[&str]) -> JsonValue {
    let mut fields: Vec<(&str, JsonValue)> = vec![
        ("name", s("doc-ok")),
        ("owner", s(ACCOUNT)),
        ("document_type", s("Command")),
        ("document_format", s("YAML")),
        ("document_version", s("3")),
        ("schema_version", s("2.2")),
        ("platform_types", arr(vec![s("Linux")])),
        ("created_date", s("2026-05-01T00:00:00Z")),
        ("review_status", s("APPROVED")),
        ("shared_account_ids", arr(vec![])),
        ("shared_publicly", JsonValue::Bool(false)),
    ];
    for (k, v) in overrides {
        match fields.iter().position(|(name, _)| *name == k) {
            Some(i) => fields[i].1 = v,
            None => fields.push((k, v)),
        }
    }
    fields.retain(|(k, _)| !removed.contains(k));
    obj(fields)
}

fn healthy_data() -> JsonValue {
    document_data(vec![], &[])
}

fn codes(report: &PillarReport) -> Vec<&str> {
    report.findings.iter().map(|f| f.reason_code.as_str()).collect()
}

#[test]
fn cost_flags_untagged_document() {
    let r = fixture("doc-untagged", obj(vec![]), healthy_data());
    let report = evaluate_ssm_fleet(&[r], Pillar::Cost, now());
    assert_eq!(codes(&report), vec![REASON_COST_NO_TAGS]);
}

#[test]
fn cost_flags_aging_never_reviewed_document() {
    let data = document_data(vec![("review_status", s("NOT_REVIEWED")), ("created_date", s("2023-01-01T00:00:00Z"))], &[]);
    let r = fixture("doc-old", team_tags(), data);
    let report = evaluate_ssm_fleet(&[r], Pillar::Cost, now());
    assert_eq!(codes(&report), vec![REASON_COST_AGING_NEVER_REVIEWED]);
}

#[test]
fn cost_does_not_flag_recent_never_reviewed_document() {
    let data = document_data(vec![("review_status", s("NOT_REVIEWED")), ("created_date", s("2026-05-15T00:00:00Z"))], &[]);
    let r = fixture("doc-new", team_tags(), data);
    let report = evaluate_ssm_fleet(&[r], Pillar::Cost, now());
    assert!(report.findings.is_empty(), "unexpected: {:?}", codes(&report));
}

#[test]
fn cost_does_not_flag_old_document_without_review_workflow() {
    // Most documents never report review_status; its absence means the
    // review workflow does not apply, not that the document is cruft.
    let data = document_data(vec![("created_date", s("2020-01-01T00:00:00Z"))], &["review_status"]);
    let r = fixture("doc-noreview", team_tags(), data);
    let report = evaluate_ssm_fleet(&[r], Pillar::Cost, now());
    assert!(report.findings.is_empty(), "unexpected: {:?}", codes(&report));
}

#[test]
fn cost_reports_gap_when_created_date_missing_for_never_reviewed_document() {
    let data = document_data(vec![("review_status", s("NOT_REVIEWED"))], &["created_date"]);
    let r = fixture("doc-nodate", team_tags(), data);
    let report = evaluate_ssm_fleet(&[r], Pillar::Cost, now());
    assert_eq!(codes(&report), vec![REASON_COST_CREATED_DATE_DATA_NOT_COLLECTED]);
}

#[test]
fn resilience_flags_legacy_schema_command_document() {
    let data = document_data(vec![("schema_version", s("1.2"))], &[]);
    let r = fixture("doc-legacy", team_tags(), data);
    let report = evaluate_ssm_fleet(&[r], Pillar::Resilience, now());
    assert_eq!(codes(&report), vec![REASON_RES_LEGACY_SCHEMA_VERSION]);
    assert!(matches!(report.findings[0].severity, Severity::Medium));
}

#[test]
fn resilience_skips_schema_check_for_non_command_documents() {
    // Automation documents legitimately use schema 0.3.
    let data = document_data(vec![("document_type", s("Automation")), ("schema_version", s("0.3"))], &[]);
    let r = fixture("doc-automation", team_tags(), data);
    let report = evaluate_ssm_fleet(&[r], Pillar::Resilience, now());
    assert!(report.findings.is_empty(), "unexpected: {:?}", codes(&report));
}

#[test]
fn resilience_reports_gap_when_schema_missing_for_command_document() {
    let data = document_data(vec![], &["schema_version"]);
    let r = fixture("doc-noschema", team_tags(), data);
    let report = evaluate_ssm_fleet(&[r], Pillar::Resilience, now());
    assert_eq!(codes(&report), vec![REASON_RES_SCHEMA_DATA_NOT_COLLECTED]);
}

#[test]
fn resilience_flags_text_format_document() {
    let data = document_data(vec![("document_format", s("TEXT"))], &[]);
    let r = fixture("doc-text", team_tags(), data);
    let report = evaluate_ssm_fleet(&[r], Pillar::Resilience, now());
    assert_eq!(codes(&report), vec![REASON_RES_TEXT_FORMAT_DOCUMENT]);
}

#[test]
fn security_flags_publicly_shared_document_as_high() {
    let data = document_data(vec![("shared_publicly", JsonValue::Bool(true)), ("shared_account_ids", arr(vec![s("all")]))], &[]);
    let r = fixture("doc-public", team_tags(), data);
    let report = evaluate_ssm_fleet(&[r], Pillar::Security, now());
    assert_eq!(codes(&report), vec![REASON_SEC_DOCUMENT_SHARED_PUBLICLY]);
    assert!(matches!(report.findings[0].severity, Severity::High));
}

#[test]
fn security_reports_gap_when_sharing_not_collected() {
    let data = document_data(vec![], &["shared_publicly", "shared_account_ids"]);
    let r = fixture("doc-sharegap", team_tags(), data);
    let report = evaluate_ssm_fleet(&[r], Pillar::Security, now());
    assert_eq!(codes(&report), vec![REASON_SEC_SHARING_DATA_NOT_COLLECTED]);
}

#[test]
fn security_flags_pending_and_rejected_review_statuses() {
    for status in ["PENDING", "REJECTED"] {
        let data = document_data(vec![("review_status", s(status))], &[]);
        let r = fixture("doc-review", team_tags(), data);
        let report = evaluate_ssm_fleet(&[r], Pillar::Security, now());
        assert_eq!(codes(&report), vec![REASON_SEC_REVIEW_NOT_APPROVED], "status {}", status);
    }
}

#[test]
fn security_does_not_flag_not_reviewed_status_as_review_violation() {
    let data = document_data(vec![("review_status", s("NOT_REVIEWED"))], &[]);
    let r = fixture("doc-notreviewed", team_tags(), data);
    let report = evaluate_ssm_fleet(&[r], Pillar::Security, now());
    assert!(report.findings.is_empty(), "unexpected: {:?}", codes(&report));
}

#[test]
fn security_flags_third_party_owner() {
    let data = document_data(vec![("owner", s("999999999999"))], &[]);
    let r = fixture("doc-thirdparty", team_tags(), data);
    let report = evaluate_ssm_fleet(&[r], Pillar::Security, now());
    assert_eq!(codes(&report), vec![REASON_SEC_THIRD_PARTY_OWNER]);
}

#[test]
fn security_reports_gap_when_owner_missing() {
    let data = document_data(vec![], &["owner"]);
    let r = fixture("doc-noowner", team_tags(), data);
    let report = evaluate_ssm_fleet(&[r], Pillar::Security, now());
    assert_eq!(codes(&report), vec![REASON_SEC_OWNER_DATA_NOT_COLLECTED]);
}

#[test]
fn ssm_pillar_evaluator_stale_inventory_is_flagged() {
    let mut r = fixture("doc-stale", team_tags(), healthy_data());
    r.last_refreshed = hours_ago(48);
    let report = evaluate_ssm_fleet(&[r], Pillar::Resilience, now());
    assert_eq!(report.stale_resources, 1);
    assert!(codes(&report).contains(&REASON_INV_STALE_DATA));
}

#[test]
fn non_ssm_resources_are_skipped_and_not_counted() {
    let mut r = fixture("key-1", obj(vec![]), obj(vec![]));
    r.resource_type = "KmsKey".to_string();
    let report = evaluate_ssm_fleet(&[r], Pillar::Cost, now());
    assert_eq!(report.resources_evaluated, 0);
    assert!(report.findings.is_empty());
}

#[test]
fn healthy_document_passes_all_pillars() {
    let r = fixture("doc-ok", team_tags(), healthy_data());
    for pillar in [Pillar::Cost, Pillar::Security, Pillar::Resilience] {
        let report = evaluate_ssm_fleet(std::slice::from_ref(&r), pillar, now());
        assert!(report.findings.is_empty(), "unexpected for {:?}: {:?}", pillar, codes(&report));
        assert_eq!(report.score, 100);
    }
}

#[test]
fn ssm_findings_carry_resource_identity_and_evidence() {
    let data = document_data(vec![("owner", s("999999999999"))], &[]);
    let r = fixture("doc-thirdparty", team_tags(), data);
    let report = evaluate_ssm_fleet(&[r], Pillar::Security, now());
    let f = &report.findings[0];
    assert_eq!(f.resource_id, "doc-thirdparty");
    assert_eq!(f.arn, "arn:aws:ssm:us-east-1:123456789012:document/doc-thirdparty");
    assert_eq!(
        f.message,
        "SSM document doc-thirdparty is owned by 999999999999 rather than account 123456789012; third-party documents must be reviewed before execution"
    );
    assert_eq!(f.evidence.get("owner").and_then(|v| v.as_str()).map(|t| t.as_str()), Some("999999999999"));
    assert_eq!(report.score, 93);
}
