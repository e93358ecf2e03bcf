#![allow(dead_code)]
use backend::inventory::waf::{
    REASON_COST_NO_RULES, REASON_COST_NO_TAGS, REASON_INV_STALE_DATA, REASON_RES_CLOUDWATCH_METRICS_DISABLED, REASON_RES_DETAIL_DATA_NOT_COLLECTED, REASON_RES_SAMPLED_REQUESTS_DISABLED, REASON_SEC_LOGGING_DATA_NOT_COLLECTED, REASON_SEC_LOGGING_DISABLED, REASON_SEC_NO_MANAGED_RULE_GROUPS, REASON_SEC_NO_RULES, RESOURCE_TYPE, evaluate_waf_fleet,
};
use backend::inventory::types::{AwsResource, Pillar, PillarReport, Severity};
use backend::json::{ArrayBuilder, JsonNumber, JsonValue, ObjectBuilder};
use backend::time::Timestamp;

const ACCOUNT: &str = "123456789012";
const NOW: i64 = 1_781_049_600; // 2026-06-10T00:00:00Z

fn now() -> Timestamp {
    Timestamp::from_unix(NOW, 0).unwrap()
}

fn hours_ago(h: i64) -> Timestamp {
    Timestamp::from_unix(NOW - h * 3600, 0).unwrap()
}

fn s(v: &str) -> JsonValue {
    JsonValue::Str(v.to_string())
}

fn n(v: u64) -> JsonValue {
    JsonValue::Number(JsonNumber::PosInt(v))
}

fn b(v: bool) -> JsonValue {
    JsonValue::Bool(v)
}

fn arr(items: Vec<JsonValue>) -> JsonValue {
    let mut a = ArrayBuilder::new();
    for v in items {
        a = a.item(v);
    }
    a.build()
}

fn obj(pairs: Vec<(&str, JsonValue)>) -> JsonValue {
    let mut o = ObjectBuilder::new();
    for (k, v) in pairs {
        o = o.field(k, v);
    }
    o.build()
}

/// `base` with the fields of `overrides` replaced or added and the fields
/// named in `removed` left out.
fn with(base: Vec<(&'static str, JsonValue)>, overrides: Vec<(&'static str, JsonValue)>, removed: &[&str]) -> JsonValue {
    let mut fields = base;
    for (k, v) in overrides {
        match fields.iter().position(|(name, _)| *name == k) {
            Some(i) => fields[i].1 = v,
            None => fields.push((k, v)),
        }
    }
    fields.retain(|(k, _)| !removed.contains(k));
    obj(fields)
}

fn codes(report: &PillarReport) -> Vec<&str> {
    report.findings.iter().map(|f| f.reason_code.as_str()).collect()
}

fn fixture(resource_id: &str, tags: JsonValue, resource_data: JsonValue) -> AwsResource {
    AwsResource {
        account_id: ACCOUNT.to_string(),
        profile: None,
        region: "us-east-1".to_string(),
        resource_type: RESOURCE_TYPE.to_string(),
        resource_id: resource_id.to_string(),
        arn: format!("arn:aws:wafv2:us-east-1:123456789012:regional/webacl/{}/{}", resource_id, resource_id),
        name: Some(resource_id.to_string()),
        tags,
        resource_data,
        last_refreshed: hours_ago(1),
    }
}

fn healthy_fields() -> Vec<(&'static str, JsonValue)> {
    vec![
        ("name", s("acl-ok")),
        ("web_acl_id", s("acl-ok")),
        ("arn", s("arn:aws:wafv2:us-east-1:123456789012:regional/webacl/acl-ok/acl-ok")),
        ("scope", s("REGIONAL")),
        ("collected", b(true)),
        ("default_action", s("block")),
        ("rules_count", n(3)),
        ("managed_rule_group_count", n(1)),
        ("capacity", n(125)),
        ("label_namespace", s("awswaf:123456789012:webacl:acl-ok:")),
        ("managed_by_firewall_manager", b(false)),
        ("cloud_watch_metrics_enabled", b(true)),
        ("sampled_requests_enabled", b(true)),
        ("metric_name", s("acl-ok")),
        ("logging_enabled", b(true)),
    ]
}

fn healthy_data() -> JsonValue {
    with(healthy_fields(), vec![], &[])
}

fn sre_tags() -> JsonValue {
    obj(vec![("team", s("sre"))])
}

fn gap_data() -> JsonValue {
    obj(vec![("name", s("acl-gap")), ("scope", s("REGIONAL")), ("collected", b(false)), ("logging_enabled", b(true))])
}

#[test]
fn healthy_web_acl_passes_all_pillars() {
    let r = fixture("acl-ok", sre_tags(), healthy_data());
    for pillar in [Pillar::Cost, Pillar::Security, Pillar::Resilience] {
        let report = evaluate_waf_fleet(std::slice::from_ref(&r), pillar, now());
        assert!(report.findings.is_empty(), "unexpected for {:?}: {:?}", pillar, codes(&report));
        assert_eq!(report.score, 100);
        assert_eq!(report.resources_evaluated, 1);
    }
}

#[test]
fn cost_flags_web_acl_with_zero_rules() {
    let data = with(healthy_fields(), vec![("rules_count", n(0)), ("managed_rule_group_count", n(0))], &[]);
    let r = fixture("acl-empty", sre_tags(), data);
    let report = evaluate_waf_fleet(&[r], Pillar::Cost, now());
    assert_eq!(codes(&report), vec![REASON_COST_NO_RULES]);
}

#[test]
fn cost_flags_untagged_web_acl() {
    let r = fixture("acl-untagged", obj(vec![]), healthy_data());
    let report = evaluate_waf_fleet(&[r], Pillar::Cost, now());
    assert_eq!(codes(&report), vec![REASON_COST_NO_TAGS]);
}

#[test]
fn cost_skips_rule_check_when_detail_not_collected() {
    // Detail gap: rules_count absent. The gap is a resilience finding,
    // not a false cost finding.
    let r = fixture("acl-gap", sre_tags(), gap_data());
    let report = evaluate_waf_fleet(&[r], Pillar::Cost, now());
    assert!(report.findings.is_empty(), "unexpected: {:?}", codes(&report));
}

#[test]
fn security_flags_logging_disabled_as_high() {
    let data = with(healthy_fields(), vec![("logging_enabled", b(false))], &[]);
    let r = fixture("acl-nolog", sre_tags(), data);
    let report = evaluate_waf_fleet(&[r], Pillar::Security, now());
    assert_eq!(codes(&report), vec![REASON_SEC_LOGGING_DISABLED]);
    assert!(matches!(report.findings[0].severity, Severity::High));
}

#[test]
fn security_reports_gap_when_logging_not_collected() {
    let data = with(healthy_fields(), vec![], &["logging_enabled"]);
    let r = fixture("acl-loggap", sre_tags(), data);
    let report = evaluate_waf_fleet(&[r], Pillar::Security, now());
    assert_eq!(codes(&report), vec![REASON_SEC_LOGGING_DATA_NOT_COLLECTED]);
    assert!(matches!(report.findings[0].severity, Severity::Low));
}

#[test]
fn security_flags_zero_rules_as_high_without_managed_group_noise() {
    let data = with(healthy_fields(), vec![("rules_count", n(0)), ("managed_rule_group_count", n(0))], &[]);
    let r = fixture("acl-empty", sre_tags(), data);
    let report = evaluate_waf_fleet(&[r], Pillar::Security, now());
    // Zero rules must not also raise the managed-rule-group finding.
    assert_eq!(codes(&report), vec![REASON_SEC_NO_RULES]);
    assert!(matches!(report.findings[0].severity, Severity::High));
}

#[test]
fn security_flags_missing_managed_rule_groups_when_rules_exist() {
    let data = with(healthy_fields(), vec![("rules_count", n(2)), ("managed_rule_group_count", n(0))], &[]);
    let r = fixture("acl-custom", sre_tags(), data);
    let report = evaluate_waf_fleet(&[r], Pillar::Security, now());
    assert_eq!(codes(&report), vec![REASON_SEC_NO_MANAGED_RULE_GROUPS]);
    assert!(matches!(report.findings[0].severity, Severity::Low));
    assert_eq!(report.findings[0].evidence.get("rules_count").and_then(|v| v.as_u64()), Some(2));
}

#[test]
fn security_skips_rule_checks_when_detail_not_collected() {
    let r = fixture("acl-gap", sre_tags(), gap_data());
    let report = evaluate_waf_fleet(&[r], Pillar::Security, now());
    assert!(report.findings.is_empty(), "unexpected: {:?}", codes(&report));
}

#[test]
fn resilience_flags_cloudwatch_metrics_disabled() {
    let data = with(healthy_fields(), vec![("cloud_watch_metrics_enabled", b(false))], &[]);
    let r = fixture("acl-nometrics", sre_tags(), data);
    let report = evaluate_waf_fleet(&[r], Pillar::Resilience, now());
    assert_eq!(codes(&report), vec![REASON_RES_CLOUDWATCH_METRICS_DISABLED]);
    assert!(matches!(report.findings[0].severity, Severity::Medium));
}

#[test]
fn resilience_flags_sampled_requests_disabled() {
    let data = with(healthy_fields(), vec![("sampled_requests_enabled", b(false))], &[]);
    let r = fixture("acl-nosample", sre_tags(), data);
    let report = evaluate_waf_fleet(&[r], Pillar::Resilience, now());
    assert_eq!(codes(&report), vec![REASON_RES_SAMPLED_REQUESTS_DISABLED]);
}

#[test]
fn resilience_reports_detail_gap_and_skips_visibility_checks() {
    let r = fixture("acl-gap", sre_tags(), gap_data());
    let report = evaluate_waf_fleet(&[r], Pillar::Resilience, now());
    assert_eq!(codes(&report), vec![REASON_RES_DETAIL_DATA_NOT_COLLECTED]);
}

#[test]
fn waf_pillar_evaluator_stale_inventory_is_flagged() {
    let mut r = fixture("acl-stale", sre_tags(), healthy_data());
    r.last_refreshed = hours_ago(48);
    let report = evaluate_waf_fleet(&[r], Pillar::Resilience, now());
    assert_eq!(report.stale_resources, 1);
    assert!(codes(&report).contains(&REASON_INV_STALE_DATA));
}

#[test]
fn non_waf_resources_are_skipped_and_not_counted() {
    let mut r = fixture("queue-1", obj(vec![]), obj(vec![]));
    r.resource_type = "SqsQueue".to_string();
    let report = evaluate_waf_fleet(&[r], Pillar::Cost, now());
    assert_eq!(report.resources_evaluated, 0);
    assert!(report.findings.is_empty());
}

#[test]
fn detail_gap_evidence_carries_the_collected_flag_or_null() {
    let r = fixture("acl-gap", sre_tags(), gap_data());
    let report = evaluate_waf_fleet(&[r], Pillar::Resilience, now());
    assert!(matches!(report.findings[0].evidence.get("collected"), Some(JsonValue::Bool(false))));
    let r = fixture("acl-bare", sre_tags(), obj(vec![]));
    let report = evaluate_waf_fleet(&[r], Pillar::Resilience, now());
    assert!(matches!(report.findings[0].evidence.get("collected"), Some(JsonValue::Null)));
    assert_eq!(
        report.findings[0].message,
        "Detail for Web ACL acl-bare could not be collected; rule and visibility posture cannot be assessed"
    );
}
