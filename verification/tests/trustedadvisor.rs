#![allow(dead_code)]
use backend::inventory::trustedadvisor::{
    REASON_COST_NO_TAGS, REASON_COST_SAVINGS_AVAILABLE, REASON_COST_WARNING_RECOMMENDATIONS, REASON_INV_NO_CHECKS, REASON_INV_STALE_DATA, REASON_RES_RESOURCE_COLLECTION_ERRORS, REASON_RES_SERVICE_LIMIT_WARNINGS, REASON_RES_WARNING_RECOMMENDATIONS, REASON_SEC_ERROR_RESOURCES, REASON_SEC_EXCLUDED_RESOURCES, REASON_SEC_WARNING_RECOMMENDATIONS, RESOURCE_TYPE, SavingsFigure, evaluate_trustedadvisor_fleet, trustedadvisor_fleet_fits,
};
use backend::inventory::types::{AwsResource, Pillar, PillarReport, Severity};
use backend::json::{ArrayBuilder, JsonNumber, JsonValue, ObjectBuilder};
use backend::time::Timestamp;

const ACCOUNT: &str = "123456789012";
const NOW: i64 = 1_781_049_600; // 2026-06-10T00:00:00Z

fn now() -> Timestamp {
    Timestamp::from_unix(NOW, 0).unwrap()
}

fn hours_ago(h: i64) -> Timestamp {
    Timestamp::from_unix(NOW - h * 3600, 0).unwrap()
}

fn s(v: &str) -> JsonValue {
    JsonValue::Str(v.to_string())
}

fn n(v: u64) -> JsonValue {
    JsonValue::Number(JsonNumber::PosInt(v))
}

fn b(v: bool) -> JsonValue {
    JsonValue::Bool(v)
}

fn arr(items: Vec<JsonValue>) -> JsonValue {
    let mut a = ArrayBuilder::new();
    for v in items {
        a = a.item(v);
    }
    a.build()
}

fn obj(pairs: Vec<(&str, JsonValue)>) -> JsonValue {
    let mut o = ObjectBuilder::new();
    for (k, v) in pairs {
        o = o.field(k, v);
    }
    o.build()
}

/// `base` with the fields of `overrides` replaced or added and the fields
/// named in `removed` left out.
fn with(base: Vec<(&'static str, JsonValue)>, overrides: Vec<(&'static str, JsonValue)>, removed: &[&str]) -> JsonValue {
    let mut fields = base;
    for (k, v) in overrides {
        match fields.iter().position(|(name, _)| *name == k) {
            Some(i) => fields[i].1 = v,
            None => fields.push((k, v)),
        }
    }
    fields.retain(|(k, _)| !removed.contains(k));
    obj(fields)
}

fn codes(report: &PillarReport) -> Vec<&str> {
    report.findings.iter().map(|f| f.reason_code.as_str()).collect()
}

fn fixture(resource_id: &str, tags: JsonValue, resource_data: JsonValue) -> AwsResource {
    AwsResource {
        account_id: ACCOUNT.to_string(),
        profile: None,
        region: "us-east-1".to_string(),
        resource_type: RESOURCE_TYPE.to_string(),
        resource_id: resource_id.to_string(),
        arn: format!("arn:aws:trustedadvisor:us-east-1:123456789012:{}", resource_id),
        name: Some(resource_id.to_string()),
        tags,
        resource_data,
        last_refreshed: hours_ago(1),
    }
}

/// The savings figure of a row, read as the float that the row holds.
fn savings_of(data: &JsonValue) -> SavingsFigure {
    let value: f64 = match data.get("estimated_monthly_savings") {
        Some(JsonValue::Number(JsonNumber::PosInt(n))) => *n as f64,
        Some(JsonValue::Number(JsonNumber::NegInt(n))) => *n as f64,
        Some(JsonValue::Number(JsonNumber::Float(t))) => t.parse().unwrap(),
        _ => 0.0,
    };
    SavingsFigure {
        positive: value > 0.0,
        shown: format!("{:.2}", value),
        value: JsonValue::Number(JsonNumber::Float(format!("{:?}", value))),
    }
}

fn evaluate(resources: &[AwsResource], pillar: Pillar) -> PillarReport {
    let savings: Vec<SavingsFigure> = resources.iter().map(|r| savings_of(&r.resource_data)).collect();
    evaluate_trustedadvisor_fleet(resources, &savings, pillar, now())
}

fn account(resource_data: JsonValue, tags: JsonValue) -> AwsResource {
    let mut r = fixture("trustedadvisor:123456789012", tags, resource_data);
    r.profile = Some("test".to_string());
    r.arn = "arn:aws:trustedadvisor:us-east-1:123456789012:account/123456789012".to_string();
    r.name = Some("Trusted Advisor".to_string());
    r.last_refreshed = hours_ago(26);
    r
}

fn busy_account() -> AwsResource {
    account(
        obj(vec![
            ("check_count", n(12)),
            ("recommendation_count", n(5)),
            ("cost_recommendation_count", n(2)),
            ("cost_warning_or_error_count", n(1)),
            ("estimated_monthly_savings", JsonValue::Number(JsonNumber::Float("315.25".to_string()))),
            ("resilience_recommendation_count", n(2)),
            ("resilience_warning_or_error_count", n(2)),
            ("service_limit_warning_or_error_count", n(1)),
            ("security_recommendation_count", n(1)),
            ("security_warning_or_error_count", n(1)),
            ("error_resource_count", n(3)),
            ("excluded_resource_count", n(1)),
            ("excluded_resource_sample_count", n(1)),
            ("resource_collection_error_count", n(1)),
            ("sampled_resource_count", n(10)),
            (
                "recommendations",
                arr(vec![
                    obj(vec![("id", s("rec-cost")), ("status", s("warning")), ("pillars", arr(vec![s("cost_optimizing")]))]),
                    obj(vec![("id", s("rec-res")), ("status", s("error")), ("pillars", arr(vec![s("fault_tolerance")]))]),
                    obj(vec![("id", s("rec-sec")), ("status", s("error")), ("pillars", arr(vec![s("security")]))]),
                ]),
            ),
            ("sampled_resources", arr(vec![obj(vec![("id", s("res-1")), ("status", s("error")), ("exclusion_status", s("excluded"))])])),
        ]),
        obj(vec![]),
    )
}

#[test]
fn evaluates_trustedadvisor_inventory_findings() {
    let resource = busy_account();

    let cost = evaluate(std::slice::from_ref(&resource), Pillar::Cost);
    assert_eq!(cost.resources_evaluated, 1);
    assert_eq!(cost.stale_resources, 1);
    assert!(cost.findings.iter().any(|f| f.reason_code == REASON_COST_NO_TAGS));
    assert!(cost.findings.iter().any(|f| f.reason_code == REASON_COST_SAVINGS_AVAILABLE));
    assert!(cost.findings.iter().any(|f| f.reason_code == REASON_COST_WARNING_RECOMMENDATIONS));

    let resilience = evaluate(std::slice::from_ref(&resource), Pillar::Resilience);
    assert!(resilience.findings.iter().any(|f| f.reason_code == REASON_RES_WARNING_RECOMMENDATIONS));
    assert!(resilience.findings.iter().any(|f| f.reason_code == REASON_RES_SERVICE_LIMIT_WARNINGS));
    assert!(resilience.findings.iter().any(|f| f.reason_code == REASON_RES_RESOURCE_COLLECTION_ERRORS));

    let security = evaluate(std::slice::from_ref(&resource), Pillar::Security);
    assert!(security.findings.iter().any(|f| f.reason_code == REASON_SEC_WARNING_RECOMMENDATIONS));
    assert!(security.findings.iter().any(|f| f.reason_code == REASON_SEC_ERROR_RESOURCES));
    assert!(security.findings.iter().any(|f| f.reason_code == REASON_SEC_EXCLUDED_RESOURCES));

    let empty_inventory = account(obj(vec![("check_count", n(0)), ("recommendation_count", n(0))]), obj(vec![("team", s("sre"))]));
    let no_checks = evaluate(&[empty_inventory], Pillar::Resilience);
    assert!(no_checks.findings.iter().any(|f| f.reason_code == REASON_INV_NO_CHECKS));
}

#[test]
fn trustedadvisor_cost_findings_in_order_with_messages() {
    let report = evaluate(&[busy_account()], Pillar::Cost);
    assert_eq!(
        codes(&report),
        vec![REASON_INV_STALE_DATA, REASON_COST_NO_TAGS, REASON_COST_SAVINGS_AVAILABLE, REASON_COST_WARNING_RECOMMENDATIONS]
    );
    assert_eq!(report.findings[2].message, "Trusted Advisor account trustedadvisor:123456789012 has estimated monthly savings of 315.25");
    assert_eq!(
        report.findings[3].message,
        "Trusted Advisor account trustedadvisor:123456789012 has 1 cost recommendations in warning or error status"
    );
    assert_eq!(report.score, 100 - 7 - 7 - 15 - 7);
}

#[test]
fn missing_check_count_is_reported_on_every_pillar() {
    let mut r = account(obj(vec![]), obj(vec![("owner", s("platform"))]));
    r.last_refreshed = hours_ago(1);
    for pillar in [Pillar::Cost, Pillar::Performance, Pillar::DisasterRecovery] {
        let report = evaluate(std::slice::from_ref(&r), pillar);
        assert_eq!(codes(&report), vec![REASON_INV_NO_CHECKS], "{:?}", pillar);
        assert_eq!(report.findings[0].pillar, pillar);
        assert!(matches!(report.findings[0].evidence.get("check_count"), Some(JsonValue::Null)));
    }
}

#[test]
fn excluded_resources_use_the_larger_count() {
    let mut r = account(
        obj(vec![("check_count", n(3)), ("excluded_resource_count", n(2)), ("excluded_resource_sample_count", n(5))]),
        obj(vec![("team", s("sre"))]),
    );
    r.last_refreshed = hours_ago(1);
    let report = evaluate(&[r], Pillar::Security);
    assert_eq!(codes(&report), vec![REASON_SEC_EXCLUDED_RESOURCES]);
    assert_eq!(report.findings[0].message, "Trusted Advisor account trustedadvisor:123456789012 has 5 excluded recommendation resources");
}

#[test]
fn zero_or_absent_savings_raise_no_finding() {
    let mut r = account(obj(vec![("check_count", n(3)), ("estimated_monthly_savings", n(0))]), obj(vec![("team", s("sre"))]));
    r.last_refreshed = hours_ago(1);
    let report = evaluate(&[r], Pillar::Cost);
    assert!(report.findings.is_empty(), "{:?}", codes(&report));
}

#[test]
fn rows_of_other_types_change_no_report() {
    let fleet = vec![busy_account()];
    let other = || {
        let mut r = busy_account();
        r.resource_type = "Ec2Instance".to_string();
        r
    };
    let with_other = vec![busy_account(), other(), other()];
    for pillar in [Pillar::Cost, Pillar::Security, Pillar::Resilience] {
        let a = evaluate(&fleet, pillar);
        let b = evaluate(&with_other, pillar);
        assert_eq!(a.resources_evaluated, b.resources_evaluated);
        assert_eq!(a.stale_resources, b.stale_resources);
        assert_eq!(a.score, b.score);
        assert_eq!(codes(&a), codes(&b));
        let savings: Vec<SavingsFigure> = with_other.iter().map(|r| savings_of(&r.resource_data)).collect();
        assert!(trustedadvisor_fleet_fits(&with_other, &savings, pillar, now()));
    }
}
