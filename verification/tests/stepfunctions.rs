use backend::inventory::stepfunctions::{
    REASON_COST_EXPRESS_FULL_EXECUTION_LOGGING, REASON_COST_MACHINE_DELETING, REASON_COST_NO_TAGS, REASON_DATA_GAP_LOGGING, REASON_DATA_GAP_MACHINE_TYPE, REASON_DATA_GAP_STATUS, REASON_DATA_GAP_TRACING, REASON_DR_LOGGING_OFF, REASON_INV_STALE_DATA, REASON_OPEX_NO_OWNER_TAG, REASON_PERF_EXPRESS_ALL_LOGGING, REASON_PERF_TRACING_DISABLED, REASON_RES_LOG_DESTINATIONS_MISSING, REASON_RES_MACHINE_NOT_ACTIVE, REASON_SCALE_FULL_EXECUTION_LOGGING, REASON_SEC_LOGGING_OFF, REASON_SEC_NO_ROLE_ARN, REASON_SEC_TRACING_DISABLED, RESOURCE_TYPE, evaluate_stepfunctions_fleet,
};
use backend::inventory::types::{AwsResource, Pillar, PillarReport, Severity};
use backend::json::{JsonNumber, JsonValue, ObjectBuilder};
use backend::time::Timestamp;

const NOW: i64 = 1_781_049_600; // 2026-06-10T00:00:00Z

fn now() -> Timestamp {
    Timestamp::from_unix(NOW, 0).unwrap()
}

fn s(v: &str) -> JsonValue {
    JsonValue::Str(v.to_string())
}

fn n(v: u64) -> JsonValue {
    JsonValue::Number(JsonNumber::PosInt(v))
}

fn obj(pairs: Vec<(&str, JsonValue)>) -> JsonValue {
    let mut b = ObjectBuilder::new();
    for (k, v) in pairs {
        b = b.field(k, v);
    }
    b.build()
}

fn team_tags() -> JsonValue {
    obj(vec![("team", s("sre"))])
}

fn fixture(resource_id: &str, tags: JsonValue, resource_data: JsonValue) -> AwsResource {
    AwsResource {
        account_id: "123456789012".to_string(),
        profile: None,
        region: "us-east-1".to_string(),
        resource_type: RESOURCE_TYPE.to_string(),
        resource_id: resource_id.to_string(),
        arn: format!("arn:aws:states:us-east-1:123456789012:stateMachine:{}", resource_id),
        name: Some(resource_id.to_string()),
        tags,
        resource_data,
        last_refreshed: Timestamp::from_unix(NOW - 3600, 0).unwrap(),
    }
}

/// The healthy machine data, with the fields of `overrides` replaced or
/// added and the fields named in `removed` left out.
fn machine_data(overrides: Vec<(&str, JsonValue)>, removed: &[&str]) -> JsonValue {
    let mut fields: Vec<(&str, JsonValue)> = vec![
        ("name", s("order-flow")),
        ("arn", s("arn:aws:states:us-east-1:123456789012:stateMachine:order-flow")),
        ("state_machine_type", s("STANDARD")),
        ("status", s("ACTIVE")),
        ("creation_date", s("2026-01-01T00:00:00Z")),
        ("role_arn", s("arn:aws:iam::123456789012:role/sfn-exec")),
        ("logging_level", s("ERROR")),
        ("logging_include_execution_data", JsonValue::Bool(false)),
        ("logging_destination_count", n(1)),
        ("tracing_enabled", JsonValue::Bool(true)),
    ];
    for (k, v) in overrides {
        match fields.iter().position(|(name, _)| *name == k) {
            Some(i) => fields[i].1 = v,
            None => fields.push((k, v)),
        }
    }
    fields.retain(|(k, _)| !removed.contains(k));
    obj(fields)
}

fn healthy() -> JsonValue {
    machine_data(vec![], &[])
}

fn codes(report: &PillarReport) -> Vec<&str> {
    report.findings.iter().map(|f| f.reason_code.as_str()).collect()
}

#[test]
fn cost_flags_untagged_machine() {
    let r = fixture("sm-untagged", obj(vec![]), healthy());
    let report = evaluate_stepfunctions_fleet(&[r], Pillar::Cost, now());
    assert_eq!(codes(&report), vec![REASON_COST_NO_TAGS]);
}

#[test]
fn cost_flags_deleting_machine() {
    let data = machine_data(vec![("status", s("DELETING"))], &[]);
    let r = fixture("sm-deleting", team_tags(), data);
    let report = evaluate_stepfunctions_fleet(&[r], Pillar::Cost, now());
    assert_eq!(codes(&report), vec![REASON_COST_MACHINE_DELETING]);
    assert!(matches!(report.findings[0].severity, Severity::Low));
}

#[test]
fn cost_flags_express_all_logging_with_execution_data() {
    let data = machine_data(
        vec![
            ("state_machine_type", s("EXPRESS")),
            ("logging_level", s("ALL")),
            ("logging_include_execution_data", JsonValue::Bool(true)),
        ],
        &[],
    );
    let r = fixture("sm-express", team_tags(), data);
    let report = evaluate_stepfunctions_fleet(&[r], Pillar::Cost, now());
    assert_eq!(codes(&report), vec![REASON_COST_EXPRESS_FULL_EXECUTION_LOGGING]);

    // A STANDARD machine with the same logging setup is not flagged.
    let standard = machine_data(
        vec![("logging_level", s("ALL")), ("logging_include_execution_data", JsonValue::Bool(true))],
        &[],
    );
    let r2 = fixture("sm-standard", team_tags(), standard);
    let report = evaluate_stepfunctions_fleet(&[r2], Pillar::Cost, now());
    assert!(report.findings.is_empty(), "unexpected: {:?}", codes(&report));
}

#[test]
fn security_flags_logging_level_off() {
    let data = machine_data(vec![("logging_level", s("OFF"))], &[]);
    let r = fixture("sm-logoff", team_tags(), data);
    let report = evaluate_stepfunctions_fleet(&[r], Pillar::Security, now());
    assert_eq!(codes(&report), vec![REASON_SEC_LOGGING_OFF]);
}

#[test]
fn security_flags_tracing_disabled() {
    let data = machine_data(vec![("tracing_enabled", JsonValue::Bool(false))], &[]);
    let r = fixture("sm-notrace", team_tags(), data);
    let report = evaluate_stepfunctions_fleet(&[r], Pillar::Security, now());
    assert_eq!(codes(&report), vec![REASON_SEC_TRACING_DISABLED]);
}

#[test]
fn security_flags_missing_role_arn() {
    let data = machine_data(vec![], &["role_arn"]);
    let r = fixture("sm-norole", team_tags(), data);
    let report = evaluate_stepfunctions_fleet(&[r], Pillar::Security, now());
    assert_eq!(codes(&report), vec![REASON_SEC_NO_ROLE_ARN]);

    let empty_role = machine_data(vec![("role_arn", s(""))], &[]);
    let r2 = fixture("sm-emptyrole", team_tags(), empty_role);
    let report = evaluate_stepfunctions_fleet(&[r2], Pillar::Security, now());
    assert_eq!(codes(&report), vec![REASON_SEC_NO_ROLE_ARN]);
}

#[test]
fn security_reports_logging_data_gap() {
    let data = machine_data(
        vec![],
        &["logging_level", "logging_include_execution_data", "logging_destination_count"],
    );
    let r = fixture("sm-loggap", team_tags(), data);
    let report = evaluate_stepfunctions_fleet(&[r], Pillar::Security, now());
    assert_eq!(codes(&report), vec![REASON_DATA_GAP_LOGGING]);
}

#[test]
fn security_reports_tracing_data_gap() {
    let data = machine_data(vec![], &["tracing_enabled"]);
    let r = fixture("sm-tracegap", team_tags(), data);
    let report = evaluate_stepfunctions_fleet(&[r], Pillar::Security, now());
    assert_eq!(codes(&report), vec![REASON_DATA_GAP_TRACING]);
}

#[test]
fn resilience_flags_non_active_machine_as_high() {
    let data = machine_data(vec![("status", s("DELETING"))], &[]);
    let r = fixture("sm-deleting", team_tags(), data);
    let report = evaluate_stepfunctions_fleet(&[r], Pillar::Resilience, now());
    assert_eq!(codes(&report), vec![REASON_RES_MACHINE_NOT_ACTIVE]);
    assert!(matches!(report.findings[0].severity, Severity::High));
}

#[test]
fn resilience_flags_missing_log_destinations_when_logging_enabled() {
    let data = machine_data(vec![("logging_level", s("ALL")), ("logging_destination_count", n(0))], &[]);
    let r = fixture("sm-nodest", team_tags(), data);
    let report = evaluate_stepfunctions_fleet(&[r], Pillar::Resilience, now());
    assert_eq!(codes(&report), vec![REASON_RES_LOG_DESTINATIONS_MISSING]);

    // Logging OFF with zero destinations is consistent, not a defect.
    let off = machine_data(vec![("logging_level", s("OFF")), ("logging_destination_count", n(0))], &[]);
    let r2 = fixture("sm-off", team_tags(), off);
    let report = evaluate_stepfunctions_fleet(&[r2], Pillar::Resilience, now());
    assert!(report.findings.is_empty(), "unexpected: {:?}", codes(&report));
}

#[test]
fn resilience_reports_status_data_gap() {
    let data = machine_data(vec![], &["status"]);
    let r = fixture("sm-statusgap", team_tags(), data);
    let report = evaluate_stepfunctions_fleet(&[r], Pillar::Resilience, now());
    assert_eq!(codes(&report), vec![REASON_DATA_GAP_STATUS]);
}

#[test]
fn stepfunctions_pillar_evaluator_stale_inventory_is_flagged() {
    let mut r = fixture("sm-stale", team_tags(), healthy());
    r.last_refreshed = Timestamp::from_unix(NOW - 48 * 3600, 0).unwrap();
    let report = evaluate_stepfunctions_fleet(&[r], Pillar::Resilience, now());
    assert_eq!(report.stale_resources, 1);
    assert!(codes(&report).contains(&REASON_INV_STALE_DATA));
}

#[test]
fn non_stepfunction_resources_are_skipped_and_not_counted() {
    let mut r = fixture("queue-1", obj(vec![]), obj(vec![]));
    r.resource_type = "SqsQueue".to_string();
    let report = evaluate_stepfunctions_fleet(&[r], Pillar::Cost, now());
    assert_eq!(report.resources_evaluated, 0);
    assert!(report.findings.is_empty());
}

#[test]
fn empty_fleet_scores_full() {
    for pillar in [Pillar::Cost, Pillar::Security, Pillar::Resilience] {
        let report = evaluate_stepfunctions_fleet(&[], pillar, now());
        assert_eq!(report.resources_evaluated, 0);
        assert_eq!(report.score, 100);
        assert!(report.findings.is_empty());
    }
}

#[test]
fn performance_flags_tracing_disabled() {
    let data = machine_data(vec![("tracing_enabled", JsonValue::Bool(false))], &[]);
    let r = fixture("sm-perf-notrace", team_tags(), data);
    let report = evaluate_stepfunctions_fleet(&[r], Pillar::Performance, now());
    assert_eq!(codes(&report), vec![REASON_PERF_TRACING_DISABLED]);
    assert!(matches!(report.findings[0].severity, Severity::Low));
}

#[test]
fn performance_flags_express_all_logging_and_reports_tracing_gap() {
    let data = machine_data(vec![("state_machine_type", s("EXPRESS")), ("logging_level", s("ALL"))], &[]);
    let r = fixture("sm-perf-express", team_tags(), data);
    let report = evaluate_stepfunctions_fleet(&[r], Pillar::Performance, now());
    assert_eq!(codes(&report), vec![REASON_PERF_EXPRESS_ALL_LOGGING]);

    let gap = machine_data(vec![], &["tracing_enabled"]);
    let r2 = fixture("sm-perf-gap", team_tags(), gap);
    let report = evaluate_stepfunctions_fleet(&[r2], Pillar::Performance, now());
    assert_eq!(codes(&report), vec![REASON_DATA_GAP_TRACING]);
}

#[test]
fn scalability_flags_full_execution_logging_on_any_machine_type() {
    let data = machine_data(
        vec![("logging_level", s("ALL")), ("logging_include_execution_data", JsonValue::Bool(true))],
        &[],
    );
    let r = fixture("sm-scale-logs", team_tags(), data);
    let report = evaluate_stepfunctions_fleet(&[r], Pillar::Scalability, now());
    assert_eq!(codes(&report), vec![REASON_SCALE_FULL_EXECUTION_LOGGING]);
}

#[test]
fn scalability_reports_machine_type_data_gap() {
    let data = machine_data(vec![], &["state_machine_type"]);
    let r = fixture("sm-scale-gap", team_tags(), data);
    let report = evaluate_stepfunctions_fleet(&[r], Pillar::Scalability, now());
    assert_eq!(codes(&report), vec![REASON_DATA_GAP_MACHINE_TYPE]);
}

#[test]
fn disaster_recovery_flags_logging_off_and_reports_logging_gap() {
    let data = machine_data(vec![("logging_level", s("OFF"))], &[]);
    let r = fixture("sm-dr-off", team_tags(), data);
    let report = evaluate_stepfunctions_fleet(&[r], Pillar::DisasterRecovery, now());
    assert_eq!(codes(&report), vec![REASON_DR_LOGGING_OFF]);
    assert!(matches!(report.findings[0].severity, Severity::Medium));

    let gap = machine_data(vec![], &["logging_level"]);
    let r2 = fixture("sm-dr-gap", team_tags(), gap);
    let report = evaluate_stepfunctions_fleet(&[r2], Pillar::DisasterRecovery, now());
    assert_eq!(codes(&report), vec![REASON_DATA_GAP_LOGGING]);
}

#[test]
fn operational_excellence_flags_missing_owner_tag() {
    let r = fixture("sm-unowned", obj(vec![("environment", s("prod"))]), healthy());
    let report = evaluate_stepfunctions_fleet(&[r], Pillar::OperationalExcellence, now());
    assert_eq!(codes(&report), vec![REASON_OPEX_NO_OWNER_TAG]);
}

#[test]
fn healthy_machine_passes_all_pillars() {
    for pillar in [
        Pillar::Cost,
        Pillar::Security,
        Pillar::Resilience,
        Pillar::Performance,
        Pillar::Scalability,
        Pillar::DisasterRecovery,
        Pillar::OperationalExcellence,
    ] {
        let r = fixture("sm-ok", team_tags(), healthy());
        let report = evaluate_stepfunctions_fleet(std::slice::from_ref(&r), pillar, now());
        assert!(report.findings.is_empty(), "unexpected for {:?}: {:?}", pillar, codes(&report));
        assert_eq!(report.score, 100);
    }
}

#[test]
fn stepfunctions_messages_and_evidence_name_the_machine() {
    let data = machine_data(vec![("status", s("UPDATING"))], &[]);
    let r = fixture("sm-upd", team_tags(), data);
    let report = evaluate_stepfunctions_fleet(&[r], Pillar::Resilience, now());
    assert_eq!(report.findings.len(), 1);
    let f = &report.findings[0];
    assert_eq!(f.resource_id, "sm-upd");
    assert_eq!(f.message, "State machine sm-upd is in status UPDATING; new executions will fail until it is ACTIVE");
    assert_eq!(f.evidence.get("status").and_then(|v| v.as_str().cloned()), Some("UPDATING".to_string()));
    assert_eq!(report.score, 85);
}

#[test]
fn stale_finding_reports_age_in_hours() {
    let mut r = fixture("sm-old", team_tags(), healthy());
    r.last_refreshed = Timestamp::from_unix(NOW - 48 * 3600 - 1800, 0).unwrap();
    let report = evaluate_stepfunctions_fleet(&[r], Pillar::Cost, now());
    assert_eq!(report.findings.len(), 1);
    let f = &report.findings[0];
    assert_eq!(
        f.message,
        "Inventory data for sm-old is 48 hours old (threshold 24 hours); pillar evaluation may not reflect current state"
    );
    assert_eq!(f.evidence.get("last_refreshed").and_then(|v| v.as_str().cloned()), Some("2026-06-07T23:30:00Z".to_string()));
    assert_eq!(f.evidence.get("age_hours").and_then(|v| v.as_u64()), Some(48));
    assert_eq!(report.score, 93);
}
