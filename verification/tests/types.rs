use backend::inventory::types::{
    check_stale, has_any_tag, score_pillar, tag_value, AwsResource, InventoryFinding, Pillar, Severity,
    COST_ALLOCATION_TAG_KEYS, DEFAULT_STALE_AFTER_HOURS, OWNER_TAG_KEYS,
};
use backend::json::{ArrayBuilder, JsonNumber, JsonValue, ObjectBuilder};
use backend::time::Timestamp;

fn s(v: &str) -> JsonValue {
    JsonValue::Str(v.to_string())
}

fn obj(pairs: Vec<(&str, JsonValue)>) -> JsonValue {
    let mut o = ObjectBuilder::new();
    for (k, v) in pairs {
        o = o.field(k, v);
    }
    o.build()
}

fn arr(items: Vec<JsonValue>) -> JsonValue {
    let mut a = ArrayBuilder::new();
    for v in items {
        a = a.item(v);
    }
    a.build()
}

fn make(severity: Severity) -> InventoryFinding {
    InventoryFinding {
        resource_id: "i-x".to_string(),
        arn: String::new(),
        pillar: Pillar::Cost,
        reason_code: "TEST".to_string(),
        severity,
        message: String::new(),
        evidence: obj(vec![]),
    }
}

#[test]
fn tag_value_supports_object_map_and_key_value_array_case_insensitively() {
    let map = obj(vec![("Owner", s("sre"))]);
    assert_eq!(tag_value(&map, "owner").as_deref(), Some("sre"));
    let array = arr(vec![
        obj(vec![("Key", s("Cost-Center")), ("Value", s("cc-1"))]),
        obj(vec![("key", s("team")), ("value", s("db"))]),
    ]);
    assert_eq!(tag_value(&array, "cost-center").as_deref(), Some("cc-1"));
    assert_eq!(tag_value(&array, "TEAM").as_deref(), Some("db"));
    assert_eq!(tag_value(&array, "missing"), None);
    assert_eq!(tag_value(&JsonValue::Null, "owner"), None);
}

#[test]
fn score_is_deterministic_and_clamped_at_zero() {
    assert_eq!(score_pillar(&[]), 100);
    assert_eq!(score_pillar(&[make(Severity::High)]), 85);
    assert_eq!(score_pillar(&[make(Severity::Medium), make(Severity::Low)]), 90);
    let many: Vec<InventoryFinding> = (0..10).map(|_| make(Severity::High)).collect();
    assert_eq!(score_pillar(&many), 0);
}

#[test]
fn tag_with_non_text_value_does_not_count() {
    let map = obj(vec![("owner", JsonValue::Number(JsonNumber::PosInt(7)))]);
    assert_eq!(tag_value(&map, "owner"), None);
    assert!(!has_any_tag(&map, &OWNER_TAG_KEYS));
    let tagged = obj(vec![("Project", s("atlas"))]);
    assert!(has_any_tag(&tagged, &COST_ALLOCATION_TAG_KEYS));
    assert!(!has_any_tag(&tagged, &OWNER_TAG_KEYS));
}

#[test]
fn pillar_names_round_trip() {
    for p in [
        Pillar::Cost,
        Pillar::Security,
        Pillar::Resilience,
        Pillar::Performance,
        Pillar::Scalability,
        Pillar::DisasterRecovery,
        Pillar::OperationalExcellence,
    ] {
        assert_eq!(Pillar::parse(p.as_str()), Some(p));
    }
    assert_eq!(Pillar::parse("unknown"), None);
}

#[test]
fn stale_check_threshold_and_message() {
    let now = Timestamp::from_unix(1_781_049_600, 0).unwrap();
    let mut r = AwsResource {
        account_id: "123456789012".to_string(),
        profile: None,
        region: "us-east-1".to_string(),
        resource_type: "Anything".to_string(),
        resource_id: "thing-1".to_string(),
        arn: "arn:thing-1".to_string(),
        name: None,
        tags: obj(vec![]),
        resource_data: obj(vec![]),
        last_refreshed: Timestamp::from_unix(1_781_049_600 - DEFAULT_STALE_AFTER_HOURS * 3600, 0).unwrap(),
    };
    assert!(check_stale(&r, Pillar::Cost, "X_INV_STALE_DATA", &now).is_none());
    r.last_refreshed = Timestamp::from_unix(1_781_049_600 - 25 * 3600, 0).unwrap();
    let f = check_stale(&r, Pillar::Security, "X_INV_STALE_DATA", &now).unwrap();
    assert_eq!(f.reason_code, "X_INV_STALE_DATA");
    assert_eq!(f.pillar, Pillar::Security);
    assert_eq!(f.severity, Severity::Medium);
    assert_eq!(
        f.message,
        "Inventory data for thing-1 is 25 hours old (threshold 24 hours); pillar evaluation may not reflect current state"
    );
    assert_eq!(f.evidence.get("last_refreshed").and_then(|v| v.as_str()).map(|t| t.as_str()), Some("2026-06-08T23:00:00Z"));
    assert_eq!(f.evidence.get("age_hours").and_then(|v| v.as_i64()), Some(25));
}
