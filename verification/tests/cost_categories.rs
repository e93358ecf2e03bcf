use backend::cost_categories::{
    category_members, category_trend_periods, create_default_categories, create_tag_based_category, matches_category,
    matches_rule, CostCategoryOperator, CostCategoryRule, CostCategoryRuleType, CostItem,
};
use backend::json::{JsonValue, ObjectBuilder};

fn item(service: &str, region: Option<&str>, tags: Option<JsonValue>) -> CostItem {
    CostItem { service_name: service.to_string(), region: region.map(|r| r.to_string()), tags }
}

fn rule(rule_type: CostCategoryRuleType, field: &str, operator: CostCategoryOperator, value: &str) -> CostCategoryRule {
    CostCategoryRule { rule_type, field: field.to_string(), operator, value: value.to_string() }
}

#[test]
fn default_categories_cover_compute_storage_database_networking() {
    let cats = create_default_categories();
    let ids: Vec<&str> = cats.iter().map(|c| c.id.as_str()).collect();
    assert_eq!(ids, vec!["compute", "storage", "database", "networking"]);
    let ec2 = item("Amazon Elastic Compute Cloud - Compute", Some("us-east-1"), None);
    assert!(matches_category(&ec2, &cats[0]));
    assert!(!matches_category(&ec2, &cats[1]));
    let ebs = item("Amazon Elastic Block Storage", None, None);
    assert!(matches_category(&ebs, &cats[1]));
    let r53 = item("Amazon Route 53", None, None);
    assert!(matches_category(&r53, &cats[3]));
    assert_eq!(cats[2].rules.len(), 3);
    assert_eq!(cats[2].description.as_deref(), Some("RDS, DynamoDB, and other database services"));
}

#[test]
fn operators_compare_as_described() {
    let ec2 = item("Amazon EC2", Some("eu-west-1"), None);
    assert!(matches_rule(&ec2, &rule(CostCategoryRuleType::Service, "service_name", CostCategoryOperator::StartsWith, "Amazon")));
    assert!(matches_rule(&ec2, &rule(CostCategoryRuleType::Service, "service_name", CostCategoryOperator::EndsWith, "EC2")));
    assert!(!matches_rule(&ec2, &rule(CostCategoryRuleType::Service, "service_name", CostCategoryOperator::Equals, "amazon ec2")));
    assert!(matches_rule(&ec2, &rule(CostCategoryRuleType::Region, "", CostCategoryOperator::Contains, "west")));
    assert!(matches_rule(&ec2, &rule(CostCategoryRuleType::ResourceType, "", CostCategoryOperator::Contains, "EC2")));
    // The regex operator matches when any '|'-separated alternative occurs.
    assert!(matches_rule(&ec2, &rule(CostCategoryRuleType::Service, "", CostCategoryOperator::Regex, "Lambda|EC2")));
    assert!(!matches_rule(&ec2, &rule(CostCategoryRuleType::Service, "", CostCategoryOperator::Regex, "Lambda|S3")));
    // An empty alternative occurs in every value.
    assert!(matches_rule(&ec2, &rule(CostCategoryRuleType::Service, "", CostCategoryOperator::Regex, "Lambda|")));
}

#[test]
fn tag_rules_read_the_tags() {
    let tags = ObjectBuilder::new()
        .field("team", JsonValue::Str("data".to_string()))
        .field("instance_type", JsonValue::Str("m5.large".to_string()))
        .build();
    let tagged = item("Amazon EC2", None, Some(tags));
    assert!(matches_rule(&tagged, &rule(CostCategoryRuleType::Tag, "team", CostCategoryOperator::Equals, "data")));
    assert!(!matches_rule(&tagged, &rule(CostCategoryRuleType::Tag, "owner", CostCategoryOperator::Equals, "data")));
    assert!(matches_rule(&tagged, &rule(CostCategoryRuleType::InstanceType, "", CostCategoryOperator::StartsWith, "m5")));
    let untagged = item("Amazon EC2", None, None);
    assert!(!matches_rule(&untagged, &rule(CostCategoryRuleType::InstanceType, "", CostCategoryOperator::Contains, "")));
    assert!(!matches_rule(&untagged, &rule(CostCategoryRuleType::Region, "", CostCategoryOperator::Contains, "")));
}

#[test]
fn tag_based_category_has_one_rule_per_value() {
    let cat = create_tag_based_category("Team", &["data".to_string(), "web".to_string()], "Teams", None);
    assert!(cat.id.starts_with("custom-team-"), "{}", cat.id);
    assert!(cat.id["custom-team-".len()..].chars().all(|c| c.is_ascii_digit()));
    assert_eq!(cat.name, "Teams");
    assert_eq!(cat.rules.len(), 2);
    assert_eq!(cat.rules[1].value, "web");
    assert_eq!(cat.rules[0].field, "Team");
    assert!(matches!(cat.rules[0].operator, CostCategoryOperator::Equals));
}

#[test]
fn members_are_the_matching_items_in_order() {
    let cats = create_default_categories();
    let items = vec![
        item("AWS Lambda", None, None),
        item("Amazon DynamoDB", None, None),
        item("Amazon Elastic Compute Cloud - Compute", None, None),
    ];
    assert_eq!(category_members(&items, &cats[0]), vec![0, 2]);
    assert_eq!(category_members(&items, &cats[2]), vec![1]);
    assert_eq!(category_members(&items, &cats[3]), Vec::<usize>::new());
}

#[test]
fn trend_periods_tile_the_range() {
    assert_eq!(category_trend_periods(10, 20, 5), vec![(10, 14), (15, 19), (20, 20)]);
    assert_eq!(category_trend_periods(10, 14, 5), vec![(10, 14)]);
    assert_eq!(category_trend_periods(10, 10, 30), vec![(10, 10)]);
    assert_eq!(category_trend_periods(11, 10, 1), vec![]);
    assert_eq!(category_trend_periods(1, 3, 1), vec![(1, 1), (2, 2), (3, 3)]);
}
