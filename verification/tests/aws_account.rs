use backend::aws_account::{
    accounts_sync_summary, region_scope, region_sync_summary, tally_region_results, AwsAccountCreateDto,
    AwsAccountService, AwsAccountUpdateDto,
};
use backend::errors::AppError;
use backend::json::{ArrayBuilder, JsonNumber, JsonValue, ObjectBuilder};

fn create(auth: Option<&str>) -> AwsAccountCreateDto {
    AwsAccountCreateDto {
        auth_type: auth.map(|a| a.to_string()),
        use_role: false,
        role_arn: None,
        access_key_id: None,
        secret_access_key: None,
        profile: None,
        sso_profile: None,
    }
}

fn update(auth: Option<&str>) -> AwsAccountUpdateDto {
    AwsAccountUpdateDto {
        auth_type: auth.map(|a| a.to_string()),
        use_role: false,
        role_arn: None,
        access_key_id: None,
        secret_access_key: None,
        profile: None,
        sso_profile: None,
    }
}

fn message(r: Result<(), AppError>) -> String {
    match r {
        Err(AppError::Validation(m)) => m,
        other => panic!("expected a validation error, got {:?}", other),
    }
}

#[test]
fn access_keys_need_both_keys_on_create() {
    let mut d = create(Some("access_keys"));
    d.access_key_id = Some("AKIA".to_string());
    assert_eq!(
        message(AwsAccountService::validate_create_auth(&d)),
        "access_keys auth requires access_key_id and secret_access_key"
    );
    d.secret_access_key = Some(String::new());
    assert!(AwsAccountService::validate_create_auth(&d).is_err());
    d.secret_access_key = Some("secret".to_string());
    assert!(AwsAccountService::validate_create_auth(&d).is_ok());
}

#[test]
fn auth_type_is_compared_case_insensitively() {
    let mut d = create(Some("Assume_Role"));
    assert_eq!(message(AwsAccountService::validate_create_auth(&d)), "assume_role auth requires role_arn");
    d.role_arn = Some("arn:aws:iam::123456789012:role/r".to_string());
    assert!(AwsAccountService::validate_create_auth(&d).is_ok());
}

#[test]
fn sso_accepts_either_profile_field() {
    let mut d = create(Some("sso"));
    assert_eq!(message(AwsAccountService::validate_create_auth(&d)), "sso auth requires sso_profile or profile");
    d.profile = Some("dev".to_string());
    assert!(AwsAccountService::validate_create_auth(&d).is_ok());
    let mut u = update(Some("SSO"));
    u.sso_profile = Some("corp".to_string());
    assert!(AwsAccountService::validate_update_auth(&u).is_ok());
}

#[test]
fn profile_web_identity_and_instance_role_rules() {
    assert_eq!(message(AwsAccountService::validate_create_auth(&create(Some("profile")))), "profile auth requires profile name");
    assert_eq!(
        message(AwsAccountService::validate_create_auth(&create(Some("web_identity")))),
        "web_identity auth requires role_arn"
    );
    assert!(AwsAccountService::validate_create_auth(&create(Some("instance_role"))).is_ok());
}

#[test]
fn absent_or_unknown_auth_type_follows_legacy_flags() {
    assert_eq!(
        message(AwsAccountService::validate_create_auth(&create(None))),
        "When not using a role, access_key_id and secret_access_key are required"
    );
    let mut d = create(Some("something-else"));
    d.use_role = true;
    assert_eq!(message(AwsAccountService::validate_create_auth(&d)), "When use_role is true, role_arn is required");
    assert_eq!(
        message(AwsAccountService::validate_update_auth(&update(None))),
        "When not using a role, access_key_id is required"
    );
}

#[test]
fn update_keeps_the_stored_secret() {
    let mut u = update(Some("access_keys"));
    assert_eq!(message(AwsAccountService::validate_update_auth(&u)), "access_keys auth requires access_key_id on update");
    u.access_key_id = Some("AKIA".to_string());
    assert!(AwsAccountService::validate_update_auth(&u).is_ok());
}

#[test]
fn kelvin_sign_lowercases_like_std() {
    // U+212A KELVIN SIGN lower-cases to 'k' under Unicode's mapping.
    let d = create(Some("access_\u{212A}eys"));
    assert_eq!(
        message(AwsAccountService::validate_create_auth(&d)),
        "access_keys auth requires access_key_id and secret_access_key"
    );
}

fn s(v: &str) -> JsonValue {
    JsonValue::Str(v.to_string())
}

fn metadata(regions: Vec<JsonValue>) -> JsonValue {
    let mut a = ArrayBuilder::new();
    for r in regions {
        a = a.item(r);
    }
    ObjectBuilder::new().field("regions", a.build()).build()
}

#[test]
fn region_scope_prefers_listed_regions_then_account_regions() {
    let account = Some(vec!["eu-west-1".to_string()]);
    let meta = metadata(vec![s("us-east-1"), JsonValue::Number(JsonNumber::PosInt(3)), s("us-west-2")]);
    assert_eq!(region_scope(Some(&meta), &account), Some(vec!["us-east-1".to_string(), "us-west-2".to_string()]));
    let empty = metadata(vec![]);
    assert_eq!(region_scope(Some(&empty), &account), Some(vec!["eu-west-1".to_string()]));
    assert_eq!(region_scope(None, &None), None);
    let all = ObjectBuilder::new().field("all_regions", JsonValue::Bool(true)).build();
    assert_eq!(region_scope(Some(&all), &None), None);
    assert_eq!(region_scope(Some(&all), &account), None);
    let not_all = ObjectBuilder::new().field("all_regions", JsonValue::Bool(false)).build();
    assert_eq!(region_scope(Some(&not_all), &account), Some(vec!["eu-west-1".to_string()]));
}

#[test]
fn region_results_are_tallied() {
    assert_eq!(tally_region_results(&[Some(3), None, Some(4), None]), (7, 2));
    assert_eq!(tally_region_results(&[]), (0, 0));
}

#[test]
fn sync_summaries_read_as_before() {
    let r = region_sync_summary(7, 4, "abc", 2);
    assert!(!r.success);
    assert_eq!(r.count, 7);
    assert_eq!(r.message, "Synced 7 resources across 4 region(s) (sync_id: abc, failures: 2)");
    let ok = region_sync_summary(0, 1, "x", 0);
    assert!(ok.success);

    let none = accounts_sync_summary(0, 0, &vec![]);
    assert!(none.success);
    assert_eq!(none.message, "No accounts found to sync");
    let all = accounts_sync_summary(2, 10, &vec![]);
    assert_eq!(all.message, "Successfully synced 10 resources from all accounts");
    let some = accounts_sync_summary(3, 5, &vec!["111".to_string(), "222".to_string()]);
    assert!(!some.success);
    assert_eq!(some.message, "Synced 5 resources. Failed to sync accounts: 111, 222");
}
