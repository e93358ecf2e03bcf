use backend::aws::service::{AwsAccountDto, AwsConfig, AwsService, CloudConfig, Config, CredentialSource};
use backend::errors::AppError;
use backend::text::text_lines;

fn dto(auth: &str) -> AwsAccountDto {
    AwsAccountDto {
        account_id: "123456789012".to_string(),
        profile: None,
        default_region: "us-east-1".to_string(),
        auth_type: auth.to_string(),
        use_role: false,
        role_arn: None,
        has_access_key: false,
        access_key_id: None,
        secret_access_key: None,
        sso_profile: None,
        source_profile: None,
        session_name: None,
        web_identity_token_file: None,
    }
}

fn service() -> AwsService {
    AwsService::new(Config {
        cloud: CloudConfig {
            aws: vec![
                AwsConfig { profile: Some("dev".to_string()), region: "eu-west-1".to_string() },
                AwsConfig { profile: None, region: "us-east-1".to_string() },
            ],
        },
    })
}

#[test]
fn auto_auth_prefers_profile_then_role_then_keys() {
    let svc = service();
    let mut d = dto("AUTO");
    d.profile = Some("dev".to_string());
    d.use_role = true;
    d.role_arn = Some("arn:role".to_string());
    let plan = svc.get_aws_sdk_config_plan(&d, None).unwrap();
    assert_eq!(plan.profile_name.as_deref(), Some("dev"));
    assert!(matches!(plan.credentials, CredentialSource::DefaultChain));

    d.profile = None;
    d.source_profile = Some("base".to_string());
    d.session_name = Some("sess".to_string());
    let plan = svc.get_aws_sdk_config_plan(&d, Some("http://localhost:4566".to_string())).unwrap();
    assert_eq!(plan.profile_name.as_deref(), Some("base"));
    assert_eq!(plan.endpoint_url.as_deref(), Some("http://localhost:4566"));
    match plan.credentials {
        CredentialSource::AssumeRole { role_arn, session_name } => {
            assert_eq!(role_arn, "arn:role");
            assert_eq!(session_name.as_deref(), Some("sess"));
        },
        _ => panic!("expected an assumed role"),
    }

    let mut k = dto("auto");
    k.access_key_id = Some("AKIA".to_string());
    k.secret_access_key = Some("secret".to_string());
    let plan = svc.get_aws_sdk_config_plan(&k, Some(String::new())).unwrap();
    assert_eq!(plan.endpoint_url, None);
    assert!(matches!(plan.credentials, CredentialSource::StaticKeys { .. }));
    assert_eq!(plan.region, "us-east-1");
}

#[test]
fn assume_role_without_arn_is_refused() {
    let svc = service();
    match svc.get_aws_sdk_config_plan(&dto("assume_role"), None) {
        Err(AppError::Validation(m)) => assert_eq!(m, "Missing role_arn for assume_role"),
        _ => panic!("expected a validation error"),
    }
}

#[test]
fn access_keys_without_both_keys_fall_back_to_default_chain() {
    let svc = service();
    let mut d = dto("access_keys");
    d.access_key_id = Some("AKIA".to_string());
    let plan = svc.get_aws_sdk_config_plan(&d, None).unwrap();
    assert!(matches!(plan.credentials, CredentialSource::DefaultChain));
    assert_eq!(plan.profile_name, None);
}

#[test]
fn sso_and_web_identity_plans() {
    let svc = service();
    let mut d = dto("SSO");
    d.profile = Some("fallback".to_string());
    let plan = svc.get_aws_sdk_config_plan(&d, None).unwrap();
    assert_eq!(plan.profile_name.as_deref(), Some("fallback"));

    let mut w = dto("web_identity");
    w.web_identity_token_file = Some("/var/token".to_string());
    w.role_arn = Some("arn:web".to_string());
    let plan = svc.get_aws_sdk_config_plan(&w, None).unwrap();
    match plan.credentials {
        CredentialSource::WebIdentity { token_file, role_arn, session_name } => {
            assert_eq!(token_file.as_deref(), Some("/var/token"));
            assert_eq!(role_arn.as_deref(), Some("arn:web"));
            assert_eq!(session_name, None);
        },
        _ => panic!("expected web identity"),
    }
}

#[test]
fn config_lookup_by_profile() {
    let svc = service();
    let mut d = dto("auto");
    d.profile = Some("dev".to_string());
    assert_eq!(svc.get_aws_config_impl(&d).unwrap().region, "eu-west-1");
    assert_eq!(svc.get_aws_config_impl(&dto("auto")).unwrap().region, "eu-west-1");
    d.profile = Some("prod".to_string());
    match svc.get_aws_config_impl(&d) {
        Err(AppError::Config(m)) => assert_eq!(m, "AWS configuration not found for profile: Some(\"prod\")"),
        _ => panic!("expected a config error"),
    }
}

#[test]
fn profiles_come_from_section_headers_default_first() {
    let credentials = "[dev]\r\naws_access_key_id = X\n[default]\n[[prod]]\n [spaced]\n[]\n[default]";
    assert_eq!(
        AwsService::list_available_profiles(Some(credentials)),
        vec!["default".to_string(), "default".to_string(), "dev".to_string(), "prod".to_string(), String::new()]
    );
    assert_eq!(AwsService::list_available_profiles(None), vec!["default".to_string()]);
    assert!(AwsService::list_available_profiles(Some("")).is_empty());
}

#[test]
fn lines_split_as_str_lines_does() {
    let expect = |s: &str| s.lines().map(|l| l.to_string()).collect::<Vec<_>>();
    for s in ["", "\n", "a", "a\n", "a\r\nb", "a\n\nb\r", "x\r\n\r\n", "\r"] {
        assert_eq!(text_lines(s), expect(s), "{:?}", s);
    }
}
