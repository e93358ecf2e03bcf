use backend::aws::service::{CloudConfig, Config};
use backend::data_collection::{
    dynatrace_point_count, prometheus_samples, Collector, ConnectionProbe, DataCollectionService, ResourceType, SourceType,
};
use backend::errors::AppError;
use backend::json::{ArrayBuilder, JsonNumber, JsonValue, ObjectBuilder};

fn service() -> DataCollectionService {
    DataCollectionService::new(Config { cloud: CloudConfig { aws: vec![] } })
}

fn settings(pairs: &[(&str, &str)]) -> JsonValue {
    let mut b = ObjectBuilder::new();
    for (k, v) in pairs {
        b = b.field(k, JsonValue::Str(v.to_string()));
    }
    b.build()
}

fn pairs(v: &[(String, String)]) -> Vec<(&str, &str)> {
    v.iter().map(|(a, b)| (a.as_str(), b.as_str())).collect()
}

#[test]
fn namespaces_dimensions_entities() {
    let svc = service();
    assert_eq!(svc.get_default_namespace(ResourceType::RDS), "AWS/RDS");
    assert_eq!(svc.namespace_for(&settings(&[("namespace", "Custom/App")]), ResourceType::RDS), "Custom/App");
    assert_eq!(svc.namespace_for(&settings(&[]), ResourceType::Other), "AWS/Other");
    assert_eq!(svc.build_cloudwatch_dimensions(ResourceType::DynamoDB, "orders"), vec![("TableName".to_string(), "orders".to_string())]);
    assert!(svc.build_cloudwatch_dimensions(ResourceType::Other, "x").is_empty());
    assert_eq!(svc.get_dynatrace_entity_type(ResourceType::Kubernetes), "KUBERNETES_CLUSTER");
}

#[test]
fn available_metrics() {
    let svc = service();
    let rds = svc.get_available_metrics(SourceType::CloudWatch, ResourceType::RDS, &None);
    assert_eq!(rds.len(), 8);
    assert_eq!(rds[0], "CPUUtilization");
    let list = ArrayBuilder::new()
        .item(JsonValue::Str("latency".to_string()))
        .item(JsonValue::Number(JsonNumber::PosInt(3)))
        .item(JsonValue::Str("errors".to_string()))
        .build();
    let config = Some(ObjectBuilder::new().field("available_metrics", list).build());
    assert_eq!(svc.get_available_metrics(SourceType::Prometheus, ResourceType::RDS, &config), vec!["latency".to_string(), "errors".to_string()]);
    assert_eq!(svc.get_available_metrics(SourceType::CloudWatch, ResourceType::Other, &config), vec!["latency".to_string(), "errors".to_string()]);
    assert!(svc.get_available_metrics(SourceType::Splunk, ResourceType::Other, &None).is_empty());
}

#[test]
fn connection_probes() {
    let svc = service();
    assert!(matches!(svc.test_data_source_connection(SourceType::CloudWatch, &settings(&[]), false), ConnectionProbe::Known(false)));
    assert!(matches!(svc.test_data_source_connection(SourceType::CloudWatch, &settings(&[]), true), ConnectionProbe::ListCloudWatchMetrics));
    match svc.test_data_source_connection(SourceType::Dynatrace, &settings(&[("base_url", "https://dt"), ("api_token", "tok")]), false) {
        ConnectionProbe::HttpGet { url, authorization } => {
            assert_eq!(url, "https://dt/api/v2/metrics");
            assert_eq!(authorization.as_deref(), Some("Api-Token tok"));
        }
        _ => panic!("GET expected"),
    }
    assert!(matches!(svc.test_data_source_connection(SourceType::Dynatrace, &settings(&[("base_url", "x")]), false), ConnectionProbe::Known(false)));
    match svc.test_data_source_connection(SourceType::Prometheus, &settings(&[("base_url", "http://p")]), false) {
        ConnectionProbe::HttpGet { url, authorization } => {
            assert_eq!(url, "http://p/api/v1/label/__name__/values");
            assert!(authorization.is_none());
        }
        _ => panic!("GET expected"),
    }
    assert!(matches!(svc.test_data_source_connection(SourceType::Custom, &settings(&[]), false), ConnectionProbe::Known(true)));
}

#[test]
fn source_queries() {
    let svc = service();
    match svc.dynatrace_query(&settings(&[("base_url", "x")]), &vec![], ResourceType::RDS, 0, 1) {
        Err(AppError::BadRequest(m)) => assert_eq!(m, "Dynatrace API token not configured"),
        _ => panic!("bad request expected"),
    }
    match svc.dynatrace_query(&settings(&[("api_token", "t")]), &vec![], ResourceType::RDS, 0, 1) {
        Err(AppError::BadRequest(m)) => assert_eq!(m, "Dynatrace base URL not configured"),
        _ => panic!("bad request expected"),
    }
    let q = svc
        .dynatrace_query(&settings(&[("api_token", "t"), ("base_url", "https://dt")]), &vec!["cpu".to_string(), "mem".to_string()], ResourceType::RDS, 1000, -5)
        .ok()
        .unwrap();
    assert_eq!(q.url, "https://dt/api/v2/metrics/query");
    assert_eq!(q.authorization.as_deref(), Some("Api-Token t"));
    assert_eq!(pairs(&q.params), vec![("metricSelector", "cpu,mem"), ("entitySelector", "type(DATABASE)"), ("from", "1000"), ("to", "-5")]);
    let p = svc.prometheus_query(&settings(&[("base_url", "http://p")]), "up", 10, 20, None).ok().unwrap();
    assert_eq!(p.url, "http://p/api/v1/query_range");
    assert_eq!(pairs(&p.params), vec![("query", "up"), ("start", "10"), ("end", "20"), ("step", "300")]);
    match svc.prometheus_query(&settings(&[]), "up", 0, 1, Some(60)) {
        Err(AppError::BadRequest(m)) => assert_eq!(m, "Prometheus base URL not configured"),
        _ => panic!("bad request expected"),
    }
    match svc.check_splunk_settings(&settings(&[("base_url", "b")])) {
        Err(AppError::BadRequest(m)) => assert_eq!(m, "Splunk username not configured"),
        _ => panic!("bad request expected"),
    }
    assert!(svc.check_splunk_settings(&settings(&[("base_url", "b"), ("username", "u"), ("password", "p")])).is_ok());
    assert_eq!(svc.collect_data(SourceType::Splunk, false).unwrap(), Collector::Splunk);
    match svc.collect_data(SourceType::CloudWatch, false) {
        Err(AppError::InternalServerError(m)) => assert_eq!(m, "CloudWatch client not configured"),
        _ => panic!("error expected"),
    }
    assert_eq!(svc.source_label(SourceType::Prometheus), "Prometheus");
}

fn num(n: u64) -> JsonValue {
    JsonValue::Number(JsonNumber::PosInt(n))
}

fn pair(a: JsonValue, b: JsonValue) -> JsonValue {
    ArrayBuilder::new().item(a).item(b).build()
}

#[test]
fn prometheus_samples_keep_well_formed_pairs_in_order() {
    let first = ArrayBuilder::new()
        .item(pair(num(1700000000), JsonValue::text("1.5")))
        .item(pair(JsonValue::text("late"), JsonValue::text("3")))
        .item(ArrayBuilder::new().item(num(5)).build())
        .item(pair(num(1700000060), JsonValue::text("2")))
        .build();
    let second = ArrayBuilder::new().item(pair(num(1700000120), JsonValue::text("7"))).build();
    let results = ArrayBuilder::new()
        .item(ObjectBuilder::new().field("values", first).build())
        .item(ObjectBuilder::new().field("metric", JsonValue::empty_object()).build())
        .item(ObjectBuilder::new().field("values", second).build())
        .build();
    let resp = ObjectBuilder::new()
        .field("data", ObjectBuilder::new().field("result", results).build())
        .build();
    let samples = prometheus_samples(&resp);
    let seen: Vec<(u64, String)> = samples.iter().map(|(t, v)| (t.as_u64().unwrap(), v.clone())).collect();
    assert_eq!(
        seen,
        vec![
            (1700000000, "1.5".to_string()),
            (1700000060, "2".to_string()),
            (1700000120, "7".to_string()),
        ]
    );
    assert!(prometheus_samples(&JsonValue::empty_object()).is_empty());
}

#[test]
fn dynatrace_points_are_counted_across_series() {
    let points = ArrayBuilder::new().item(num(1)).item(num(2)).build();
    let more = ArrayBuilder::new().item(JsonValue::Null).build();
    let results = ArrayBuilder::new()
        .item(ObjectBuilder::new().field("data", points).build())
        .item(ObjectBuilder::new().field("data", JsonValue::text("none")).build())
        .item(ObjectBuilder::new().field("data", more).build())
        .build();
    let resp = ObjectBuilder::new().field("result", results).build();
    assert_eq!(dynatrace_point_count(&resp), 3);
    assert_eq!(dynatrace_point_count(&JsonValue::Null), 0);
}
