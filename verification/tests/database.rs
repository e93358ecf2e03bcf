use backend::aws::service::{CloudConfig, Config};
use backend::database::{DatabaseKind, DatabaseService, OPENSEARCH_SCHEMA, POSTGRES_SCHEMA, REDIS_SCHEMA};
use backend::errors::AppError;
use backend::json::{JsonNumber, JsonValue};

fn service() -> DatabaseService {
    DatabaseService::new(Config { cloud: CloudConfig { aws: vec![] } })
}

#[test]
fn connection_plans_by_kind() {
    let svc = service();
    let p = svc.connection_plan("mysql", Some("required")).unwrap();
    assert_eq!(p.kind, DatabaseKind::MySql);
    assert!(p.probe);
    assert!(p.stats.ssl_in_use);
    assert_eq!(p.stats.max_connections, 100);
    assert_eq!(p.stats.server_version, "MySQL 8.0");
    let p = svc.connection_plan("mysql", Some("disabled")).unwrap();
    assert!(!p.stats.ssl_in_use);
    let p = svc.connection_plan("postgres", None).unwrap();
    assert!(!p.stats.ssl_in_use);
    assert_eq!(p.stats.server_version, "PostgreSQL");
    let p = svc.connection_plan("redis", Some("on")).unwrap();
    assert!(!p.probe);
    assert!(!p.stats.ssl_in_use);
    assert_eq!(p.stats.max_connections, 10000);
    let p = svc.connection_plan("opensearch", None).unwrap();
    assert!(p.stats.ssl_in_use);
    assert_eq!(p.stats.max_connections, 0);
    match svc.connection_plan("oracle", None) {
        Err(AppError::BadRequest(m)) => assert_eq!(m, "Unsupported database type: oracle"),
        _ => panic!("bad request expected"),
    }
}

#[test]
fn successful_connection_report() {
    let svc = service();
    let stats = svc.connection_plan("redis", None).unwrap().stats;
    let r = svc.test_connection("redis", stats, 12);
    assert!(r.success);
    assert_eq!(r.message, "Successfully connected to redis database");
    assert_eq!(r.latency_ms, Some(12));
    assert_eq!(r.version_info.as_deref(), Some("Redis"));
}

#[test]
fn schema_documents() {
    let svc = service();
    let doc = svc.mysql_schema(&Some("shop".to_string()), &vec![2, 0]);
    assert_eq!(doc.get("database_name").and_then(|v| v.as_str().cloned()).as_deref(), Some("shop"));
    assert_eq!(doc.get("version").and_then(|v| v.as_str().cloned()).as_deref(), Some("8.0"));
    assert!(matches!(doc.get("tables"), Some(_)));
    assert_eq!(svc.described_schema(DatabaseKind::MySql), None);
    assert_eq!(svc.described_schema(DatabaseKind::Redis), Some(REDIS_SCHEMA));
    assert!(POSTGRES_SCHEMA.contains("\"references_table\":\"users\""));
    assert!(OPENSEARCH_SCHEMA.contains("\"products\""));
    assert_eq!(svc.database_kind("postgres").unwrap(), DatabaseKind::Postgres);
}

#[test]
fn sample_query_results() {
    let svc = service();
    let (columns, rows) = svc.redis_query_result();
    assert_eq!(columns, vec!["key".to_string(), "value".to_string(), "type".to_string()]);
    assert_eq!(rows.len(), 2);
    assert_eq!(rows[1].get("value").and_then(|v| v.as_str()).map(|s| s.as_str()), Some("[1,2,3]"));
    let (columns, rows) = svc.opensearch_query_result();
    assert_eq!(columns, vec!["_id".to_string(), "_source".to_string(), "_score".to_string()]);
    assert_eq!(
        rows[0].get("_source").and_then(|s| s.get("title")).and_then(|v| v.as_str()).map(|s| s.as_str()),
        Some("Document 1")
    );
    assert!(matches!(rows[1].get("_score"), Some(JsonValue::Number(JsonNumber::Float(t))) if t == "0.8"));
}
