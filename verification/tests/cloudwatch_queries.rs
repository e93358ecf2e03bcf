use backend::cloudwatch_scraper::{dimensions_to_map, metric_for_id, metric_queries, metric_query_id, metrics_object_name, query_batches, StorageFormat};

#[test]
fn query_ids_and_batches() {
    assert_eq!(metric_query_id(3, "CPU.Utilization"), "m3_CPU_Utilization");
    let q = metric_queries(&vec![Some("A-b".to_string()), None, Some("c".to_string())]);
    assert_eq!(q, vec![("m0_A_b".to_string(), 0), ("m2_c".to_string(), 2)]);
    assert_eq!(query_batches(5, 2), vec![(0, 2), (2, 4), (4, 5)]);
    assert_eq!(query_batches(3, 0), vec![(0, 1), (1, 2), (2, 3)]);
    assert!(query_batches(0, 10).is_empty());
}

#[test]
fn stored_object_names() {
    let (name, ct) = metrics_object_name("metrics/prod", "20240101_120000", StorageFormat::Json);
    assert_eq!(name, "metrics/prod/metrics_20240101_120000.json");
    assert_eq!(ct, "application/json");
    let (name, ct) = metrics_object_name("./metrics", "x", StorageFormat::Parquet);
    assert_eq!(name, "./metrics/metrics_x.parquet");
    assert_eq!(ct, "application/octet-stream");
}

#[test]
fn query_ids_of_different_metrics_differ() {
    assert_ne!(metric_query_id(1, "1x"), metric_query_id(11, "x"));
    assert_ne!(metric_query_id(12, "3"), metric_query_id(1, "2_3"));
    assert_eq!(metric_query_id(1, "2_3"), "m1_2_3");
}

#[test]
fn result_ids_lead_back_to_their_metrics() {
    let q = metric_queries(&vec![Some("CPU Util".to_string()), None, Some("Net/In".to_string())]);
    assert_eq!(metric_for_id(&q, "m2_Net_In"), Some(2));
    assert_eq!(metric_for_id(&q, "m0_CPU_Util"), Some(0));
    assert_eq!(metric_for_id(&q, "m1_Net_In"), None);
}

#[test]
fn dimensions_keep_each_name_once_with_its_last_value() {
    let s = |x: &str| Some(x.to_string());
    let dims = vec![
        (s("InstanceId"), s("i-1")),
        (None, s("orphan")),
        (s("AZ"), s("a")),
        (s("InstanceId"), s("i-2")),
        (s("Queue"), None),
    ];
    assert_eq!(
        dimensions_to_map(&dims),
        vec![("InstanceId".to_string(), "i-2".to_string()), ("AZ".to_string(), "a".to_string())]
    );
}
