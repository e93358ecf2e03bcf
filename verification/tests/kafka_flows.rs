use backend::errors::AppError;
use backend::json::{ArrayBuilder, JsonValue, ObjectBuilder};
use backend::kafka::{
    BackupMessage, ConsumeOptions, ConsumerGroupOffset, MessageBackupRequest, MessageRestoreRequest,
    MessageTransformation, QueueDrainRequest,
};
use backend::kafka_flows::{
    backup_id_for, backup_message, batch_result_entry, consume_limits, consumer_settings,
    drain_settings, initial_drain_status, migrated_key, migration_verdict, observe_drain,
    partition_backup, partitions_to_process, partitions_to_restore, restore_record,
    restores_partition, retry_delay_ms, start_position, total_end_lag, BackupCursor, BatchOutcome, KafkaCounters,
    partition_addition, topic_deleted, configured_cluster, is_listed_topic, ConfiguredCluster,
    stored_bootstrap_servers, cluster_summary, broker_entry, health_report, produced_response, consumed_message,
    MessageVerdict, SeekPosition,
};

fn backup_request(max: Option<u64>, end: Option<i64>) -> MessageBackupRequest {
    MessageBackupRequest {
        topic: "orders".to_string(),
        partitions: None,
        start_offset: None,
        end_offset: end,
        max_messages: max,
        include_headers: None,
        include_timestamps: None,
    }
}

fn restore_request(keys: Option<bool>, headers: Option<bool>, partitions: Option<Vec<i32>>) -> MessageRestoreRequest {
    MessageRestoreRequest {
        target_topic: "t".to_string(),
        backup_id: "b".to_string(),
        partitions,
        preserve_timestamps: None,
        preserve_keys: keys,
        preserve_headers: headers,
    }
}

fn offset(topic: &str, partition: i32, lag: i64) -> ConsumerGroupOffset {
    ConsumerGroupOffset { topic: topic.to_string(), partition, offset: 0, lag }
}

#[test]
fn partitions_and_start_positions() {
    assert_eq!(partitions_to_process(&None, 3), vec![0, 1, 2]);
    assert_eq!(partitions_to_process(&Some(vec![4, 1]), 3), vec![4, 1]);
    assert_eq!(start_position(Some(17)), SeekPosition::Offset(17));
    assert_eq!(start_position(None), SeekPosition::Beginning);
    assert_eq!(backup_id_for("orders", 1700000000), "backup_orders_1700000000");
}

#[test]
fn backup_cursor_takes_up_to_the_limit() {
    let mut c = BackupCursor::new(&backup_request(Some(2), Some(100)));
    assert_eq!(c.verdict(0, 1, 5), MessageVerdict::Skip);
    assert_eq!(c.verdict(0, 0, 100), MessageVerdict::EndPartition);
    assert_eq!(c.verdict(0, 0, 5), MessageVerdict::Take);
    c.take();
    assert_eq!(c.verdict(0, 0, 6), MessageVerdict::Take);
    c.take();
    assert_eq!(c.total_messages(), 2);
    assert_eq!(c.verdict(1, 1, 0), MessageVerdict::EndPartition);
    let open = BackupCursor::new(&backup_request(None, None));
    assert_eq!(open.verdict(2, 2, i64::MAX), MessageVerdict::Take);
    assert_eq!(migration_verdict(0, 0, 9, Some(9)), MessageVerdict::EndPartition);
}

#[test]
fn stored_backup_messages() {
    let headers = Some(vec![("h".to_string(), "v".to_string())]);
    let m = backup_message(3, None, Some("k".to_string()), "v".to_string(), headers.clone(), None);
    assert_eq!(m.timestamp, 0);
    assert_eq!(m.headers, headers);
    let m2 = backup_message(3, Some(42), None, "v".to_string(), headers, Some(false));
    assert_eq!(m2.timestamp, 42);
    assert!(m2.headers.is_none());
    assert!(partition_backup(&"b".to_string(), &"t".to_string(), 0, vec![], &"now".to_string()).is_none());
    let d = partition_backup(&"b".to_string(), &"t".to_string(), 1, vec![m], &"now".to_string()).unwrap();
    assert_eq!(d.partition, 1);
    assert_eq!(d.checksum, 0);
    assert_eq!(d.messages.len(), 1);
}

#[test]
fn restores_keep_what_is_asked() {
    let msg = || BackupMessage {
        offset: 1,
        timestamp: 2,
        key: Some("k".to_string()),
        value: "payload".to_string(),
        headers: Some(vec![("a".to_string(), "b".to_string())]),
    };
    let r = restore_record(msg(), &restore_request(None, None, None));
    assert_eq!(r.payload, "payload");
    assert_eq!(r.key.as_deref(), Some("k"));
    assert!(r.headers.is_some());
    let r = restore_record(msg(), &restore_request(Some(false), Some(false), None));
    assert!(r.key.is_none() && r.headers.is_none());
    assert_eq!(partitions_to_restore(&restore_request(None, None, None), &vec![0, 2]), vec![0, 2]);
    assert_eq!(partitions_to_restore(&restore_request(None, None, Some(vec![5])), &vec![0, 2]), vec![5]);
    assert!(restores_partition(2, &vec![0, 2]));
    assert!(!restores_partition(5, &vec![0, 2]));
}

#[test]
fn migrated_keys_take_the_prefix() {
    let t = Some(MessageTransformation { key_prefix: Some("eu-".to_string()), header_additions: None, value_transformation: None });
    assert_eq!(migrated_key(Some("42".to_string()), &t).as_deref(), Some("eu-42"));
    assert_eq!(migrated_key(None, &t), None);
    assert_eq!(migrated_key(Some("42".to_string()), &None).as_deref(), Some("42"));
}

#[test]
fn queue_drain_is_tracked() {
    let req = QueueDrainRequest { topics: vec![], consumer_group: "g".to_string(), timeout_seconds: None, check_interval_ms: Some(10), max_lag_threshold: None };
    assert_eq!(drain_settings(&req), (300, 10, 0));
    let start = vec![offset("a", 0, 5), offset("a", 1, 0)];
    let (total, mut statuses) = initial_drain_status(&start, 0);
    assert_eq!(total, 5);
    assert!(!statuses[0].is_drained && statuses[1].is_drained);
    let all = observe_drain(&mut statuses, &vec![offset("a", 0, 2), offset("a", 1, 1)], 0);
    assert!(!all);
    assert_eq!(statuses[0].lag_end, 2);
    assert_eq!(statuses[0].lag_start, 5);
    assert_eq!(total_end_lag(&statuses), 3);
    let all = observe_drain(&mut statuses, &vec![offset("a", 0, 0), offset("a", 1, 0)], 0);
    assert!(all);
    assert_eq!(total_end_lag(&statuses), 0);
}

#[test]
fn consumer_and_producer_settings() {
    let opts = ConsumeOptions { group_id: "g1".to_string(), max_messages: None, timeout_ms: None, from_beginning: Some(true) };
    let s = consumer_settings(&opts);
    assert_eq!(s[0], ("group.id".to_string(), "g1".to_string()));
    assert_eq!(s[3], ("auto.offset.reset".to_string(), "earliest".to_string()));
    assert_eq!(consume_limits(&opts), (10, 5000));
    let latest = ConsumeOptions { group_id: "g".to_string(), max_messages: Some(3), timeout_ms: Some(7), from_beginning: None };
    assert_eq!(consumer_settings(&latest)[3].1, "latest");
    assert_eq!(consume_limits(&latest), (3, 7));
    assert_eq!(retry_delay_ms(0, 3), Some(100));
    assert_eq!(retry_delay_ms(2, 3), Some(400));
    assert_eq!(retry_delay_ms(3, 3), None);
    let ok = batch_result_entry(&BatchOutcome::Sent { partition: 1, offset: 9 });
    assert_eq!(ok.get("status").and_then(|v| v.as_str().cloned()).as_deref(), Some("success"));
    assert_eq!(ok.get("offset").and_then(|v| v.as_i64()), Some(9));
    let err = batch_result_entry(&BatchOutcome::Failed { error: "timeout".to_string() });
    assert_eq!(err.get("error").and_then(|v| v.as_str().cloned()).as_deref(), Some("timeout"));
}

#[test]
fn operation_counters() {
    let mut c = KafkaCounters::new();
    c.update_metrics("backup", true);
    c.update_metrics("backup", false);
    c.update_metrics("drain", false);
    c.update_metrics("produce", false);
    c.update_metrics("produce", true);
    assert_eq!(c.backups_created, 1);
    assert_eq!(c.backup_errors, 1);
    assert_eq!(c.drain_operations, 1);
    assert_eq!(c.errors_count, 1);
    c.update_backup_metrics(10, 0);
    c.update_restore_metrics(4, 7);
    c.update_migration_metrics(3);
    assert_eq!((c.messages_backed_up, c.active_backups), (10, 1));
    assert_eq!((c.messages_restored, c.total_restore_size_bytes, c.active_restores), (4, 7, 1));
    assert_eq!(c.messages_migrated, 3);
}

#[test]
fn topic_administration_answers() {
    use_answers();
}

fn text_of(v: &backend::json::JsonValue, key: &str) -> Option<String> {
    v.get(key).and_then(|x| x.as_str().cloned())
}

fn use_answers() {
    match partition_addition("orders", 0, true) {
        Err(backend::errors::AppError::Validation(m)) => assert_eq!(m, "Partition count must be greater than 0"),
        _ => panic!("validation error expected"),
    }
    let ok = partition_addition("orders", 3, true).ok().unwrap();
    assert_eq!(text_of(&ok, "message").as_deref(), Some("Partition addition validation successful"));
    assert_eq!(ok.get("new_partition_count").and_then(|v| v.as_i64()), Some(3));
    let done = partition_addition("orders", -2, false).ok().unwrap();
    assert_eq!(text_of(&done, "message").as_deref(), Some("Added -2 partitions to topic orders"));
    assert_eq!(done.get("partitions_added").and_then(|v| v.as_i64()), Some(-2));
    assert_eq!(text_of(&topic_deleted("orders"), "message").as_deref(), Some("Topic orders deleted successfully"));
}

fn cluster(name: &str, server: &str) -> ConfiguredCluster {
    ConfiguredCluster {
        name: name.to_string(),
        bootstrap_servers: vec![server.to_string()],
        sasl_username: Some("user".to_string()),
        sasl_password: None,
        sasl_mechanism: None,
        security_protocol: "PLAINTEXT".to_string(),
    }
}

#[test]
fn configured_cluster_takes_the_first_with_the_name() {
    let clusters = vec![cluster("dev", "a:9092"), cluster("prod", "b:9092"), cluster("prod", "c:9092")];
    let c = configured_cluster(&clusters, "prod").unwrap();
    assert_eq!(c.bootstrap_servers, vec!["b:9092".to_string()]);
    assert_eq!(c.sasl_username, Some("user".to_string()));
    assert_eq!(c.security_protocol, "PLAINTEXT");
    assert_eq!(c.name, "prod");
}

#[test]
fn configured_cluster_unknown_name_is_not_found() {
    let clusters = vec![cluster("dev", "a:9092")];
    match configured_cluster(&clusters, "staging") {
        Err(AppError::NotFound(m)) => assert_eq!(m, "Kafka cluster with ID staging not found"),
        _ => panic!("expected not found"),
    }
}

#[test]
fn internal_topics_are_not_listed() {
    assert!(!is_listed_topic("__consumer_offsets"));
    assert!(is_listed_topic("_schemas"));
    assert!(is_listed_topic("orders"));
}

fn stored_config() -> JsonValue {
    let servers = ArrayBuilder::new()
        .item(JsonValue::text("k1:9092"))
        .item(JsonValue::Bool(true))
        .item(JsonValue::text("k2:9092"))
        .build();
    ObjectBuilder::new().field("bootstrap_servers", servers).build()
}

#[test]
fn stored_servers_keep_the_strings_in_order() {
    assert_eq!(stored_bootstrap_servers(&stored_config()), vec!["k1:9092".to_string(), "k2:9092".to_string()]);
    assert!(stored_bootstrap_servers(&JsonValue::text("k1:9092")).is_empty());
    assert!(stored_bootstrap_servers(&JsonValue::empty_object()).is_empty());
}

#[test]
fn cluster_summary_lists_the_stored_servers() {
    let v = cluster_summary("c-1", "main", &stored_config(), "active", JsonValue::text("2024-01-01T00:00:00Z"), JsonValue::Null);
    assert_eq!(text_of(&v, "id").as_deref(), Some("c-1"));
    assert_eq!(text_of(&v, "name").as_deref(), Some("main"));
    assert_eq!(text_of(&v, "status").as_deref(), Some("active"));
    assert_eq!(text_of(&v, "created_at").as_deref(), Some("2024-01-01T00:00:00Z"));
    assert!(matches!(v.get("last_connected_at"), Some(JsonValue::Null)));
    let servers: Vec<String> = v.get("bootstrap_servers").unwrap().array_items().iter().map(|x| x.as_str().unwrap().clone()).collect();
    assert_eq!(servers, vec!["k1:9092".to_string(), "k2:9092".to_string()]);
}

#[test]
fn health_report_lists_brokers() {
    let brokers = vec![broker_entry(1, "k1", 9092), broker_entry(2, "k2", 9093)];
    let v = health_report("c-1", brokers, 7, 1_700_000_000_000);
    assert_eq!(text_of(&v, "status").as_deref(), Some("healthy"));
    assert_eq!(text_of(&v, "cluster_id").as_deref(), Some("c-1"));
    assert_eq!(v.get("topics_count").and_then(|x| x.as_u64()), Some(7));
    assert_eq!(v.get("timestamp").and_then(|x| x.as_i64()), Some(1_700_000_000_000));
    let items = v.get("brokers").unwrap().array_items();
    assert_eq!(items.len(), 2);
    assert_eq!(items[1].get("port").and_then(|x| x.as_i64()), Some(9093));
    assert_eq!(text_of(&items[0], "host").as_deref(), Some("k1"));
}

#[test]
fn produced_response_writes_the_delivery_pair_as_reported() {
    let v = produced_response((3, 42), 1_000);
    assert_eq!(text_of(&v, "message").as_deref(), Some("Message produced successfully"));
    assert_eq!(v.get("offset").and_then(|x| x.as_i64()), Some(3));
    assert_eq!(v.get("partition").and_then(|x| x.as_i64()), Some(42));
    assert_eq!(v.get("timestamp").and_then(|x| x.as_i64()), Some(1_000));
}

#[test]
fn consumed_message_reads_bytes_as_text() {
    let headers = vec![("trace".to_string(), Some(b"abc".to_vec())), ("empty".to_string(), None)];
    let v = consumed_message(2, 17, None, Some(b"k\xff"), None, &headers);
    assert_eq!(v.get("partition").and_then(|x| x.as_i64()), Some(2));
    assert_eq!(v.get("offset").and_then(|x| x.as_i64()), Some(17));
    assert_eq!(v.get("timestamp").and_then(|x| x.as_i64()), Some(0));
    assert_eq!(text_of(&v, "key").as_deref(), Some("k\u{fffd}"));
    assert_eq!(text_of(&v, "value").as_deref(), Some(""));
    let hs = v.get("headers").unwrap().array_items();
    assert_eq!(hs.len(), 2);
    let first: Vec<String> = hs[0].array_items().iter().map(|x| x.as_str().unwrap().clone()).collect();
    assert_eq!(first, vec!["trace".to_string(), "abc".to_string()]);
    let second: Vec<String> = hs[1].array_items().iter().map(|x| x.as_str().unwrap().clone()).collect();
    assert_eq!(second, vec!["empty".to_string(), String::new()]);
    let no_key = consumed_message(0, 0, Some(5), None, Some(b"payload"), &vec![]);
    assert!(matches!(no_key.get("key"), Some(JsonValue::Null)));
    assert_eq!(text_of(&no_key, "value").as_deref(), Some("payload"));
    assert_eq!(no_key.get("timestamp").and_then(|x| x.as_i64()), Some(5));
}
