use backend::errors::AppError;
use backend::kafka::{
    metadata_matches_topic, validate_cluster_update, BackupData, BackupMessage, ClusterUpdateRequest, CompressionType,
    FileSystemStorage,
};

fn storage() -> FileSystemStorage {
    FileSystemStorage::new("/var/backups".to_string())
}

fn backup(messages: usize) -> BackupData {
    BackupData {
        backup_id: "b-1".to_string(),
        topic: "orders".to_string(),
        partition: 3,
        messages: (0..messages)
            .map(|i| BackupMessage {
                offset: i as i64,
                timestamp: 1_700_000_000 + i as i64,
                key: None,
                value: format!("v{}", i),
                headers: None,
            })
            .collect(),
        checksum: 0,
        created_at: "2026-06-10T00:00:00Z".to_string(),
    }
}

#[test]
fn test_cluster_update_validation() {
    let update_req = ClusterUpdateRequest {
        name: Some("updated-cluster".to_string()),
        bootstrap_servers: Some(vec!["localhost:9092".to_string()]),
        sasl_username: None,
        sasl_password: None,
        sasl_mechanism: None,
        security_protocol: Some("PLAINTEXT".to_string()),
    };
    let validation_result = validate_cluster_update(&update_req);
    assert!(validation_result.is_ok());
}

#[test]
fn test_invalid_bootstrap_servers() {
    let update_req = ClusterUpdateRequest {
        name: None,
        bootstrap_servers: Some(vec!["invalid-server".to_string()]), // Missing port
        sasl_username: None,
        sasl_password: None,
        sasl_mechanism: None,
        security_protocol: None,
    };
    let validation_result = validate_cluster_update(&update_req);
    assert!(validation_result.is_err());
    if let Err(AppError::Validation(msg)) = validation_result {
        assert!(msg.contains("Invalid bootstrap server format"));
    }
}

#[test]
fn test_invalid_security_protocol() {
    let update_req = ClusterUpdateRequest {
        name: None,
        bootstrap_servers: None,
        sasl_username: None,
        sasl_password: None,
        sasl_mechanism: None,
        security_protocol: Some("INVALID_PROTOCOL".to_string()),
    };
    let validation_result = validate_cluster_update(&update_req);
    assert!(validation_result.is_err());
    if let Err(AppError::Validation(msg)) = validation_result {
        assert!(msg.contains("Invalid security protocol"));
    }
}

#[test]
fn backup_paths_are_per_backup_and_partition() {
    let s = storage();
    assert_eq!(s.get_backup_path("b-1", 3, &CompressionType::Gzip), "/var/backups/b-1/partition_3.json.gz");
    assert_eq!(s.get_backup_path("b-1", -1, &CompressionType::Uncompressed), "/var/backups/b-1/partition_-1.json");
    assert_eq!(s.get_backup_path("b-2", 0, &CompressionType::Snappy), "/var/backups/b-2/partition_0.json.sz");
    assert_eq!(s.get_backup_path("b-2", 0, &CompressionType::Lz4), "/var/backups/b-2/partition_0.json.lz4");
    assert_eq!(s.get_metadata_path("b-1"), "/var/backups/b-1/metadata.json");
}

#[test]
fn checksum_is_crc32() {
    assert_eq!(storage().calculate_checksum(b"123456789"), 0xCBF4_3926);
    assert_eq!(storage().calculate_checksum(b""), 0);
}

#[test]
fn stored_backups_load_back_except_lz4() {
    let s = storage();
    let json = br#"{"backup_id":"b-1","messages":[1,2,3]}"#.to_vec();
    let data = backup(3);
    for c in [CompressionType::Uncompressed, CompressionType::Gzip, CompressionType::Snappy] {
        let stored = s.compress_data(&json, &c).unwrap();
        if !matches!(c, CompressionType::Uncompressed) {
            assert_ne!(stored, json, "{:?} should change the bytes", c);
        }
        let meta = s.backup_metadata(None, &data, &c, &json);
        assert_eq!(meta.partitions, vec![3]);
        assert_eq!(meta.total_messages, 3);
        assert_eq!(meta.checksum, s.calculate_checksum(&json));
        assert_eq!(s.verified_backup_json(&stored, &meta, 3).unwrap(), json, "{:?}", c);
        assert_eq!(s.partition_checks_out(&stored, &meta, 3).unwrap(), true);
    }
    // LZ4 blocks are written without the size prefix that the reader takes
    // from their first four bytes.
    let stored = s.compress_data(&json, &CompressionType::Lz4).unwrap();
    let meta = s.backup_metadata(None, &data, &CompressionType::Lz4, &json);
    assert!(!matches!(s.verified_backup_json(&stored, &meta, 3), Ok(ref v) if *v == json));
}

#[test]
fn corrupted_backups_are_refused() {
    let s = storage();
    let json = b"{\"k\":1}".to_vec();
    let data = backup(1);
    let meta = s.backup_metadata(None, &data, &CompressionType::Uncompressed, &json);
    match s.verified_backup_json(b"{\"k\":2}", &meta, 3) {
        Err(AppError::Internal(m)) => assert_eq!(m, "Backup data checksum verification failed"),
        _ => panic!("expected a checksum failure"),
    }
    assert_eq!(s.partition_checks_out(b"{\"k\":2}", &meta, 3).unwrap(), false);
    let gz = s.backup_metadata(None, &data, &CompressionType::Gzip, &json);
    match s.decompress_data(b"not gzip", &CompressionType::Gzip) {
        Err(AppError::Internal(m)) => assert!(m.starts_with("Gzip decompression failed: "), "{}", m),
        _ => panic!("expected a decoding failure"),
    }
    assert!(matches!(s.partition_checks_out(b"not gzip", &gz, 3), Err(AppError::Internal(_))));
}

#[test]
fn backups_are_listed_by_topic() {
    let s = storage();
    let meta = s.backup_metadata(None, &backup(0), &CompressionType::Gzip, b"{}");
    assert!(metadata_matches_topic(None, &meta));
    assert!(metadata_matches_topic(Some("orders"), &meta));
    assert!(!metadata_matches_topic(Some("payments"), &meta));
}

#[test]
fn every_partition_of_a_backup_loads_back() {
    let s = storage();
    let c = CompressionType::Gzip;
    let json0 = br#"{"partition":0}"#.to_vec();
    let json1 = br#"{"partition":1}"#.to_vec();
    let json1b = br#"{"partition":1,"again":true}"#.to_vec();
    let part = |p: i32, n: usize| {
        let mut d = backup(n);
        d.partition = p;
        d
    };
    let m0 = s.backup_metadata(None, &part(0, 2), &c, &json0);
    let m1 = s.backup_metadata(Some(&m0), &part(1, 3), &c, &json1);
    let m2 = s.backup_metadata(Some(&m1), &part(1, 4), &c, &json1b);
    assert_eq!(m2.partitions, vec![0, 1]);
    assert_eq!(m2.partition_records.len(), 2);
    assert_eq!(m2.total_messages, 6);
    let f0 = s.compress_data(&json0, &c).unwrap();
    let f1 = s.compress_data(&json1b, &c).unwrap();
    assert_eq!(s.verified_backup_json(&f0, &m2, 0).unwrap(), json0);
    assert_eq!(s.verified_backup_json(&f1, &m2, 1).unwrap(), json1b);
    assert!(s.partition_checks_out(&f0, &m2, 0).unwrap());
    match s.verified_backup_json(&f0, &m2, 7) {
        Err(AppError::Internal(m)) => assert_eq!(m, "Backup partition 7 is not recorded in the metadata"),
        _ => panic!("expected an unrecorded partition"),
    }
    // Metadata of another backup is not built on.
    let mut other = part(2, 1);
    other.backup_id = "b-other".to_string();
    let fresh = s.backup_metadata(Some(&m2), &other, &c, &json0);
    assert_eq!(fresh.partitions, vec![2]);
}
