use s3_vault::credentials::StoredCredentials;
use s3_vault::s3::{
    auto_connect_config, collect_listing, ListedObject, S3Config, S3Error, S3Manager, LIST_LIMIT,
};

fn config(bucket: &str, endpoint: Option<&str>) -> S3Config {
    S3Config {
        access_key_id: "AKID".to_string(),
        secret_access_key: "SECRET".to_string(),
        region: "eu-central-1".to_string(),
        bucket_name: bucket.to_string(),
        endpoint_url: endpoint.map(|e| e.to_string()),
    }
}

fn object(key: Option<&str>, size: Option<i64>, modified: Option<&str>, class: Option<&str>) -> ListedObject {
    ListedObject {
        key: key.map(|k| k.to_string()),
        size,
        last_modified: modified.map(|m| m.to_string()),
        storage_class: class.map(|c| c.to_string()),
    }
}

#[test]
fn disconnected_operations_fail() {
    let m: S3Manager<u32> = S3Manager::new();
    assert!(!m.is_connected());
    assert_eq!(m.list_files(None).unwrap_err(), S3Error::NotConnected);
    assert_eq!(m.download_file("a").unwrap_err(), S3Error::NotConnected);
    assert_eq!(m.upload_file("a").unwrap_err(), S3Error::NotConnected);
    assert_eq!(m.delete_file("a").unwrap_err(), S3Error::NotConnected);
    assert_eq!(S3Error::NotConnected.into_message(), "Not connected to S3");
}

#[test]
fn connected_operations_use_config() {
    let mut m: S3Manager<u32> = S3Manager::new();
    m.connect(config("photos", None), 7);
    assert!(m.is_connected());
    let (client, target) = m.download_file("a/b.txt").unwrap();
    assert_eq!(*client, 7);
    assert_eq!(target.bucket, "photos");
    assert_eq!(target.key, "a/b.txt");
    let (_, target) = m.delete_file("x").unwrap();
    assert_eq!(target.bucket, "photos");
}

#[test]
fn second_connect_replaces_first() {
    let mut m: S3Manager<u32> = S3Manager::new();
    m.connect(config("first", None), 1);
    m.connect(config("second", Some("https://example.com")), 2);
    let (client, target) = m.upload_file("k").unwrap();
    assert_eq!(*client, 2);
    assert_eq!(target.bucket, "second");
    let (client, req) = m.list_files(None).unwrap();
    assert_eq!(*client, 2);
    assert_eq!(req.bucket, "second");
}

#[test]
fn listing_request_caps_and_prefixes() {
    let mut m: S3Manager<u32> = S3Manager::new();
    m.connect(config("logs-bucket", None), 3);
    let (_, req) = m.list_files(None).unwrap();
    assert_eq!(req.max_keys, 1000);
    assert_eq!(LIST_LIMIT, 1000);
    assert_eq!(req.prefix, None);
    let (_, req) = m.list_files(Some("logs/".to_string())).unwrap();
    assert_eq!(req.prefix.as_deref(), Some("logs/"));
    assert_eq!(req.max_keys, 1000);
}

#[test]
fn listing_drops_incomplete_objects() {
    let objs = vec![
        object(Some("a"), Some(1), Some("2024-01-01T00:00:00Z"), Some("STANDARD")),
        object(None, Some(2), Some("2024-01-01T00:00:00Z"), None),
        object(Some("c"), None, Some("2024-01-01T00:00:00Z"), None),
        object(Some("d"), Some(4), None, None),
        object(Some("e"), Some(5), Some("2024-02-02T00:00:00Z"), None),
    ];
    let files = collect_listing(&objs);
    assert_eq!(files.len(), 2);
    assert_eq!(files[0].key, "a");
    assert_eq!(files[0].size, 1);
    assert_eq!(files[0].storage_class.as_deref(), Some("STANDARD"));
    assert_eq!(files[1].key, "e");
    assert_eq!(files[1].last_modified, "2024-02-02T00:00:00Z");
    assert_eq!(files[1].storage_class, None);
}

#[test]
fn listing_keeps_at_most_what_store_returned() {
    let objs: Vec<ListedObject> = (0..1000)
        .map(|i| object(Some(&format!("logs/{i}")), Some(i), Some("t"), None))
        .collect();
    let files = collect_listing(&objs);
    assert_eq!(files.len(), 1000);
    assert!(files.iter().all(|f| f.key.starts_with("logs/")));
}

#[test]
fn auto_connect_without_record_stays_disconnected() {
    let mut m: S3Manager<u32> = S3Manager::new();
    let cfg = auto_connect_config(None);
    assert!(cfg.is_none());
    assert!(!m.restore(None));
    assert!(!m.is_connected());
}

#[test]
fn auto_connect_with_record_connects() {
    let saved = StoredCredentials {
        access_key_id: "AK".to_string(),
        secret_access_key: "SK".to_string(),
        region: "us-west-2".to_string(),
        bucket_name: "saved".to_string(),
        endpoint_url: Some("https://s3.example.net".to_string()),
    };
    let cfg = auto_connect_config(Some(saved)).unwrap();
    assert_eq!(cfg.bucket_name, "saved");
    assert_eq!(cfg.endpoint_url.as_deref(), Some("https://s3.example.net"));
    let mut m: S3Manager<u32> = S3Manager::new();
    assert!(m.restore(Some((cfg, 9))));
    let (client, target) = m.download_file("f").unwrap();
    assert_eq!(*client, 9);
    assert_eq!(target.bucket, "saved");
}

#[test]
fn config_and_record_convert_both_ways() {
    let c = config("b", Some("http://localhost:9000"));
    let rec = c.to_credentials();
    assert_eq!(rec.access_key_id, "AKID");
    assert_eq!(rec.secret_access_key, "SECRET");
    assert_eq!(rec.region, "eu-central-1");
    assert_eq!(rec.bucket_name, "b");
    assert_eq!(rec.endpoint_url.as_deref(), Some("http://localhost:9000"));
    let back = S3Config::from_credentials(rec);
    assert_eq!(back.bucket_name, "b");
}

#[test]
fn client_settings_carry_region_credentials_endpoint() {
    let s = config("b", Some("https://nyc3.example.com")).client_settings();
    assert_eq!(s.region, "eu-central-1");
    assert_eq!(s.access_key_id, "AKID");
    assert_eq!(s.secret_access_key, "SECRET");
    assert_eq!(s.endpoint_url.as_deref(), Some("https://nyc3.example.com"));
    assert_eq!(s.provider_name, "s3-vault");
    let s = config("b", None).client_settings();
    assert_eq!(s.endpoint_url, None);
}
