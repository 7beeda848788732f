use s3_transfer::client::{S3Client, S3ClientManager};
use s3_transfer::types::S3Config;

fn config(id: &str, region: Option<&str>, endpoint: Option<&str>) -> S3Config {
    S3Config {
        id: id.to_string(),
        name: format!("cfg {id}"),
        access_key_id: "test-access-key".to_string(),
        secret_access_key: "test-secret-key".to_string(),
        region: region.map(|s| s.to_string()),
        endpoint: endpoint.map(|s| s.to_string()),
        session_token: None,
        bucket: None,
    }
}

#[test]
fn building_a_client_keeps_its_configuration() {
    let c = config("a", Some("eu-west-1"), None);
    let client = S3Client::new(c).expect("construction never fails");
    assert_eq!(client.config().id, "a");
    assert_eq!(client.config().region.as_deref(), Some("eu-west-1"));
}

#[test]
fn building_a_client_for_a_custom_endpoint() {
    let c = config("m", None, Some("http://localhost:9000"));
    let client = S3Client::new(c).expect("construction never fails");
    assert_eq!(
        client.config().endpoint.as_deref(),
        Some("http://localhost:9000")
    );
}

#[test]
fn acquire_twice_serves_the_cached_client() {
    let mut mgr = S3ClientManager::new();
    assert!(!mgr.contains_client(&"a".to_string()));

    let first = mgr
        .get_or_create_client(&config("a", Some("us-east-2"), None))
        .expect("construction never fails");
    assert!(mgr.contains_client(&"a".to_string()));

    // The second acquire must be a cache hit: it returns the client built
    // the first time, configuration and all, even though the caller now
    // names a different region under the same id.
    let second = mgr
        .get_or_create_client(&config("a", Some("eu-central-1"), None))
        .expect("lookup never fails");
    assert_eq!(first.config().region.as_deref(), Some("us-east-2"));
    assert_eq!(second.config().region.as_deref(), Some("us-east-2"));
    assert_eq!(second.config().id, "a");
}

#[test]
fn distinct_ids_are_cached_independently() {
    let mut mgr = S3ClientManager::new();
    let a = mgr
        .get_or_create_client(&config("a", Some("us-east-1"), None))
        .unwrap();
    let b = mgr
        .get_or_create_client(&config("b", Some("eu-west-3"), None))
        .unwrap();
    assert_eq!(a.config().id, "a");
    assert_eq!(b.config().id, "b");
    assert!(mgr.contains_client(&"a".to_string()));
    assert!(mgr.contains_client(&"b".to_string()));
}

#[test]
fn release_forces_reconstruction() {
    let mut mgr = S3ClientManager::new();
    let _ = mgr
        .get_or_create_client(&config("a", Some("us-east-2"), None))
        .unwrap();
    mgr.remove_client("a");
    assert!(!mgr.contains_client(&"a".to_string()));

    // After the release the next acquire rebuilds from the new settings.
    let rebuilt = mgr
        .get_or_create_client(&config("a", Some("eu-central-1"), None))
        .unwrap();
    assert_eq!(rebuilt.config().region.as_deref(), Some("eu-central-1"));
}

#[test]
fn removing_an_unknown_id_changes_nothing() {
    let mut mgr = S3ClientManager::new();
    let _ = mgr
        .get_or_create_client(&config("a", None, None))
        .unwrap();
    mgr.remove_client("zzz");
    assert!(mgr.contains_client(&"a".to_string()));
}
