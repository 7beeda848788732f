use s3_transfer::config_store::ConfigManager;
use s3_transfer::types::{S3Config, S3Error};

fn config(id: &str, name: &str) -> S3Config {
    S3Config {
        id: id.to_string(),
        name: name.to_string(),
        access_key_id: "test-access-key".to_string(),
        secret_access_key: "test-secret-key".to_string(),
        region: None,
        endpoint: None,
        session_token: None,
        bucket: None,
    }
}

#[test]
fn added_configurations_are_listed_in_order() {
    let mut mgr = ConfigManager::new();
    mgr.add_config(config("a", "first")).unwrap();
    mgr.add_config(config("b", "second")).unwrap();
    let all = mgr.get_configs().unwrap();
    assert_eq!(all.len(), 2);
    assert_eq!(all[0].id, "a");
    assert_eq!(all[1].id, "b");
}

#[test]
fn lookup_returns_the_first_match() {
    let mut mgr = ConfigManager::new();
    mgr.add_config(config("a", "first")).unwrap();
    mgr.add_config(config("a", "shadowed")).unwrap();
    let got = mgr.get_config("a").unwrap();
    assert_eq!(got.name, "first");
}

#[test]
fn lookup_of_an_unknown_id_is_not_found() {
    let mgr = ConfigManager::new();
    match mgr.get_config("nope") {
        Err(S3Error::NotFound(_)) => {}
        _ => panic!("an unknown id must report NotFound"),
    }
}

#[test]
fn errors_carry_their_cause_text() {
    let mgr = ConfigManager::new();
    match mgr.get_config("nope") {
        Err(err) => assert_eq!(err.message(), "no configuration carries this id"),
        Ok(_) => panic!("an unknown id must report NotFound"),
    }
}

#[test]
fn delete_drops_every_entry_with_the_id() {
    let mut mgr = ConfigManager::new();
    mgr.add_config(config("a", "first")).unwrap();
    mgr.add_config(config("b", "kept")).unwrap();
    mgr.add_config(config("a", "second")).unwrap();
    mgr.delete_config("a").unwrap();
    let all = mgr.get_configs().unwrap();
    assert_eq!(all.len(), 1);
    assert_eq!(all[0].id, "b");
}

#[test]
fn update_replaces_the_first_match_only() {
    let mut mgr = ConfigManager::new();
    mgr.add_config(config("a", "old")).unwrap();
    mgr.add_config(config("a", "other")).unwrap();
    mgr.update_config(config("a", "new")).unwrap();
    let all = mgr.get_configs().unwrap();
    assert_eq!(all[0].name, "new");
    assert_eq!(all[1].name, "other");
}

#[test]
fn update_of_an_unknown_id_is_not_found() {
    let mut mgr = ConfigManager::new();
    mgr.add_config(config("a", "kept")).unwrap();
    match mgr.update_config(config("b", "nope")) {
        Err(S3Error::NotFound(_)) => {}
        _ => panic!("an unknown id must report NotFound"),
    }
    let all = mgr.get_configs().unwrap();
    assert_eq!(all.len(), 1);
    assert_eq!(all[0].name, "kept");
}
