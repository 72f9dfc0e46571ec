use extio::Extio;
use extio::IoError;
use extio::Op;
use extio::StoreBackend;
use extio::StoreError;

#[test]
fn put_then_get_returns_the_stored_bytes() {
    let mut s = StoreBackend::new();
    assert!(s.storage_put("alpha", b"one".to_vec()).is_ok());
    match s.storage_get("alpha") {
        Ok(v) => assert_eq!(v, b"one".to_vec()),
        Err(_) => panic!("a stored key must be found"),
    }
}

#[test]
fn get_of_a_missing_key_reports_the_store_failure() {
    let s = StoreBackend::new();
    match s.storage_get("absent") {
        Err(IoError::Backend(StoreError::MissingKey)) => {}
        Err(IoError::NotSupported(_)) => panic!("storage_get is supported by this backend"),
        Ok(_) => panic!("an empty store holds nothing"),
    }
}

#[test]
fn distinct_keys_answer_with_their_own_values() {
    let mut s = StoreBackend::new();
    assert!(s.storage_put("k1", vec![1, 1]).is_ok());
    assert!(s.storage_put("k2", vec![2, 2]).is_ok());
    assert!(s.storage_put("k3", vec![3, 3]).is_ok());
    assert_eq!(s.storage_get("k2").unwrap(), vec![2, 2]);
    assert_eq!(s.storage_get("k1").unwrap(), vec![1, 1]);
    assert_eq!(s.storage_get("k3").unwrap(), vec![3, 3]);
}

#[test]
fn put_of_an_existing_key_replaces_its_value() {
    let mut s = StoreBackend::new();
    assert!(s.storage_put("key", b"old".to_vec()).is_ok());
    assert!(s.storage_put("key", b"new".to_vec()).is_ok());
    assert_eq!(s.storage_get("key").unwrap(), b"new".to_vec());
}

#[test]
fn delete_removes_exactly_the_named_key() {
    let mut s = StoreBackend::new();
    assert!(s.storage_put("keep", vec![1]).is_ok());
    assert!(s.storage_put("drop", vec![2]).is_ok());
    assert!(s.storage_delete("drop").is_ok());
    assert!(matches!(
        s.storage_get("drop"),
        Err(IoError::Backend(StoreError::MissingKey))
    ));
    assert_eq!(s.storage_get("keep").unwrap(), vec![1]);
}

#[test]
fn delete_of_an_absent_key_still_succeeds() {
    let mut s = StoreBackend::new();
    assert!(s.storage_delete("never-stored").is_ok());
}

#[test]
fn store_stays_usable_after_a_failure() {
    let mut s = StoreBackend::new();
    assert!(s.storage_get("missing").is_err());
    assert!(s.storage_put("later", vec![7]).is_ok());
    assert_eq!(s.storage_get("later").unwrap(), vec![7]);
}

#[test]
fn storage_overrides_satisfy_no_other_operation() {
    let mut s = StoreBackend::new();
    match s.get_env("NONEXISTENT_KEY_X") {
        Err(IoError::NotSupported(op)) => assert_eq!(op, Op::GetEnv),
        _ => panic!("get_env must stay at its default"),
    }
    match s.read_file("a.txt") {
        Err(IoError::NotSupported(op)) => assert_eq!(op, Op::ReadFile),
        _ => panic!("read_file must stay at its default"),
    }
    match s.db_query("SELECT 1", &[]) {
        Err(IoError::NotSupported(op)) => assert_eq!(op, Op::DbQuery),
        _ => panic!("db_query must stay at its default"),
    }
}
