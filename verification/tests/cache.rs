use m_rs_lib::cache::file_cache::FileCache;
use m_rs_lib::cache::json_cache::JsonCache;
use m_rs_lib::cache::{PathKind, PutAction};

#[test]
fn file_cache_actions() {
    let c = FileCache { base_path: "./cache".to_string(), get_file_path: |k: &String| format!("{}.json", k) };
    assert_eq!(c.file_path(&"p1".to_string()), "./cache/p1.json");
    assert_eq!(c.put_action(PathKind::Missing), PutAction::WriteFile);
    assert_eq!(c.put_action(PathKind::File), PutAction::Keep);
    assert_eq!(c.put_action(PathKind::Directory), PutAction::CreateDirAll);
    assert!(c.is_cached(PathKind::File));
    assert!(!c.is_cached(PathKind::Missing));
    assert!(!c.is_cached(PathKind::Directory));
}

#[test]
fn json_cache_freshness() {
    let hour: u128 = 3_600_000_000_000;
    let c = JsonCache { time_to_live_nanos: hour, base_path: "./cache".to_string(), get_file_path: |k: &String| format!("{}.json", k) };
    assert_eq!(c.file_path(&"u - default".to_string()), "./cache/u - default.json");
    assert!(c.is_cached(PathKind::File, 0));
    assert!(c.is_cached(PathKind::File, hour));
    assert!(!c.is_cached(PathKind::File, hour + 1));
    assert!(!c.is_cached(PathKind::Missing, 0));
    assert!(!c.is_cached(PathKind::Directory, 0));
    assert_eq!(c.put_action(PathKind::File), PutAction::WriteFile);
    assert_eq!(c.put_action(PathKind::Missing), PutAction::WriteFile);
    assert_eq!(c.put_action(PathKind::Directory), PutAction::CreateDirAll);
}
