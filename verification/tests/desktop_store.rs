use march_7th_app_lib::desktop::store::{Found, Store};
use std::path::PathBuf;

fn file() -> PathBuf {
    PathBuf::from("desktop-state.json")
}

#[test]
fn missing_file_is_normal_and_a_parsed_one_is_used() {
    let (store, loaded, error) = Store::<PathBuf>::load::<u32>(file(), Found::Missing);
    assert!(store.writable);
    assert!(loaded.is_none());
    assert!(error.is_none());
    assert!(store.begin_save().is_ok());
    assert_eq!(store.path(), &file());
    let (store, loaded, error) = Store::<PathBuf>::load(file(), Found::Parsed(10u32));
    assert!(store.writable);
    assert_eq!(loaded, Some(10));
    assert!(error.is_none());
}

#[test]
fn invalid_config_is_kept_read_only_for_the_session() {
    for diagnostic in ["invalid configuration JSON", "unsupported desktop configuration version 2"] {
        let (mut store, loaded, error) =
            Store::<PathBuf>::load::<u32>(file(), Found::Invalid(diagnostic.into()));
        assert!(!store.writable);
        assert!(loaded.is_none());
        assert_eq!(error.as_deref(), Some(diagnostic));
        assert_eq!(
            store.begin_save().unwrap_err(),
            "configuration is read-only for this session"
        );
        assert!(store.check_previous::<u32>(Found::Missing).is_ok());
        assert!(store.begin_save().is_err());
    }
}

#[test]
fn unreadable_file_is_reported_but_later_saves_are_tried() {
    let (mut store, loaded, error) =
        Store::<PathBuf>::load::<u32>(file(), Found::ReadFailed("read configuration".into()));
    assert!(store.writable);
    assert!(loaded.is_none());
    assert!(error.is_some());
    assert!(store.begin_save().is_ok());
    assert!(store
        .check_previous::<u32>(Found::ReadFailed("read previous configuration".into()))
        .is_err());
    assert!(store.writable);
}

#[test]
fn external_future_replacement_is_never_overwritten() {
    let (mut store, _, _) = Store::<PathBuf>::load::<u32>(file(), Found::Missing);
    assert!(store.check_previous::<u32>(Found::Parsed(3)).is_ok());
    assert!(store
        .check_previous::<u32>(Found::Invalid("unsupported desktop configuration version 999".into()))
        .is_err());
    assert!(!store.writable);
    assert!(store.begin_save().is_err());
}
