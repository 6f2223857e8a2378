use march_7th_app_lib::reminders::model::{Code, Data, Error, Id};
use march_7th_app_lib::reminders::store::{
    load_outcome, save_gate, Persistence, Read, SaveStatus, Store,
};
use std::path::PathBuf;

#[test]
fn unavailable_directory_keeps_reminders_disabled_and_read_only() {
    let mut store: Store<PathBuf> = Store::new(None);
    assert!(store.path().is_none());
    let (data, persistence) = store.loaded(Read::NoDirectory);
    assert!(data.settings.items.iter().all(|item| !item.enabled));
    assert_eq!(persistence.status, SaveStatus::ReadOnly);
    assert_eq!(persistence.code.unwrap().as_str(), "directoryUnavailable");
    assert_eq!(store.begin_save(&data), Some(persistence));
}

#[test]
fn store_without_directory_turns_read_only_on_first_save() {
    let mut store: Store<PathBuf> = Store::new(None);
    let expected = Persistence::new(SaveStatus::ReadOnly, Some(Code::DirectoryUnavailable));
    assert_eq!(store.begin_save(&Data::default()), Some(expected));
    assert_eq!(store.begin_save(&Data::default()), Some(expected));
}

#[test]
fn runtime_corruption_of_the_previous_file_blocks_every_later_save() {
    let mut store = Store::new(Some(PathBuf::from("reminders.json")));
    let (data, persistence) = store.loaded(Read::Missing);
    assert_eq!(persistence.status, SaveStatus::Default);
    assert_eq!(store.begin_save(&data), None);
    assert_eq!(store.check_previous(Read::Missing), None);
    assert_eq!(
        store.written(Ok(())),
        Persistence::new(SaveStatus::Saved, None)
    );
    assert_eq!(store.begin_save(&data), None);
    let refused = store
        .check_previous(Read::Parsed(Err(Error::new(Code::InvalidFile))))
        .unwrap();
    assert_eq!(refused.status, SaveStatus::ReadOnly);
    assert_eq!(refused.code, Some(Code::InvalidFile));
    assert_eq!(store.begin_save(&data), Some(refused));
}

#[test]
fn failed_write_is_unsaved_and_may_be_retried() {
    let mut store = Store::new(Some(PathBuf::from("reminders.json")));
    let (data, _) = store.loaded(Read::Parsed(Ok(Data::default())));
    assert_eq!(store.begin_save(&data), None);
    assert_eq!(
        store.written(Err(Code::WriteFailed)),
        Persistence::new(SaveStatus::Unsaved, Some(Code::WriteFailed))
    );
    assert_eq!(store.begin_save(&data), None);
    let mut invalid = data;
    invalid.progress[0].pending = true;
    assert_eq!(
        store.begin_save(&invalid),
        Some(Persistence::new(SaveStatus::Unsaved, Some(Code::InvalidState)))
    );
    assert_eq!(store.begin_save(&data), None);
}

#[test]
fn missing_file_starts_from_defaults_and_may_be_written() {
    let (data, persistence) = load_outcome(Read::Missing);
    assert_eq!(data, Data::default());
    assert_eq!(persistence.status, SaveStatus::Default);
    assert_eq!(persistence.code, None);
    assert_eq!(save_gate(None, &data), None);
}

#[test]
fn invalid_future_duplicate_and_read_failure_are_preserved_and_locked() {
    let mut duplicate = Data::default();
    duplicate.progress[1].id = Id::Water;
    for read in [
        Read::Parsed(Err(Error::new(Code::InvalidFile))),
        Read::Parsed(Err(Error::new(Code::UnsupportedVersion))),
        Read::Parsed(Ok(duplicate)),
    ] {
        let (data, persistence) = load_outcome(read);
        assert_eq!(persistence.status, SaveStatus::ReadOnly);
        assert!(data.settings.items.iter().all(|i| !i.enabled));
        let blocked = persistence.code;
        assert_eq!(
            save_gate(blocked, &Data::default()).unwrap().status,
            SaveStatus::ReadOnly
        );
    }
    assert_eq!(
        load_outcome(Read::Parsed(Ok(duplicate))).1.code,
        Some(Code::InvalidFile)
    );
    assert_eq!(load_outcome(Read::Failed).1.code.unwrap().as_str(), "readFailed");
}

#[test]
fn valid_file_is_used_as_saved_and_invalid_data_is_never_written() {
    let mut data = Data::default();
    data.paused = true;
    let (loaded, persistence) = load_outcome(Read::Parsed(Ok(data)));
    assert_eq!(loaded, data);
    assert_eq!(persistence.status, SaveStatus::Saved);
    let mut changed = data;
    changed.progress[0].pending = true;
    let refused = save_gate(None, &changed).unwrap();
    assert_eq!(refused.status, SaveStatus::Unsaved);
    assert_eq!(refused.code, Some(Code::InvalidState));
}
