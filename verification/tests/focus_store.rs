use march_7th_app_lib::focus::model::{Code, Error};
use march_7th_app_lib::focus::store::Store;
use std::path::PathBuf;

fn store() -> Store<PathBuf> {
    Store::new(Some(PathBuf::from("focus.json")))
}

#[test]
fn missing_or_invalid_file_is_never_written() {
    for code in [Code::ReadFailed, Code::InvalidFile, Code::UnsupportedVersion] {
        let mut s = store();
        assert_eq!(
            s.loaded(Err(Error::new(code))).unwrap_err().code,
            code
        );
        assert_eq!(s.begin_save().unwrap_err().code.as_str(), "readOnly");
    }
    let unavailable: Store<PathBuf> = Store::new(None);
    assert!(unavailable.path().is_none());
    assert_eq!(unavailable.begin_save().unwrap_err().code, Code::ReadOnly);
}

#[test]
fn unchanged_file_may_be_replaced_repeatedly() {
    let mut s = store();
    assert_eq!(s.loaded(Ok(b"one".to_vec())).unwrap(), b"one".to_vec());
    s.begin_save().unwrap();
    assert_eq!(s.check_current(Ok(b"one".to_vec())).unwrap(), b"one".to_vec());
    s.saved(b"two");
    s.begin_save().unwrap();
    assert_eq!(s.check_current(Ok(b"two".to_vec())).unwrap(), b"two".to_vec());
}

#[test]
fn external_replacement_is_not_overwritten_even_when_valid() {
    let mut s = store();
    s.loaded(Ok(b"one".to_vec())).unwrap();
    s.begin_save().unwrap();
    assert_eq!(
        s.check_current(Ok(b"other".to_vec())).unwrap_err().code.as_str(),
        "fileChanged"
    );
    assert_eq!(s.begin_save().unwrap_err().code, Code::ReadOnly);
}

#[test]
fn unreadable_file_at_save_time_blocks_later_saves() {
    let mut s = store();
    s.loaded(Ok(b"one".to_vec())).unwrap();
    assert_eq!(
        s.check_current(Err(Error::new(Code::ReadFailed))).unwrap_err().code,
        Code::ReadFailed
    );
    assert_eq!(s.begin_save().unwrap_err().code, Code::ReadOnly);
}
