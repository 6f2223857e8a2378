use march_7th_app_lib::data_directory::backup_codec::{reminder_preview, DecodedBackup, Preview};
use march_7th_app_lib::data_directory::records::{Fault, ImportFiles};
use march_7th_app_lib::import_session::ImportSession;
use march_7th_app_lib::local_backup::LocalDataGate;
use march_7th_app_lib::reminders::model::Data;

type Gate = LocalDataGate<u32, u32>;

fn files() -> ImportFiles {
    ImportFiles {
        desktop: None,
        characters: br#"{"version":1,"selectedCharacterId":"march-7th"}"#.to_vec(),
        reminders: b"{}".to_vec(),
    }
}

fn package() -> Result<DecodedBackup, Fault> {
    Ok(DecodedBackup {
        files: files(),
        preview: Preview {
            created_at_utc_ms: 100,
            selected_character_id: "march-7th".into(),
            has_desktop_placement: false,
            reminders: reminder_preview(&Data::default()),
        },
    })
}

fn prepared(_: ImportFiles) -> Result<String, Fault> {
    Ok("0123456789abcdef0123456789abcdef".into())
}

#[test]
fn preview_freezes_bytes_and_confirm_is_one_use() {
    let mut session = ImportSession::default();
    let ticket = session.begin_selection((7, 9)).unwrap();
    let shown = session.finish_selection(ticket, (7, 9), package()).unwrap();
    assert_eq!(shown.ticket, ticket);
    assert_eq!(shown.preview.selected_character_id, "march-7th");
    let mut handed = None;
    let committed = session
        .confirm(ticket, (7, 9), |f: ImportFiles| {
            handed = Some(f.characters.clone());
            prepared(f)
        })
        .unwrap();
    assert_eq!(handed, Some(files().characters));
    assert_eq!(committed.transaction_id.len(), 32);
    assert!(committed.restart_required);
    assert_eq!(
        session.confirm(ticket, (7, 9), prepared).err(),
        Some(Fault::BackupStale)
    );
    assert_eq!(Fault::BackupStale.as_str(), "backupStale");
}

#[test]
fn replacement_cancellation_and_window_generation_fence_old_async_results() {
    let mut session = ImportSession::default();
    let first = session.begin_selection((1, 1)).unwrap();
    let second = session.begin_selection((1, 1)).unwrap();
    assert_eq!(
        session.finish_selection(first, (1, 1), package()).err(),
        Some(Fault::BackupStale)
    );
    let shown = session.finish_selection(second, (1, 1), package()).unwrap();
    assert_eq!(shown.ticket, second);
    session.cancel();
    assert_eq!(
        session.confirm(second, (1, 1), prepared).err(),
        Some(Fault::BackupStale)
    );
    let third = session.begin_selection((1, 1)).unwrap();
    assert_eq!(
        session.finish_selection(third, (1, 2), package()).err(),
        Some(Fault::BackupStale)
    );
    let fourth = session.begin_selection((2, 3)).unwrap();
    session.invalidate();
    assert_eq!(
        session.finish_selection(fourth, (2, 3), package()).err(),
        Some(Fault::BackupStale)
    );
    let fifth = session.begin_selection((2, 4)).unwrap();
    session.finish_selection(fifth, (2, 4), package()).unwrap();
    assert_eq!(
        session.confirm(fifth, (2, 5), prepared).err(),
        Some(Fault::BackupStale)
    );
}

#[test]
fn pending_or_failed_prepare_preserves_candidate() {
    let mut session = ImportSession::default();
    let ticket = session.begin_selection((1, 1)).unwrap();
    session.finish_selection(ticket, (1, 1), package()).unwrap();
    assert_eq!(
        session
            .confirm(ticket, (1, 1), |_| Err(Fault::PendingImportExists))
            .err(),
        Some(Fault::PendingImportExists)
    );
    assert_eq!(session.current_preview((1, 1)).unwrap().ticket, ticket);
    assert!(session.current_preview((1, 2)).is_none());
    assert!(session.confirm(ticket, (1, 1), prepared).is_ok());
    assert!(session.current_preview((1, 1)).is_none());
}

#[test]
fn a_failed_read_clears_the_selection_and_reports_its_fault() {
    let mut session = ImportSession::default();
    let ticket = session.begin_selection((1, 1)).unwrap();
    assert_eq!(
        session
            .finish_selection(ticket, (1, 1), Err(Fault::BackupChecksumMismatch))
            .err(),
        Some(Fault::BackupChecksumMismatch)
    );
    assert!(session.current_preview((1, 1)).is_none());
}

#[test]
fn gate_rejects_repeated_or_old_operations_and_cancel_unblocks_waiter() {
    let mut gate = Gate::default();
    let first = gate.begin((2, 4), 1).unwrap();
    assert_eq!(gate.begin((2, 4), 2), Err(Fault::BackupBusy));
    let (export_cancel, import_cancel) = gate.invalidate();
    assert_eq!(export_cancel, Some(1));
    assert_eq!(import_cancel, None);
    assert_eq!(gate.begin((2, 5), 3), Err(Fault::BackupBusy));
    gate.export_dialog_returned(first);
    let second = gate.begin((2, 5), 4).unwrap();
    assert_eq!(gate.authorize(first, (2, 5)), Err(Fault::BackupStale));
    assert_eq!(gate.authorize(second, (2, 5)), Ok(()));
    gate.complete(first);
    assert_eq!(gate.begin((2, 5), 5), Err(Fault::BackupBusy));
    gate.complete(second);
    assert!(gate.begin((2, 5), 6).is_ok());
}

#[test]
fn one_gate_serializes_export_and_import_dialogs_and_rejects_late_selection() {
    let mut gate = Gate::default();
    let export = gate.begin((1, 2), 10).unwrap();
    assert_eq!(gate.begin_import((1, 2), 20), Err(Fault::BackupBusy));
    gate.authorize(export, (1, 2)).unwrap();
    assert_eq!(gate.begin_import((1, 2), 20), Err(Fault::BackupBusy));
    gate.complete(export);
    let ticket = gate.begin_import((1, 2), 20).unwrap();
    assert_eq!(gate.begin((1, 2), 10), Err(Fault::BackupBusy));
    assert_eq!(gate.begin_import((1, 2), 21), Err(Fault::BackupBusy));
    let (_, import_cancel) = gate.invalidate();
    assert_eq!(import_cancel, Some(20));
    assert_eq!(gate.begin((1, 3), 11), Err(Fault::BackupBusy));
    gate.import_dialog_returned(ticket);
    assert_eq!(gate.authorize_import(ticket, (1, 2)), Err(Fault::BackupStale));
    assert_eq!(
        gate.finish_import(ticket, (1, 2), Err(Fault::BackupInvalid)).err(),
        Some(Fault::BackupStale)
    );
    let next = gate.begin_import((1, 3), 22).unwrap();
    assert_ne!(ticket, next);
    assert_eq!(gate.authorize_import(next, (1, 2)), Err(Fault::BackupStale));
    gate.cancel_import().unwrap();
}

#[test]
fn destroyed_owner_releases_stale_dialog_lease_but_old_callback_cannot_touch_new_session() {
    let mut gate = Gate::default();
    let old = gate.begin_import((2, 4), 1).unwrap();
    assert_eq!(gate.invalidate_destroyed(), (None, Some(1)));
    let new = gate.begin_import((3, 5), 2).unwrap();
    gate.import_dialog_returned(old);
    assert_eq!(gate.authorize_import(old, (3, 5)), Err(Fault::BackupStale));
    gate.import_dialog_returned(new);
    assert_eq!(gate.authorize_import(new, (3, 5)), Ok(()));
    gate.invalidate_destroyed();
    assert_eq!(
        gate.finish_import(new, (3, 5), Err(Fault::BackupInvalid)).err(),
        Some(Fault::BackupStale)
    );
    let export_old = gate.begin((4, 6), 3).unwrap();
    assert_eq!(gate.invalidate_destroyed(), (Some(3), None));
    let export_new = gate.begin((5, 7), 4).unwrap();
    gate.export_dialog_returned(export_old);
    assert_eq!(gate.authorize(export_old, (5, 7)), Err(Fault::BackupStale));
    gate.export_dialog_returned(export_new);
    assert_eq!(gate.authorize(export_new, (5, 7)), Ok(()));
}

#[test]
fn confirmed_prepare_finishes_after_window_close_without_reopening_old_preview() {
    let mut gate = Gate::default();
    let ticket = gate.begin_import((5, 6), 1).unwrap();
    gate.authorize_import(ticket, (5, 6)).unwrap();
    gate.finish_import(ticket, (5, 6), package()).unwrap();
    assert!(gate.import_preview((5, 6)).is_some());
    let candidate = gate.begin_import_prepare(ticket, (5, 6)).unwrap();
    assert_eq!(candidate.characters, files().characters);
    gate.invalidate();
    assert_eq!(gate.begin((5, 7), 2), Err(Fault::BackupBusy));
    let receipt = gate
        .finish_import_prepare(ticket, prepared(candidate))
        .unwrap();
    assert!(receipt.restart_required);
    assert!(gate.import_preview((5, 6)).is_none());
    assert!(gate.begin((5, 7), 2).is_ok());
}

#[test]
fn returned_import_picker_with_unavailable_session_releases_shared_gate() {
    for selected in [None, Some(())] {
        let mut gate = Gate::default();
        let ticket = gate.begin_import((2, 4), 1).unwrap();
        gate.import_dialog_returned(ticket);
        assert_eq!(
            gate.resolve_import_dialog(ticket, None, selected).0,
            Err(Fault::BackupStale)
        );
        let export = gate.begin((2, 5), 2).unwrap();
        gate.authorize(export, (2, 5)).unwrap();
        gate.complete(export);
        let next = gate.begin_import((2, 5), 3).unwrap();
        assert_ne!(next, ticket);
        assert_eq!(
            gate.resolve_import_dialog(ticket, None, Option::<()>::None).0,
            Err(Fault::BackupStale)
        );
        assert_eq!(gate.authorize_import(next, (2, 5)), Ok(()));
    }
}

#[test]
fn returned_cancelled_import_picker_with_valid_session_releases_shared_gate() {
    let mut gate = Gate::default();
    let ticket = gate.begin_import((3, 7), 1).unwrap();
    gate.import_dialog_returned(ticket);
    assert_eq!(
        gate.resolve_import_dialog(ticket, Some((3, 7)), Option::<()>::None).0,
        Ok(None)
    );
    assert!(gate.begin_import((3, 7), 2).is_ok());
}

#[test]
fn selected_file_is_read_only_for_the_current_session() {
    let mut gate = Gate::default();
    let ticket = gate.begin_import((3, 7), 1).unwrap();
    assert_eq!(
        gate.resolve_import_dialog(ticket, Some((3, 7)), Some("backup.json")),
        (Ok(Some("backup.json")), None)
    );
    assert_eq!(gate.begin((3, 7), 2), Err(Fault::BackupBusy));
    let preview = gate.finish_import(ticket, (3, 7), package()).unwrap();
    assert_eq!(preview.ticket, ticket);
    assert!(gate.begin((3, 7), 2).is_ok());
}

#[test]
fn new_selection_withdraws_a_ready_preview_until_its_own_is_ready() {
    let mut session = ImportSession::default();
    let first = session.begin_selection((4, 4)).unwrap();
    session.finish_selection(first, (4, 4), package()).unwrap();
    let second = session.begin_selection((4, 4)).unwrap();
    assert_eq!(second, first + 1);
    assert!(session.current_preview((4, 4)).is_none());
    assert_eq!(
        session.confirm(first, (4, 4), prepared).err(),
        Some(Fault::BackupStale)
    );
    assert_eq!(
        session.confirm(second, (4, 4), prepared).err(),
        Some(Fault::BackupStale)
    );
    assert_eq!(
        session.finish_selection(first, (4, 4), package()).err(),
        Some(Fault::BackupStale)
    );
    let shown = session.finish_selection(second, (4, 4), package()).unwrap();
    assert_eq!(shown.ticket, second);
}
