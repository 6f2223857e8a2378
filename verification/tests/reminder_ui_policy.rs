use march_7th_app_lib::reminders::ui_policy::{PresentationUi, SettingsUi, Ticket};

#[test]
fn settings_location_intents_supersede_each_other_without_replacing_session() {
    let mut ui = SettingsUi::default();
    let token = ui.request_open(false, false).unwrap();
    assert!(ui.created(token));
    assert!(ui.presented(ui.intent));
    let session = ui.export_session(false);
    ui.request_open(true, true);
    let old_intent = ui.intent;
    ui.request_open(true, true);
    assert!(ui.intent > old_intent);
    assert!(!ui.may_show(old_intent));
    assert!(!ui.presented(old_intent));
    assert_eq!(ui.export_session(false), session);
    let closing_intent = ui.intent;
    ui.close();
    assert!(!ui.presented(closing_intent));
    assert_eq!(ui.export_session(false), None);
    ui.request_open(true, false);
    assert!(!ui.presented(closing_intent));
    assert!(ui.presented(ui.intent));
    assert_ne!(ui.export_session(false), session);
}
#[test]
fn settings_focus_requires_current_explicit_open_and_close_cancels_it() {
    let mut ui = SettingsUi::default();
    assert!(!ui.may_show(0));
    let token = ui.request_open(false, false).unwrap();
    let generation = ui.intent;
    assert!(!ui.may_show(generation));
    assert!(ui.created(token));
    assert!(ui.may_show(generation));
    ui.close();
    assert!(!ui.may_show(generation));
    ui.request_open(true, false);
    assert!(!ui.may_show(generation));
    assert!(ui.may_show(ui.intent));
}
#[test]
fn settings_stop_rejects_late_build_and_no_open_revives_it() {
    let mut ui = SettingsUi::default();
    let token = ui.request_open(false, false).unwrap();
    ui.stop();
    assert!(!ui.created(token));
    assert!(ui.request_open(false, false).is_none());
    assert!(!ui.may_show(ui.intent));
}
#[test]
fn shown_settings_can_export_after_open_intent_clears_but_old_generation_cannot() {
    let mut ui = SettingsUi::default();
    let token = ui.request_open(false, false).unwrap();
    let generation = ui.intent;
    assert!(ui.created(token));
    assert!(ui.may_show(generation));
    assert_eq!(ui.export_session(false), None);
    assert!(ui.presented(generation)); // native show and focus completed
    assert!(!ui.open);
    assert_eq!(ui.export_session(false), Some((token, generation)));
    assert_eq!(ui.export_session(true), None); // display reflow is unsettled
    ui.close();
    assert_eq!(ui.export_session(false), None);
    ui.request_open(true, false);
    assert_eq!(ui.export_session(false), None);
    assert!(ui.presented(ui.intent));
    assert_ne!(ui.export_session(false), Some((token, generation)));
}
#[test]
fn destroyed_window_cancels_only_matching_settings_session() {
    let mut ui = SettingsUi::default();
    let old = ui.request_open(false, false).unwrap();
    assert!(ui.created(old));
    assert!(ui.presented(ui.intent));
    assert!(ui.destroyed(old));
    assert_eq!(ui.export_session(false), None);
    let new = ui.request_open(false, false).unwrap();
    assert_ne!(new, old);
    assert!(!ui.destroyed(old));
    assert!(ui.created(new));
    assert!(ui.presented(ui.intent));
    assert_eq!(ui.export_session(false), Some((new, ui.generation)));
}
#[test]
fn failed_native_show_cannot_claim_visible_or_reopen_without_new_intent() {
    let (mut ui, ticket) = active();
    ui.finish_show(ticket, false);
    assert!(!ui.shown);
    assert!(ui.failed);
    assert!(!ui.can_show(ticket));
    ui.update(3, Some(11), false);
    ui.ready(ticket.token, 11);
    let manual = ui.ticket().unwrap();
    ui.finish_show(ticket, true); // late successful effect report from old view
    assert!(!ui.shown);
    assert!(ui.can_show(manual));
    ui.finish_show(manual, true);
    assert!(ui.shown);
}
fn active() -> (PresentationUi, Ticket) {
    let mut ui = PresentationUi::default();
    assert!(ui.update(2, Some(10), false));
    let token = ui.begin_create().unwrap();
    assert!(ui.created(token));
    assert!(ui.ready(token, 10));
    let ticket = ui.ticket().unwrap();
    (ui, ticket)
}
#[test]
fn old_snapshot_cannot_reopen_and_auto_null_hides() {
    let (mut ui, ticket) = active();
    ui.shown = true;
    assert!(ui.update(3, None, false));
    assert!(!ui.update(2, Some(10), false));
    assert!(!ui.can_show(ticket));
    assert!(!ui.shown);
}
#[test]
fn same_id_update_keeps_ready_and_does_not_repeat_show() {
    let (mut ui, ticket) = active();
    assert!(ui.can_show(ticket));
    ui.shown = true;
    ui.update(3, Some(10), false);
    assert!(ui.accepts(ticket));
    assert!(!ui.can_show(ticket));
}
#[test]
fn manual_generation_rejects_old_ready_and_position_callbacks() {
    let (mut ui, old) = active();
    ui.update(3, Some(11), false);
    assert!(!ui.accepts(old));
    assert!(!ui.ready(old.token, 10));
    assert!(ui.ready(old.token, 11));
    assert!(ui.can_show(ui.ticket().unwrap()));
}
#[test]
fn close_suppresses_only_current_id_and_is_not_completion() {
    let (mut ui, old) = active();
    assert_eq!(ui.dismiss(), Some(10));
    ui.update(3, Some(10), false); // service command still in flight
    assert!(!ui.can_show(old));
    ui.update(4, Some(11), false);
    assert!(ui.ready(old.token, 11));
    assert!(ui.can_show(ui.ticket().unwrap()));
}
#[test]
fn stop_rejects_construction_ready_and_old_snapshots() {
    let mut ui = PresentationUi::default();
    ui.update(2, Some(10), false);
    let token = ui.begin_create().unwrap();
    ui.update(3, None, true);
    assert!(!ui.created(token));
    assert!(!ui.ready(token, 10));
    assert!(!ui.update(4, Some(11), false));
    assert!(ui.begin_create().is_none());
}
#[test]
fn failure_does_not_retry_forever_and_recovery_gets_new_token() {
    let (mut ui, old) = active();
    ui.destroyed(old.token);
    assert!(ui.failed);
    assert!(ui.begin_create().is_none());
    ui.update(3, Some(11), false); // explicit ShowPending creates a fresh ID
    let token = ui.begin_create().unwrap();
    assert_ne!(token, old.token);
    assert!(!ui.created(old.token));
    assert!(!ui.ready(old.token, 11));
    assert!(ui.created(token));
}
#[test]
fn page_reload_requires_new_ready_before_show() {
    let (mut ui, ticket) = active();
    ui.shown = true;
    ui.reload(ticket.token);
    assert!(!ui.accepts(ticket));
    assert!(!ui.can_show(ui.ticket().unwrap()));
    assert!(ui.ready(ticket.token, 10));
    assert!(ui.can_show(ui.ticket().unwrap()));
}
#[test]
fn ready_before_construction_completion_is_retained_but_cannot_show_early() {
    let mut ui = PresentationUi::default();
    ui.update(2, Some(10), false);
    let token = ui.begin_create().unwrap();
    assert!(ui.ready(token, 10));
    let ticket = ui.ticket().unwrap();
    assert!(!ui.can_show(ticket));
    assert!(ui.created(token));
    assert!(ui.can_show(ticket));
}

#[test]
fn reopening_a_displayed_settings_window_keeps_its_exportable_session() {
    let mut ui = SettingsUi::new();
    let token = ui.request_open(false, false).unwrap();
    assert!(ui.created(token));
    assert!(ui.presented(ui.intent));
    let shown = ui.export_session(false).unwrap();
    assert_eq!(ui.request_open(true, true), None);
    assert_eq!(ui.export_session(false), Some(shown));
    assert_eq!(ui.request_open(true, false), None);
    assert_eq!(ui.generation, shown.1 + 1);
    assert_eq!(ui.export_session(false), None);
}
