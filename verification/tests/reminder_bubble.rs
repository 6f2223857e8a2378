use march_7th_app_lib::focus::model::{
    Code as FocusCode, Data as FocusData, Feedback, Outcome, Session, VERSION,
};
use march_7th_app_lib::focus::service::{Change, Snapshot as FocusSnapshot};
use march_7th_app_lib::reminders::bubble::{natural_revision, Bubble};
use march_7th_app_lib::reminders::model::{
    ActiveHours, Code, Command, Data, Mode, Presentation, Quiet, Time,
};
use march_7th_app_lib::reminders::presentation_policy::Source;
use march_7th_app_lib::reminders::service::Snapshot;
use march_7th_app_lib::reminders::store::{Persistence, SaveStatus};
use march_7th_app_lib::reminders::ui_policy::PresentationUi;

fn reminder() -> Snapshot {
    let d = Data::default();
    Snapshot {
        revision: 1,
        settings: d.settings,
        progress: d.progress,
        paused: false,
        quiet: None,
        snooze_pending: false,
        presentation: None,
        persistence: Persistence::new(SaveStatus::Saved, None),
        runtime_error: None,
        stopped: false,
    }
}
fn focus(session: Session) -> Change {
    Change {
        snapshot: FocusSnapshot {
            revision: 5,
            data: Some(FocusData {
                version: VERSION,
                session,
            }),
            error: None,
            stopped: false,
        },
        completed_now: true,
        error: None,
    }
}
fn finished() -> Change {
    focus(Session::Finished {
        duration_ms: 60_000,
        outcome: Outcome::Natural,
        feedback: Feedback::Pending,
    })
}
fn pending(r: &mut Snapshot, id: u64, mode: Mode) {
    for p in &mut r.progress {
        p.pending = true;
        p.auto_handled = true;
    }
    r.presentation = Some(Presentation {
        id,
        mode,
        items: r.progress.iter().map(|p| p.id).collect(),
        closes_at: None,
        monotonic_deadline: None,
    });
    r.revision += 1;
}
fn update(b: &mut Bubble, r: &Snapshot, f: &Change, event: Option<u64>, now: u64) {
    b.update(
        r,
        Some(f),
        event,
        Time {
            utc_ms: now as i64 + 1000,
            monotonic_ms: now,
            local_minute: 600,
        },
    );
}
fn session(b: &Bubble, ui: &mut PresentationUi, r: &Snapshot) {
    ui.update(b.revision, b.window_presentation(r), r.stopped);
}
#[test]
fn only_a_selected_automatic_reminder_can_prompt_the_character() {
    let mut r = reminder();
    pending(&mut r, 9, Mode::Automatic);
    let mut b = Bubble::default();
    b.selected = Some((12, Source::Reminder(9)));
    assert_eq!(b.visible_item_count(&r), 3);
    assert_eq!(
        b.automatic_prompt(&r, 12),
        Some(r.presentation.as_ref().unwrap().items.clone())
    );
    assert_eq!(b.automatic_prompt(&r, 13), None);
    b.selected = Some((12, Source::Focus(5)));
    assert_eq!(b.visible_item_count(&r), 0);
    assert_eq!(b.automatic_prompt(&r, 12), None);
    b.selected = Some((12, Source::Reminder(9)));
    r.presentation.as_mut().unwrap().mode = Mode::Manual;
    assert_eq!(b.visible_item_count(&r), 3);
    assert_eq!(b.automatic_prompt(&r, 12), None);
}
#[test]
fn cup_choices_require_the_live_automatic_presentation_and_clear_when_it_ends() {
    let mut r = reminder();
    pending(&mut r, 9, Mode::Automatic);
    let f = focus(Session::Idle {});
    let mut b = Bubble::default();
    update(&mut b, &r, &f, None, 0);
    let id = b.selected.unwrap().0;
    assert_eq!(b.window_presentation(&r), None);
    let mut ui = PresentationUi::default();
    session(&b, &mut ui, &r);
    assert!(ui.begin_create().is_none());
    assert!(!b.choices_open_for(id));
    assert!(!b.open_choices(&r, id + 1));
    assert!(b.open_choices(&r, id));
    update(&mut b, &r, &f, None, 1);
    assert_eq!(b.projected(&r).presentation.unwrap().mode, Mode::Automatic);
    assert!(b.choices_open_for(id));
    assert_eq!(b.window_presentation(&r), Some(id));
    session(&b, &mut ui, &r);
    assert!(ui.begin_create().is_some());
    r.presentation = None;
    r.revision += 1;
    update(&mut b, &r, &f, None, 2);
    assert!(!b.choices_open_for(id));
    assert_eq!(b.window_presentation(&r), None);
}
#[test]
fn committed_running_still_silences_reminders_during_transient_focus_write_failure() {
    let mut r = reminder();
    pending(&mut r, 3, Mode::Automatic);
    let mut f = focus(Session::Running {
        duration_ms: 60_000,
        remaining_ms: 60_000,
        anchor_utc_ms: 1000,
    });
    f.error = Some(FocusCode::WriteFailed);
    let mut b = Bubble::default();
    update(&mut b, &r, &f, None, 0);
    assert!(b.selected.is_none());
}
#[test]
fn simultaneous_three_pending_and_completion_only_selects_one_preserving_all_business_state() {
    let mut r = reminder();
    pending(&mut r, 9, Mode::Automatic);
    let original = r.clone();
    let f = finished();
    let mut b = Bubble::default();
    update(&mut b, &r, &f, Some(5), 0);
    let view = b.projected(&r);
    assert!(view.presentation.unwrap().items.is_empty());
    assert_eq!(view.progress.iter().filter(|p| p.pending).count(), 3);
    assert_eq!(r, original);
    assert!(matches!(b.selected, Some((_, Source::Focus(5)))));
    update(&mut b, &r, &f, None, 10_000);
    assert_eq!(b.selected, None);
    assert_eq!(r, original);
}
#[test]
fn quiet_active_hours_pause_readonly_and_runtime_error_do_not_queue_completion() {
    for case in 0..5 {
        let mut r = reminder();
        let mut b = Bubble::default();
        let f = finished();
        match case {
            0 => {
                r.quiet = Some(Quiet {
                    until: 99999,
                    duration_minutes: 10,
                })
            }
            1 => {
                r.settings.active_hours = ActiveHours::Daily {
                    start: 700,
                    end: 800,
                }
            }
            2 => r.paused = true,
            3 => r.persistence.status = SaveStatus::ReadOnly,
            _ => r.runtime_error = Some(Code::InvalidTime),
        }
        update(&mut b, &r, &f, Some(5), 0);
        assert!(b.selected.is_none());
        r = reminder();
        update(&mut b, &r, &f, Some(5), 1);
        assert!(b.selected.is_none());
    }
}
#[test]
fn manual_view_stays_open_running_and_on_completion_and_keeps_its_ticket() {
    let mut r = reminder();
    pending(&mut r, 3, Mode::Manual);
    let mut b = Bubble::default();
    let mut ui = PresentationUi::default();
    let running = focus(Session::Running {
        duration_ms: 60_000,
        remaining_ms: 60_000,
        anchor_utc_ms: 1000,
    });
    update(&mut b, &r, &running, None, 0);
    session(&b, &mut ui, &r);
    let token = ui.begin_create().unwrap();
    ui.created(token);
    let ticket = ui.ticket().unwrap();
    ui.ready(token, ticket.presentation);
    ui.finish_show(ticket, true);
    update(&mut b, &r, &finished(), Some(5), 1);
    session(&b, &mut ui, &r);
    assert_eq!(ui.ticket(), Some(ticket));
    assert!(ui.shown);
    assert_eq!(b.policy.presented(ticket.presentation), None);
}
#[test]
fn running_fences_already_visible_and_late_ready_show_without_marking_pause() {
    for already_shown in [false, true] {
        let mut r = reminder();
        pending(&mut r, 3, Mode::Automatic);
        let mut b = Bubble::default();
        let mut ui = PresentationUi::default();
        update(&mut b, &r, &focus(Session::Idle {}), None, 0);
        assert!(b.open_choices(&r, b.selected.unwrap().0));
        update(&mut b, &r, &focus(Session::Idle {}), None, 0);
        session(&b, &mut ui, &r);
        let token = ui.begin_create().unwrap();
        ui.created(token);
        let ticket = ui.ticket().unwrap();
        ui.ready(token, ticket.presentation);
        if already_shown {
            ui.finish_show(ticket, true);
        }
        let running = focus(Session::Running {
            duration_ms: 60_000,
            remaining_ms: 60_000,
            anchor_utc_ms: 1000,
        });
        update(&mut b, &r, &running, None, 1);
        session(&b, &mut ui, &r);
        assert!(!ui.can_show(ticket));
        assert!(!ui.ready(token, ticket.presentation));
        assert!(!ui.shown);
        assert!(!r.paused);
        assert!(r.progress.iter().all(|p| p.pending));
    }
}
#[test]
fn delayed_creation_expiry_reload_destroy_and_failed_show_never_replay_response() {
    let r = reminder();
    let f = finished();
    let mut b = Bubble::default();
    let mut ui = PresentationUi::default();
    update(&mut b, &r, &f, Some(5), 0);
    session(&b, &mut ui, &r);
    let token = ui.begin_create().unwrap();
    let id = b.selected.unwrap().0;
    update(&mut b, &r, &f, None, 10000);
    session(&b, &mut ui, &r);
    assert!(ui.created(token));
    assert!(!ui.ready(token, id));
    assert!(ui.ticket().is_none());
    assert_eq!(b.policy.presented(id), None);
    // A new live session may reuse the native window but has a distinct ticket.
    let mut f = finished();
    f.snapshot.revision = 6;
    update(&mut b, &r, &f, Some(6), 11000);
    session(&b, &mut ui, &r);
    let ticket = ui.ticket().unwrap();
    assert!(ui.ready(token, ticket.presentation));
    ui.finish_show(ticket, false);
    assert!(ui.ticket().is_none());
    assert_eq!(b.policy.respond(5), Some(5)); // failed show never consumed it
    ui.destroyed(token);
    assert!(ui.begin_create().is_none());
}
#[test]
fn stale_dismiss_cannot_close_new_manual_view_and_focus_dismiss_keeps_durable_feedback() {
    let mut r = reminder();
    let f = finished();
    let mut b = Bubble::default();
    update(&mut b, &r, &f, Some(5), 0);
    let old = b.selected.unwrap().0;
    assert!(b
        .command(Command::Dismiss {
            presentation_id: old
        })
        .unwrap()
        .is_none());
    update(&mut b, &r, &f, None, 1);
    assert!(b.selected.is_none());
    assert_eq!(natural_revision(&f), Some(5));
    pending(&mut r, 9, Mode::Manual);
    update(&mut b, &r, &f, None, 2);
    assert_eq!(
        b.command(Command::Dismiss {
            presentation_id: old
        })
        .unwrap_err()
        .code
        .as_str(),
        "stalePresentation"
    );
    let id = b.selected.unwrap().0;
    assert!(matches!(
        b.command(Command::Dismiss {
            presentation_id: id
        })
        .unwrap(),
        Some(Command::Dismiss { presentation_id: 9 })
    ));
}
#[test]
fn restart_early_abandon_interrupted_errors_and_stale_event_cannot_create_completion() {
    let r = reminder();
    let mut b = Bubble::default();
    let f = finished();
    update(&mut b, &r, &f, None, 0);
    assert!(b.selected.is_none());
    for session in [
        Session::Idle {},
        Session::Interrupted {
            duration_ms: 60000,
            remaining_ms: 1000,
        },
        Session::Finished {
            duration_ms: 60000,
            outcome: Outcome::EndedEarly,
            feedback: Feedback::Absent,
        },
        Session::Finished {
            duration_ms: 60000,
            outcome: Outcome::Abandoned,
            feedback: Feedback::Absent,
        },
    ] {
        update(&mut b, &r, &focus(session), Some(5), 1);
        assert!(b.selected.is_none());
    }
    let mut error = finished();
    error.error = Some(FocusCode::WriteFailed);
    update(&mut b, &r, &error, Some(5), 2);
    assert!(b.selected.is_none());
    let mut newer = finished();
    newer.snapshot.revision = 6;
    update(&mut b, &r, &newer, Some(5), 3);
    assert!(b.selected.is_none());
}
#[test]
fn completion_response_is_consumed_once_across_reload_and_explicit_view() {
    let r = reminder();
    let f = finished();
    let mut b = Bubble::default();
    let mut ui = PresentationUi::default();
    update(&mut b, &r, &f, Some(5), 0);
    session(&b, &mut ui, &r);
    let token = ui.begin_create().unwrap();
    ui.created(token);
    let ticket = ui.ticket().unwrap();
    ui.ready(token, ticket.presentation);
    ui.finish_show(ticket, true);
    assert_eq!(b.policy.presented(ticket.presentation), Some(5));
    ui.reload(token);
    assert!(!ui.can_show(ticket));
    assert_eq!(b.policy.respond(5), None);
    update(&mut b, &r, &f, Some(5), 1);
    assert_eq!(b.policy.presented(ticket.presentation), None);
}

#[test]
fn bubble_revision_advances_once_per_published_change() {
    let mut b = Bubble::new();
    let mut r = reminder();
    let idle = focus(Session::Idle {});
    let t = Time {
        utc_ms: 1_000,
        monotonic_ms: 0,
        local_minute: 600,
    };
    assert!(b.update(&r, Some(&idle), None, t));
    assert_eq!(b.revision, 1);
    assert!(!b.update(&r, Some(&idle), None, t));
    assert_eq!(b.revision, 1);
    pending(&mut r, 7, Mode::Automatic);
    assert!(b.update(&r, Some(&idle), None, t));
    assert_eq!(b.revision, 2);
    assert!(matches!(b.selected, Some((_, Source::Reminder(7)))));
    let running = focus(Session::Running {
        duration_ms: 60_000,
        remaining_ms: 30_000,
        anchor_utc_ms: 0,
    });
    assert!(b.update(&r, Some(&running), None, t));
    assert_eq!(b.revision, 3);
    assert!(b.selected.is_none());
}
