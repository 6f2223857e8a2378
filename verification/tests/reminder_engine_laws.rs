use march_7th_app_lib::reminders::model::{
    ActiveHours, Command, Data, Engine, Id, Mode, Settings, Time, MINUTE,
};

fn at(ms: i64) -> Time {
    Time {
        utc_ms: ms,
        local_minute: 600,
        monotonic_ms: ms as u64,
    }
}

fn all_enabled() -> Engine {
    let mut s = Settings {
        active_hours: ActiveHours::AllDay {},
        ..Settings::default()
    };
    for i in &mut s.items {
        i.enabled = true;
        i.interval_minutes = 1;
    }
    let mut e = Engine::new(Data::default(), false).unwrap();
    e.step(Some(Command::UpdateSettings { settings: s }), at(0))
        .unwrap();
    e
}

#[test]
fn dismissing_an_automatic_prompt_keeps_every_item_pending() {
    let mut e = all_enabled();
    e.step(None, at(MINUTE)).unwrap();
    let shown = e.presentation.as_ref().unwrap().id;
    e.step(
        Some(Command::Dismiss {
            presentation_id: shown,
        }),
        at(MINUTE + 1),
    )
    .unwrap();
    assert!(e.presentation.is_none());
    assert!(e.data.progress.iter().all(|p| p.pending));
    e.step(None, at(3 * MINUTE)).unwrap();
    assert!(e.presentation.is_none());
    assert!(e.data.progress.iter().all(|p| p.pending));
}

#[test]
fn timed_out_prompt_keeps_items_and_pending_view_lists_them() {
    let mut e = all_enabled();
    e.step(None, at(MINUTE)).unwrap();
    let shown = e.presentation.as_ref().unwrap().id;
    e.step(None, at(MINUTE + 10_000)).unwrap();
    assert!(e.presentation.is_none());
    assert!(e.data.progress.iter().all(|p| p.pending));
    e.step(Some(Command::ShowPending {}), at(2 * MINUTE)).unwrap();
    let view = e.presentation.as_ref().unwrap();
    assert_eq!(view.mode, Mode::Manual);
    assert_eq!(view.id, shown + 1);
    assert_eq!(view.items, vec![Id::Water, Id::Move, Id::Eyes]);
}

#[test]
fn pending_view_opens_on_an_empty_set() {
    let mut e = Engine::new(Data::default(), false).unwrap();
    e.step(Some(Command::ShowPending {}), at(MINUTE)).unwrap();
    let view = e.presentation.as_ref().unwrap();
    assert_eq!(view.mode, Mode::Manual);
    assert_eq!(view.id, 1);
    assert!(view.items.is_empty());
}

#[test]
fn completing_one_kind_leaves_the_others_pending() {
    let mut e = all_enabled();
    e.step(None, at(MINUTE)).unwrap();
    e.step(Some(Command::Complete { id: Id::Move }), at(MINUTE + 5))
        .unwrap();
    assert!(e.data.progress[0].pending);
    assert!(!e.data.progress[1].pending);
    assert!(e.data.progress[2].pending);
}

#[test]
fn a_later_prompt_lists_only_kinds_not_yet_shown() {
    let mut s = Settings {
        active_hours: ActiveHours::AllDay {},
        ..Settings::default()
    };
    s.items[0].enabled = true;
    s.items[0].interval_minutes = 1;
    s.items[1].enabled = true;
    s.items[1].interval_minutes = 2;
    let mut e = Engine::new(Data::default(), false).unwrap();
    e.step(Some(Command::UpdateSettings { settings: s }), at(0))
        .unwrap();
    e.step(None, at(MINUTE)).unwrap();
    let first = e.presentation.as_ref().unwrap().clone();
    assert_eq!(first.items, vec![Id::Water]);
    e.step(
        Some(Command::Dismiss {
            presentation_id: first.id,
        }),
        at(MINUTE + 1),
    )
    .unwrap();
    e.step(None, at(2 * MINUTE)).unwrap();
    let second = e.presentation.as_ref().unwrap();
    assert_eq!(second.mode, Mode::Automatic);
    assert_eq!(second.items, vec![Id::Move]);
    assert!(e.data.progress[0].pending);
}

#[test]
fn repeated_completion_is_the_same_as_a_clock_step() {
    let mut e = all_enabled();
    e.step(None, at(MINUTE)).unwrap();
    assert!(e.data.progress[0].pending);
    assert_eq!(
        e.step(Some(Command::Complete { id: Id::Water }), at(MINUTE + 10))
            .unwrap(),
        Some(march_7th_app_lib::reminders::model::Response::Complete { id: Id::Water })
    );
    let mut ticked = e.clone();
    assert_eq!(
        e.step(Some(Command::Complete { id: Id::Water }), at(MINUTE + 20))
            .unwrap(),
        None
    );
    assert_eq!(ticked.step(None, at(MINUTE + 20)).unwrap(), None);
    assert_eq!(e, ticked);
}
