//! Reminder rules: settings, due progress, snooze quiet periods and the one
//! presentation that may be open. The caller supplies every clock sample.
use vstd::prelude::*;

verus! {

pub const MAX_SAFE: u64 = 9_007_199_254_740_991;
pub const MAX_UTC: i64 = 253_402_300_799_999;
pub const MINUTE: i64 = 60_000;
/// An automatic presentation without a response ends after about ten seconds.
pub const AUTO_PRESENTATION_MS: i64 = 10_000;
/// Opening the cup choices keeps the automatic presentation for two minutes.
pub const CHOICES_GRACE_MS: i64 = 120_000;

/// Stable error codes that the user interface shows.
#[derive(Clone, Copy, Debug, PartialEq, Eq, Structural)]
pub enum Code {
    InvalidTime,
    InvalidSettings,
    InvalidState,
    UnsupportedVersion,
    ReadOnly,
    InvalidPresentationId,
    StalePresentation,
    SequenceExhausted,
    InvalidId,
    InvalidFile,
    DirectoryUnavailable,
    ReadFailed,
    EncodeFailed,
    WriteFailed,
    Stopped,
    QueueFull,
    WorkerUnavailable,
    InvalidWindow,
    InvalidCommand,
}

impl Code {
    pub open spec fn text(self) -> Seq<char> {
        match self {
            Code::InvalidTime => "invalidTime"@,
            Code::InvalidSettings => "invalidSettings"@,
            Code::InvalidState => "invalidState"@,
            Code::UnsupportedVersion => "unsupportedVersion"@,
            Code::ReadOnly => "readOnly"@,
            Code::InvalidPresentationId => "invalidPresentationId"@,
            Code::StalePresentation => "stalePresentation"@,
            Code::SequenceExhausted => "sequenceExhausted"@,
            Code::InvalidId => "invalidId"@,
            Code::InvalidFile => "invalidFile"@,
            Code::DirectoryUnavailable => "directoryUnavailable"@,
            Code::ReadFailed => "readFailed"@,
            Code::EncodeFailed => "encodeFailed"@,
            Code::WriteFailed => "writeFailed"@,
            Code::Stopped => "stopped"@,
            Code::QueueFull => "queueFull"@,
            Code::WorkerUnavailable => "workerUnavailable"@,
            Code::InvalidWindow => "invalidWindow"@,
            Code::InvalidCommand => "invalidCommand"@,
        }
    }

    /// The wire name of the code.
    pub fn as_str(self) -> (s: &'static str)
        ensures
            s@ == self.text(),
    {
        match self {
            Code::InvalidTime => "invalidTime",
            Code::InvalidSettings => "invalidSettings",
            Code::InvalidState => "invalidState",
            Code::UnsupportedVersion => "unsupportedVersion",
            Code::ReadOnly => "readOnly",
            Code::InvalidPresentationId => "invalidPresentationId",
            Code::StalePresentation => "stalePresentation",
            Code::SequenceExhausted => "sequenceExhausted",
            Code::InvalidId => "invalidId",
            Code::InvalidFile => "invalidFile",
            Code::DirectoryUnavailable => "directoryUnavailable",
            Code::ReadFailed => "readFailed",
            Code::EncodeFailed => "encodeFailed",
            Code::WriteFailed => "writeFailed",
            Code::Stopped => "stopped",
            Code::QueueFull => "queueFull",
            Code::WorkerUnavailable => "workerUnavailable",
            Code::InvalidWindow => "invalidWindow",
            Code::InvalidCommand => "invalidCommand",
        }
    }
}

#[derive(Clone, Copy, Debug, PartialEq, Eq, Structural)]
pub struct Error {
    pub code: Code,
}

impl Error {
    pub fn new(code: Code) -> (e: Self)
        ensures
            e.code == code,
    {
        Self { code }
    }
}

pub open spec fn err(code: Code) -> Error {
    Error { code }
}

#[derive(Clone, Copy, Debug, PartialEq, Eq, Structural)]
pub enum Id {
    Water,
    Move,
    Eyes,
}

/// The fixed position of each reminder kind in every three-item array.
pub open spec fn id_at(i: int) -> Id {
    if i == 0 {
        Id::Water
    } else if i == 1 {
        Id::Move
    } else {
        Id::Eyes
    }
}

pub open spec fn index_of(id: Id) -> int {
    match id {
        Id::Water => 0,
        Id::Move => 1,
        Id::Eyes => 2,
    }
}

/// The reminder kind stored at index `i` of the fixed order.
pub fn id_for(i: usize) -> (id: Id)
    requires
        i < 3,
    ensures
        id == id_at(i as int),
        index_of(id) == i,
{
    if i == 0 {
        Id::Water
    } else if i == 1 {
        Id::Move
    } else {
        Id::Eyes
    }
}

/// Position of a reminder kind in the fixed order.
pub fn position(id: Id) -> (i: usize)
    ensures
        i == index_of(id),
        i < 3,
        id_at(i as int) == id,
{
    match id {
        Id::Water => 0,
        Id::Move => 1,
        Id::Eyes => 2,
    }
}

#[derive(Clone, Copy, Debug, PartialEq, Eq, Structural)]
pub struct ItemSettings {
    pub id: Id,
    pub enabled: bool,
    pub interval_minutes: u16,
}

#[derive(Clone, Copy, Debug, PartialEq, Eq, Structural)]
pub enum ActiveHours {
    AllDay {},
    Daily { start: u16, end: u16 },
}

#[derive(Clone, Copy, Debug, PartialEq, Eq)]
pub struct Settings {
    pub items: [ItemSettings; 3],
    pub active_hours: ActiveHours,
    pub snooze_minutes: u16,
}

#[derive(Clone, Copy, Debug, PartialEq, Eq, Structural)]
pub struct Progress {
    pub id: Id,
    pub next_due_at: Option<i64>,
    pub pending: bool,
    pub auto_handled: bool,
}

#[derive(Clone, Copy, Debug, PartialEq, Eq, Structural)]
pub struct Quiet {
    pub until: i64,
    pub duration_minutes: u16,
}

#[derive(Clone, Copy, Debug, PartialEq, Eq)]
pub struct Data {
    pub version: u8,
    pub settings: Settings,
    pub progress: [Progress; 3],
    pub paused: bool,
    pub quiet: Option<Quiet>,
    pub snooze_pending: bool,
}

#[derive(Clone, Copy, Debug)]
pub struct Time {
    pub utc_ms: i64,
    pub local_minute: i32,
    pub monotonic_ms: u64,
}

pub struct SettingsView {
    pub items: Seq<ItemSettings>,
    pub active_hours: ActiveHours,
    pub snooze_minutes: u16,
}

pub struct DataView {
    pub version: u8,
    pub settings: SettingsView,
    pub progress: Seq<Progress>,
    pub paused: bool,
    pub quiet: Option<Quiet>,
    pub snooze_pending: bool,
}

impl View for Settings {
    type V = SettingsView;

    open spec fn view(&self) -> SettingsView {
        SettingsView {
            items: self.items@,
            active_hours: self.active_hours,
            snooze_minutes: self.snooze_minutes,
        }
    }
}

impl View for Data {
    type V = DataView;

    open spec fn view(&self) -> DataView {
        DataView {
            version: self.version,
            settings: self.settings@,
            progress: self.progress@,
            paused: self.paused,
            quiet: self.quiet,
            snooze_pending: self.snooze_pending,
        }
    }
}

pub open spec fn hours_valid(h: ActiveHours) -> bool {
    match h {
        ActiveHours::AllDay {  } => true,
        ActiveHours::Daily { start, end } => start < 1440 && end < 1440 && start != end,
    }
}

/// Whether a local minute of the day falls in the active window. A window
/// whose start is after its end runs across midnight.
pub open spec fn hours_contain(h: ActiveHours, minute: int) -> bool {
    match h {
        ActiveHours::AllDay {  } => true,
        ActiveHours::Daily { start, end } => if start < end {
            start <= minute < end
        } else {
            minute >= start || minute < end
        },
    }
}

pub open spec fn utc_in_range(t: int) -> bool {
    0 <= t <= MAX_UTC
}

pub open spec fn item_valid(s: ItemSettings, i: int) -> bool {
    s.id == id_at(i) && 1 <= s.interval_minutes <= 1440
}

impl SettingsView {
    pub open spec fn valid(self) -> bool {
        &&& self.items.len() == 3
        &&& 1 <= self.snooze_minutes <= 120
        &&& item_valid(self.items[0], 0)
        &&& item_valid(self.items[1], 1)
        &&& item_valid(self.items[2], 2)
        &&& hours_valid(self.active_hours)
    }
}

pub open spec fn progress_valid(p: Progress, s: ItemSettings, i: int) -> bool {
    &&& p.id == id_at(i)
    &&& !(p.auto_handled && !p.pending)
    &&& !(p.pending && p.next_due_at is Some)
    &&& !(!s.enabled && (p.pending || p.next_due_at is Some))
    &&& !(s.enabled && !p.pending && p.next_due_at is None)
    &&& (p.next_due_at matches Some(t) ==> utc_in_range(t as int))
}

pub open spec fn quiet_valid(q: Option<Quiet>, snooze_pending: bool) -> bool {
    q matches Some(q) ==> snooze_pending && utc_in_range(q.until as int) && 1 <= q.duration_minutes
        <= 120
}

impl DataView {
    /// Cross-field state rules beyond version and settings.
    pub open spec fn state_valid(self) -> bool {
        &&& self.progress.len() == 3
        &&& progress_valid(self.progress[0], self.settings.items[0], 0)
        &&& progress_valid(self.progress[1], self.settings.items[1], 1)
        &&& progress_valid(self.progress[2], self.settings.items[2], 2)
        &&& quiet_valid(self.quiet, self.snooze_pending)
    }

    pub open spec fn valid(self) -> bool {
        &&& self.version == 1
        &&& self.settings.valid()
        &&& self.state_valid()
    }
}

impl Time {
    pub open spec fn valid(self) -> bool {
        &&& utc_in_range(self.utc_ms as int)
        &&& 0 <= self.local_minute < 1440
        &&& self.monotonic_ms <= MAX_SAFE
    }

    pub fn validate(self) -> (r: Result<(), Error>)
        ensures
            r is Ok <==> self.valid(),
            r matches Err(e) ==> e == err(Code::InvalidTime),
    {
        if !(0 <= self.utc_ms && self.utc_ms <= MAX_UTC) || !(0 <= self.local_minute
            && self.local_minute < 1440) || self.monotonic_ms > MAX_SAFE {
            return Err(Error::new(Code::InvalidTime));
        }
        Ok(())
    }
}

impl ActiveHours {
    pub fn contains(&self, minute: i32) -> (r: bool)
        ensures
            r == hours_contain(*self, minute as int),
    {
        match *self {
            ActiveHours::AllDay {  } => true,
            ActiveHours::Daily { start, end } => {
                if start < end {
                    minute >= start as i32 && minute < end as i32
                } else {
                    minute >= start as i32 || minute < end as i32
                }
            },
        }
    }
}

impl Settings {
    pub fn validate(&self) -> (r: Result<(), Error>)
        ensures
            r is Ok <==> self@.valid(),
            r matches Err(e) ==> e == err(Code::InvalidSettings),
    {
        let mut i: usize = 0;
        if self.snooze_minutes < 1 || self.snooze_minutes > 120 {
            return Err(Error::new(Code::InvalidSettings));
        }
        while i < 3
            invariant
                i <= 3,
                forall|j: int| 0 <= j < i ==> item_valid(#[trigger] self.items@[j], j),
            decreases 3 - i,
        {
            let s = self.items[i];
            if s.id != id_for(i) || s.interval_minutes < 1 || s.interval_minutes > 1440 {
                return Err(Error::new(Code::InvalidSettings));
            }
            i += 1;
        }
        assert(item_valid(self.items@[0], 0) && item_valid(self.items@[1], 1) && item_valid(
            self.items@[2],
            2,
        ));
        match self.active_hours {
            ActiveHours::Daily { start, end } => {
                if start >= 1440 || end >= 1440 || start == end {
                    return Err(Error::new(Code::InvalidSettings));
                }
            },
            ActiveHours::AllDay {  } => {},
        }
        Ok(())
    }
}

fn progress_ok(p: Progress, s: ItemSettings, i: usize) -> (r: bool)
    requires
        i < 3,
    ensures
        r == progress_valid(p, s, i as int),
{
    let bad = p.id != id_for(i) || (p.auto_handled && !p.pending) || (p.pending
        && p.next_due_at.is_some()) || (!s.enabled && (p.pending || p.next_due_at.is_some())) || (
    s.enabled && !p.pending && p.next_due_at.is_none()) || match p.next_due_at {
        Some(t) => !(0 <= t && t <= MAX_UTC),
        None => false,
    };
    !bad
}

impl Data {
    pub fn validate(&self) -> (r: Result<(), Error>)
        ensures
            r is Ok <==> self@.valid(),
            r matches Err(e) ==> e == if self.version != 1 {
                err(Code::UnsupportedVersion)
            } else if !self.settings@.valid() {
                err(Code::InvalidSettings)
            } else {
                err(Code::InvalidState)
            },
    {
        if self.version != 1 {
            return Err(Error::new(Code::UnsupportedVersion));
        }
        self.settings.validate()?;
        let mut i: usize = 0;
        while i < 3
            invariant
                i <= 3,
                self.version == 1,
                self.settings@.valid(),
                forall|j: int|
                    0 <= j < i ==> progress_valid(
                        #[trigger] self.progress@[j],
                        self.settings.items@[j],
                        j,
                    ),
            decreases 3 - i,
        {
            if !progress_ok(self.progress[i], self.settings.items[i], i) {
                return Err(Error::new(Code::InvalidState));
            }
            i += 1;
        }
        assert(progress_valid(self.progress@[0], self.settings.items@[0], 0));
        assert(progress_valid(self.progress@[1], self.settings.items@[1], 1));
        assert(progress_valid(self.progress@[2], self.settings.items@[2], 2));
        if let Some(q) = self.quiet {
            if !self.snooze_pending || !(0 <= q.until && q.until <= MAX_UTC) || q.duration_minutes
                < 1 || q.duration_minutes > 120 {
                return Err(Error::new(Code::InvalidState));
            }
        }
        Ok(())
    }
}

/// `now + duration` when the sum is a representable UTC instant.
pub open spec fn add_utc_spec(now: int, duration: int) -> Option<int> {
    if utc_in_range(now + duration) {
        Some(now + duration)
    } else {
        None
    }
}

fn add_utc(now: i64, duration: i64) -> (r: Result<i64, Error>)
    ensures
        match add_utc_spec(now as int, duration as int) {
            Some(v) => r == Ok::<i64, Error>(v as i64),
            None => r == Err::<i64, Error>(err(Code::InvalidTime)),
        },
{
    match now.checked_add(duration) {
        Some(v) => {
            if 0 <= v && v <= MAX_UTC {
                Ok(v)
            } else {
                Err(Error::new(Code::InvalidTime))
            }
        },
        None => Err(Error::new(Code::InvalidTime)),
    }
}

pub open spec fn default_item(i: int) -> ItemSettings {
    ItemSettings { id: id_at(i), enabled: false, interval_minutes: if i == 2 { 30 } else { 60 } }
}

pub open spec fn idle_progress(i: int) -> Progress {
    Progress { id: id_at(i), next_due_at: None, pending: false, auto_handled: false }
}

impl Settings {
    /// All reminders off, eyes every 30 minutes, others every 60, active
    /// 09:00 to 22:00 and a ten minute snooze.
    pub fn default_settings() -> (s: Settings)
        ensures
            s@.items =~= seq![default_item(0), default_item(1), default_item(2)],
            s.active_hours == (ActiveHours::Daily { start: 540, end: 1320 }),
            s.snooze_minutes == 10,
            s@.valid(),
    {
        Settings {
            items: [
                ItemSettings { id: Id::Water, enabled: false, interval_minutes: 60 },
                ItemSettings { id: Id::Move, enabled: false, interval_minutes: 60 },
                ItemSettings { id: Id::Eyes, enabled: false, interval_minutes: 30 },
            ],
            active_hours: ActiveHours::Daily { start: 540, end: 1320 },
            snooze_minutes: 10,
        }
    }
}

impl Default for Settings {
    fn default() -> (s: Settings)
        ensures
            s@.items =~= seq![default_item(0), default_item(1), default_item(2)],
            s.active_hours == (ActiveHours::Daily { start: 540, end: 1320 }),
            s.snooze_minutes == 10,
    {
        Settings::default_settings()
    }
}

/// The built-in starting data: every reminder off and idle, nothing paused
/// or snoozed.
pub open spec fn default_data_view() -> DataView {
    DataView {
        version: 1,
        settings: SettingsView {
            items: seq![default_item(0), default_item(1), default_item(2)],
            active_hours: ActiveHours::Daily { start: 540, end: 1320 },
            snooze_minutes: 10,
        },
        progress: seq![idle_progress(0), idle_progress(1), idle_progress(2)],
        paused: false,
        quiet: None,
        snooze_pending: false,
    }
}

impl Data {
    pub fn default_data() -> (d: Data)
        ensures
            d@ == default_data_view(),
            d.version == 1,
            d@.settings.items =~= seq![default_item(0), default_item(1), default_item(2)],
            d.settings.active_hours == (ActiveHours::Daily { start: 540, end: 1320 }),
            d.settings.snooze_minutes == 10,
            d@.progress =~= seq![idle_progress(0), idle_progress(1), idle_progress(2)],
            !d.paused,
            d.quiet is None,
            !d.snooze_pending,
            d@.valid(),
    {
        Data {
            version: 1,
            settings: Settings::default_settings(),
            progress: [
                Progress { id: Id::Water, next_due_at: None, pending: false, auto_handled: false },
                Progress { id: Id::Move, next_due_at: None, pending: false, auto_handled: false },
                Progress { id: Id::Eyes, next_due_at: None, pending: false, auto_handled: false },
            ],
            paused: false,
            quiet: None,
            snooze_pending: false,
        }
    }
}

impl Default for Data {
    fn default() -> (d: Data)
        ensures
            d.version == 1,
            d@.settings.items =~= seq![default_item(0), default_item(1), default_item(2)],
            d@.progress =~= seq![idle_progress(0), idle_progress(1), idle_progress(2)],
            !d.paused,
            d.quiet is None,
            !d.snooze_pending,
    {
        Data::default_data()
    }
}


#[derive(Clone, Copy, Debug)]
pub enum Command {
    UpdateSettings { settings: Settings },
    Complete { id: Id },
    SnoozeAll {},
    SetPaused { paused: bool },
    ShowPending {},
    ExtendChoices { presentation_id: u64 },
    Dismiss { presentation_id: u64 },
}

#[derive(Clone, Copy, Debug, PartialEq, Eq, Structural)]
pub enum Mode {
    Automatic,
    Manual,
}

#[derive(Clone, Debug, PartialEq, Eq)]
pub struct Presentation {
    pub id: u64,
    pub mode: Mode,
    pub items: Vec<Id>,
    pub closes_at: Option<i64>,
    pub monotonic_deadline: Option<u64>,
}

pub struct PresentationView {
    pub id: u64,
    pub mode: Mode,
    pub items: Seq<Id>,
    pub closes_at: Option<i64>,
    pub monotonic_deadline: Option<u64>,
}

impl View for Presentation {
    type V = PresentationView;

    open spec fn view(&self) -> PresentationView {
        PresentationView {
            id: self.id,
            mode: self.mode,
            items: self.items@,
            closes_at: self.closes_at,
            monotonic_deadline: self.monotonic_deadline,
        }
    }
}

pub open spec fn opt_view(p: Option<Presentation>) -> Option<PresentationView> {
    match p {
        Some(p) => Some(p@),
        None => None,
    }
}

#[derive(Clone, Copy, Debug, PartialEq, Eq, Structural)]
pub enum Response {
    Complete { id: Id },
    SnoozeAll,
}

#[derive(Clone, Debug, PartialEq, Eq)]
pub struct Engine {
    pub data: Data,
    pub presentation: Option<Presentation>,
    /// The identifier that the most recent presentation received.
    pub next_id: u64,
    pub protected: bool,
}

pub struct EngineView {
    pub data: DataView,
    pub presentation: Option<PresentationView>,
    pub next_id: u64,
    pub protected: bool,
}

impl View for Engine {
    type V = EngineView;

    open spec fn view(&self) -> EngineView {
        EngineView {
            data: self.data@,
            presentation: opt_view(self.presentation),
            next_id: self.next_id,
            protected: self.protected,
        }
    }
}

// ---------------------------------------------------------------------------
// The transition, one phase at a time.
// ---------------------------------------------------------------------------
/// A due reminder becomes pending; a deadline further away than one interval
/// (a backward clock jump) is pulled in to one interval from now.
pub open spec fn due_step(p: Progress, s: ItemSettings, now: int) -> Option<Progress> {
    match p.next_due_at {
        None => Some(p),
        Some(due) => {
            let interval = s.interval_minutes * MINUTE;
            let bounded = if due - now > interval {
                add_utc_spec(now, interval)
            } else {
                Some(due as int)
            };
            match bounded {
                None => None,
                Some(d) => if d <= now {
                    Some(Progress { next_due_at: None, pending: true, auto_handled: false, ..p })
                } else {
                    Some(Progress { next_due_at: Some(d as i64), ..p })
                },
            }
        },
    }
}

pub open spec fn due_all(d: DataView, now: int) -> Option<DataView> {
    if due_step(d.progress[0], d.settings.items[0], now) is None || due_step(
        d.progress[1],
        d.settings.items[1],
        now,
    ) is None || due_step(d.progress[2], d.settings.items[2], now) is None {
        None
    } else {
        Some(
            DataView {
                progress: seq![
                    due_step(d.progress[0], d.settings.items[0], now)->0,
                    due_step(d.progress[1], d.settings.items[1], now)->0,
                    due_step(d.progress[2], d.settings.items[2], now)->0,
                ],
                ..d
            },
        )
    }
}

/// A snooze ends when its instant passes; one further away than its own
/// duration is pulled in.
pub open spec fn quiet_step(d: DataView, now: int) -> Option<DataView> {
    match d.quiet {
        None => Some(d),
        Some(q) => {
            let duration = q.duration_minutes * MINUTE;
            let bounded = if q.until - now > duration {
                add_utc_spec(now, duration)
            } else {
                Some(q.until as int)
            };
            match bounded {
                None => None,
                Some(u) => if u <= now {
                    Some(DataView { quiet: None, ..d })
                } else {
                    Some(DataView { quiet: Some(Quiet { until: u as i64, ..q }), ..d })
                },
            }
        },
    }
}

pub open spec fn expired(p: PresentationView, t: Time) -> bool {
    &&& p.mode == Mode::Automatic
    &&& ((p.closes_at matches Some(c) && t.utc_ms >= c) || (p.monotonic_deadline matches Some(m)
        && t.monotonic_ms >= m))
}

pub open spec fn expire(e: EngineView, t: Time) -> EngineView {
    if e.presentation matches Some(p) && expired(p, t) {
        EngineView { presentation: None, ..e }
    } else {
        e
    }
}

pub open spec fn pick(p: Progress) -> Seq<Id> {
    if p.pending {
        seq![p.id]
    } else {
        seq![]
    }
}

/// Kinds that are pending, in the fixed order.
pub open spec fn pending_ids(ps: Seq<Progress>) -> Seq<Id> {
    pick(ps[0]) + pick(ps[1]) + pick(ps[2])
}

pub open spec fn pick_eligible(p: Progress, snooze: bool) -> Seq<Id> {
    if p.pending && (snooze || !p.auto_handled) {
        seq![p.id]
    } else {
        seq![]
    }
}

/// Pending kinds not yet shown automatically (all pending ones after a snooze).
pub open spec fn eligible_ids(ps: Seq<Progress>, snooze: bool) -> Seq<Id> {
    pick_eligible(ps[0], snooze) + pick_eligible(ps[1], snooze) + pick_eligible(ps[2], snooze)
}

pub open spec fn handled(p: Progress) -> Progress {
    Progress { auto_handled: true, ..p }
}

pub open spec fn mark_pending(ps: Seq<Progress>) -> Seq<Progress> {
    Seq::new(3, |i: int| if ps[i].pending { handled(ps[i]) } else { ps[i] })
}

pub open spec fn mark_listed(ps: Seq<Progress>, ids: Seq<Id>) -> Seq<Progress> {
    Seq::new(3, |i: int| if ids.contains(ps[i].id) { handled(ps[i]) } else { ps[i] })
}

pub open spec fn is_manual(p: Option<PresentationView>) -> bool {
    p matches Some(p) && p.mode == Mode::Manual
}

pub open spec fn is_automatic(p: Option<PresentationView>) -> bool {
    p matches Some(p) && p.mode == Mode::Automatic
}

/// An open manual view always lists exactly the pending kinds, which count
/// as already shown.
pub open spec fn sync_manual(e: EngineView) -> EngineView {
    if is_manual(e.presentation) {
        EngineView {
            presentation: Some(
                PresentationView { items: pending_ids(e.data.progress), ..e.presentation->0 },
            ),
            data: DataView { progress: mark_pending(e.data.progress), ..e.data },
            ..e
        }
    } else {
        e
    }
}

/// Opens a new presentation with the next identifier. An automatic one
/// closes by itself after two minutes of wall or monotonic time.
pub open spec fn present_spec(e: EngineView, mode: Mode, items: Seq<Id>, t: Time) -> Result<
    EngineView,
    Error,
> {
    if e.next_id + 1 > MAX_SAFE {
        Err(err(Code::SequenceExhausted))
    } else if mode == Mode::Automatic && (add_utc_spec(t.utc_ms as int, AUTO_PRESENTATION_MS as int)
        is None || t.monotonic_ms + AUTO_PRESENTATION_MS > MAX_SAFE) {
        Err(err(Code::InvalidTime))
    } else {
        let id = (e.next_id + 1) as u64;
        Ok(
            EngineView {
                next_id: id,
                presentation: Some(
                    PresentationView {
                        id,
                        mode,
                        items,
                        closes_at: if mode == Mode::Automatic {
                            Some((t.utc_ms + AUTO_PRESENTATION_MS) as i64)
                        } else {
                            None
                        },
                        monotonic_deadline: if mode == Mode::Automatic {
                            Some((t.monotonic_ms + AUTO_PRESENTATION_MS) as u64)
                        } else {
                            None
                        },
                    },
                ),
                ..e
            },
        )
    }
}

/// A changed item restarts from now: off, or due one new interval from now.
pub open spec fn settings_item_step(p: Progress, old: ItemSettings, new: ItemSettings, now: int) -> Option<
    Progress,
> {
    if old.enabled != new.enabled || old.interval_minutes != new.interval_minutes {
        if new.enabled {
            match add_utc_spec(now, new.interval_minutes * MINUTE) {
                None => None,
                Some(t) => Some(
                    Progress { pending: false, auto_handled: false, next_due_at: Some(t as i64), ..p },
                ),
            }
        } else {
            Some(Progress { pending: false, auto_handled: false, next_due_at: None, ..p })
        }
    } else {
        Some(p)
    }
}

pub open spec fn settings_all(d: DataView, new: SettingsView, now: int) -> Option<DataView> {
    let s0 = settings_item_step(d.progress[0], d.settings.items[0], new.items[0], now);
    let s1 = settings_item_step(d.progress[1], d.settings.items[1], new.items[1], now);
    let s2 = settings_item_step(d.progress[2], d.settings.items[2], new.items[2], now);
    if s0 is None || s1 is None || s2 is None {
        None
    } else {
        Some(DataView { progress: seq![s0->0, s1->0, s2->0], settings: new, ..d })
    }
}

pub open spec fn with_data(e: EngineView, d: DataView) -> EngineView {
    EngineView { data: d, ..e }
}

/// The effect of the command itself, after clocks have been applied.
pub open spec fn command_step(e: EngineView, command: Option<Command>, t: Time) -> Result<
    (EngineView, Option<Response>),
    Error,
> {
    let now = t.utc_ms as int;
    match command {
        Some(Command::UpdateSettings { settings }) => match settings_all(e.data, settings@, now) {
            None => Err(err(Code::InvalidTime)),
            Some(d) => Ok((with_data(e, d), None)),
        },
        Some(Command::Complete { id }) => {
            let i = index_of(id);
            let p = e.data.progress[i];
            if p.pending {
                match add_utc_spec(now, e.data.settings.items[i].interval_minutes * MINUTE) {
                    None => Err(err(Code::InvalidTime)),
                    Some(due) => Ok(
                        (
                            with_data(
                                e,
                                DataView {
                                    progress: e.data.progress.update(
                                        i,
                                        Progress {
                                            next_due_at: Some(due as i64),
                                            pending: false,
                                            auto_handled: false,
                                            ..p
                                        },
                                    ),
                                    ..e.data
                                },
                            ),
                            Some(Response::Complete { id }),
                        ),
                    ),
                }
            } else {
                Ok((e, None))
            }
        },
        Some(Command::SnoozeAll {  }) => {
            let minutes = e.data.settings.snooze_minutes;
            match add_utc_spec(now, minutes * MINUTE) {
                None => Err(err(Code::InvalidTime)),
                Some(until) => Ok(
                    (
                        EngineView {
                            data: DataView {
                                quiet: Some(Quiet { until: until as i64, duration_minutes: minutes }),
                                snooze_pending: true,
                                ..e.data
                            },
                            presentation: None,
                            ..e
                        },
                        Some(Response::SnoozeAll),
                    ),
                ),
            }
        },
        Some(Command::SetPaused { paused }) => Ok(
            (with_data(e, DataView { paused, ..e.data }), None),
        ),
        Some(Command::ShowPending {  }) => match present_spec(
            e,
            Mode::Manual,
            pending_ids(e.data.progress),
            t,
        ) {
            Err(x) => Err(x),
            Ok(e2) => Ok((e2, None)),
        },
        Some(Command::ExtendChoices { presentation_id }) => {
            if e.presentation matches Some(p) && p.id == presentation_id && p.mode
                == Mode::Automatic {
                if add_utc_spec(now, CHOICES_GRACE_MS as int) is None || t.monotonic_ms
                    + CHOICES_GRACE_MS > MAX_SAFE {
                    Err(err(Code::InvalidTime))
                } else {
                    Ok(
                        (
                            EngineView {
                                presentation: Some(
                                    PresentationView {
                                        closes_at: Some((now + CHOICES_GRACE_MS) as i64),
                                        monotonic_deadline: Some(
                                            (t.monotonic_ms + CHOICES_GRACE_MS) as u64,
                                        ),
                                        ..e.presentation->0
                                    },
                                ),
                                ..e
                            },
                            None,
                        ),
                    )
                }
            } else {
                Err(err(Code::StalePresentation))
            }
        },
        Some(Command::Dismiss { presentation_id }) => if e.presentation matches Some(p) && p.id
            == presentation_id {
            Ok((EngineView { presentation: None, ..e }, None))
        } else {
            Ok((e, None))
        },
        None => Ok((e, None)),
    }
}

/// `items` filtered to the kinds listed in `keep`.
pub open spec fn keep_in(items: Seq<Id>, keep: Seq<Id>) -> Seq<Id>
    decreases items.len(),
{
    if items.len() == 0 {
        seq![]
    } else {
        let r = keep_in(items.drop_last(), keep);
        if keep.contains(items.last()) {
            r.push(items.last())
        } else {
            r
        }
    }
}

/// `existing` followed by each new kind it does not already list.
pub open spec fn merge(existing: Seq<Id>, new: Seq<Id>) -> Seq<Id>
    decreases new.len(),
{
    if new.len() == 0 {
        existing
    } else {
        let r = merge(existing, new.drop_last());
        if r.contains(new.last()) {
            r
        } else {
            r.push(new.last())
        }
    }
}

/// An automatic presentation only lists pending kinds and closes when none is left.
pub open spec fn prune_automatic(e: EngineView) -> EngineView {
    if is_automatic(e.presentation) {
        let p = e.presentation->0;
        let items = keep_in(p.items, pending_ids(e.data.progress));
        if items.len() == 0 {
            EngineView { presentation: None, ..e }
        } else {
            EngineView { presentation: Some(PresentationView { items, ..p }), ..e }
        }
    } else {
        e
    }
}

pub open spec fn allowed(e: EngineView, t: Time) -> bool {
    &&& !e.protected
    &&& !e.data.paused
    &&& hours_contain(e.data.settings.active_hours, t.local_minute as int)
    &&& e.data.quiet is None
}

pub open spec fn with_snooze(e: EngineView, snooze: bool) -> EngineView {
    EngineView { data: DataView { snooze_pending: snooze, ..e.data }, ..e }
}

/// What happens after the command: reconcile the open views, then, when
/// automatic prompting is allowed, show newly due kinds.
pub open spec fn finish_spec(e: EngineView, t: Time, was_manual: bool) -> Result<EngineView, Error> {
    let now_manual = is_manual(e.presentation);
    let e2 = prune_automatic(sync_manual(e));
    if !allowed(e2, t) {
        Ok(
            if is_automatic(e2.presentation) {
                EngineView { presentation: None, ..e2 }
            } else {
                e2
            },
        )
    } else {
        let e3 = if was_manual || now_manual {
            with_snooze(e2, false)
        } else {
            e2
        };
        if now_manual {
            Ok(e3)
        } else {
            let items = eligible_ids(e3.data.progress, e3.data.snooze_pending);
            let e4 = with_snooze(e3, false);
            if items.len() == 0 {
                Ok(e4)
            } else {
                let e5 = match e4.presentation {
                    Some(p) => Ok(
                        EngineView {
                            presentation: Some(PresentationView { items: merge(p.items, items), ..p }),
                            ..e4
                        },
                    ),
                    None => present_spec(e4, Mode::Automatic, items, t),
                };
                match e5 {
                    Err(x) => Err(x),
                    Ok(e5) => Ok(
                        with_data(
                            e5,
                            DataView { progress: mark_listed(e5.data.progress, items), ..e5.data },
                        ),
                    ),
                }
            }
        }
    }
}

pub open spec fn bad_presentation_id(command: Option<Command>) -> bool {
    match command {
        Some(Command::Dismiss { presentation_id }) => presentation_id == 0 || presentation_id
            > MAX_SAFE,
        Some(Command::ExtendChoices { presentation_id }) => presentation_id == 0 || presentation_id
            > MAX_SAFE,
        _ => false,
    }
}

/// One whole transition on a valid clock sample.
pub open spec fn spec_advance(e: EngineView, command: Option<Command>, t: Time) -> Result<
    (EngineView, Option<Response>),
    Error,
> {
    if command matches Some(Command::UpdateSettings { settings }) && !settings@.valid() {
        Err(err(Code::InvalidSettings))
    } else if command matches Some(Command::UpdateSettings { .. }) && e.protected {
        Err(err(Code::ReadOnly))
    } else if bad_presentation_id(command) {
        Err(err(Code::InvalidPresentationId))
    } else {
        match due_all(e.data, t.utc_ms as int) {
            None => Err(err(Code::InvalidTime)),
            Some(d1) => match quiet_step(d1, t.utc_ms as int) {
                None => Err(err(Code::InvalidTime)),
                Some(d2) => {
                    let e3 = expire(with_data(e, d2), t);
                    let was_manual = is_manual(e3.presentation);
                    match command_step(sync_manual(e3), command, t) {
                        Err(x) => Err(x),
                        Ok((e5, response)) => match finish_spec(e5, t, was_manual) {
                            Err(x) => Err(x),
                            Ok(e6) => Ok((e6, response)),
                        },
                    }
                },
            },
        }
    }
}

/// `step`: an invalid clock sample is refused before anything else.
pub open spec fn spec_step(e: EngineView, command: Option<Command>, t: Time) -> Result<
    (EngineView, Option<Response>),
    Error,
> {
    if !t.valid() {
        Err(err(Code::InvalidTime))
    } else {
        spec_advance(e, command, t)
    }
}


// ---------------------------------------------------------------------------
// Executable transition.
// ---------------------------------------------------------------------------
fn contains_id(v: &Vec<Id>, id: Id) -> (r: bool)
    ensures
        r == v@.contains(id),
{
    let mut i: usize = 0;
    while i < v.len()
        invariant
            i <= v.len(),
            forall|j: int| 0 <= j < i ==> v@[j] != id,
        decreases v.len() - i,
    {
        if v[i] == id {
            assert(v@[i as int] == id);
            return true;
        }
        i += 1;
    }
    false
}

fn copy_ids(v: &Vec<Id>) -> (r: Vec<Id>)
    ensures
        r@ == v@,
{
    let mut out: Vec<Id> = Vec::new();
    let mut i: usize = 0;
    while i < v.len()
        invariant
            i <= v.len(),
            out@ =~= v@.take(i as int),
        decreases v.len() - i,
    {
        out.push(v[i]);
        i += 1;
    }
    assert(out@ =~= v@);
    out
}

fn copy_presentation(p: &Option<Presentation>) -> (r: Option<Presentation>)
    ensures
        opt_view(r) == opt_view(*p),
{
    match p {
        Some(p) => Some(
            Presentation {
                id: p.id,
                mode: p.mode,
                items: copy_ids(&p.items),
                closes_at: p.closes_at,
                monotonic_deadline: p.monotonic_deadline,
            },
        ),
        None => None,
    }
}

fn keep_in_exec(items: &Vec<Id>, keep: &Vec<Id>) -> (r: Vec<Id>)
    ensures
        r@ == keep_in(items@, keep@),
{
    let mut out: Vec<Id> = Vec::new();
    let mut i: usize = 0;
    while i < items.len()
        invariant
            i <= items.len(),
            out@ == keep_in(items@.take(i as int), keep@),
        decreases items.len() - i,
    {
        assert(items@.take(i + 1).drop_last() =~= items@.take(i as int));
        assert(items@.take(i + 1).last() == items@[i as int]);
        if contains_id(keep, items[i]) {
            out.push(items[i]);
        }
        i += 1;
    }
    assert(items@.take(items.len() as int) =~= items@);
    out
}

fn merge_exec(existing: Vec<Id>, new: &Vec<Id>) -> (r: Vec<Id>)
    ensures
        r@ == merge(existing@, new@),
{
    let mut out = existing;
    let mut i: usize = 0;
    while i < new.len()
        invariant
            i <= new.len(),
            out@ == merge(existing@, new@.take(i as int)),
        decreases new.len() - i,
    {
        assert(new@.take(i + 1).drop_last() =~= new@.take(i as int));
        assert(new@.take(i + 1).last() == new@[i as int]);
        if !contains_id(&out, new[i]) {
            out.push(new[i]);
        }
        i += 1;
    }
    assert(new@.take(new.len() as int) =~= new@);
    out
}

fn pending_of(d: &Data) -> (v: Vec<Id>)
    ensures
        v@ == pending_ids(d@.progress),
{
    let mut v: Vec<Id> = Vec::new();
    let mut i: usize = 0;
    while i < 3
        invariant
            i <= 3,
            i == 0 ==> v@ == Seq::<Id>::empty(),
            i == 1 ==> v@ == pick(d.progress@[0]),
            i == 2 ==> v@ == pick(d.progress@[0]) + pick(d.progress@[1]),
            i == 3 ==> v@ == pending_ids(d@.progress),
        decreases 3 - i,
    {
        let p = d.progress[i];
        let ghost before = v@;
        if p.pending {
            v.push(p.id);
        }
        assert(v@ =~= before + pick(d.progress@[i as int]));
        proof {
            if i == 0 {
                assert(v@ =~= pick(d.progress@[0]));
            }
        }
        i += 1;
    }
    v
}

fn eligible_of(d: &Data) -> (v: Vec<Id>)
    ensures
        v@ == eligible_ids(d@.progress, d.snooze_pending),
{
    let mut v: Vec<Id> = Vec::new();
    let mut i: usize = 0;
    let snooze = d.snooze_pending;
    while i < 3
        invariant
            i <= 3,
            snooze == d.snooze_pending,
            i == 0 ==> v@ == Seq::<Id>::empty(),
            i == 1 ==> v@ == pick_eligible(d.progress@[0], snooze),
            i == 2 ==> v@ == pick_eligible(d.progress@[0], snooze) + pick_eligible(
                d.progress@[1],
                snooze,
            ),
            i == 3 ==> v@ == eligible_ids(d@.progress, snooze),
        decreases 3 - i,
    {
        let p = d.progress[i];
        let ghost before = v@;
        if p.pending && (snooze || !p.auto_handled) {
            v.push(p.id);
        }
        assert(v@ =~= before + pick_eligible(d.progress@[i as int], snooze));
        proof {
            if i == 0 {
                assert(v@ =~= pick_eligible(d.progress@[0], snooze));
            }
        }
        i += 1;
    }
    v
}

fn due_item(p: Progress, s: ItemSettings, now: i64) -> (r: Result<Progress, Error>)
    requires
        p.next_due_at matches Some(t) ==> utc_in_range(t as int),
        utc_in_range(now as int),
    ensures
        match due_step(p, s, now as int) {
            Some(q) => r == Ok::<Progress, Error>(q),
            None => r == Err::<Progress, Error>(err(Code::InvalidTime)),
        },
{
    match p.next_due_at {
        None => Ok(p),
        Some(due) => {
            let interval = (s.interval_minutes as i64) * MINUTE;
            let mut d = due;
            if due - now > interval {
                match add_utc(now, interval) {
                    Ok(v) => {
                        d = v;
                    },
                    Err(e) => {
                        return Err(e);
                    },
                }
            }
            if d <= now {
                Ok(Progress { next_due_at: None, pending: true, auto_handled: false, ..p })
            } else {
                Ok(Progress { next_due_at: Some(d), ..p })
            }
        },
    }
}

fn due_phase(d: Data, now: i64) -> (r: Result<Data, Error>)
    requires
        d@.valid(),
        utc_in_range(now as int),
    ensures
        match due_all(d@, now as int) {
            Some(v) => r matches Ok(x) && x@ == v,
            None => r == Err::<Data, Error>(err(Code::InvalidTime)),
        },
{
    let p0 = match due_item(d.progress[0], d.settings.items[0], now) {
        Ok(p) => p,
        Err(e) => {
            return Err(e);
        },
    };
    let p1 = match due_item(d.progress[1], d.settings.items[1], now) {
        Ok(p) => p,
        Err(e) => {
            return Err(e);
        },
    };
    let p2 = match due_item(d.progress[2], d.settings.items[2], now) {
        Ok(p) => p,
        Err(e) => {
            return Err(e);
        },
    };
    let r = Data { progress: [p0, p1, p2], ..d };
    assert(r@.progress =~= due_all(d@, now as int)->0.progress);
    Ok(r)
}

fn quiet_phase(d: Data, now: i64) -> (r: Result<Data, Error>)
    requires
        d.quiet matches Some(q) ==> utc_in_range(q.until as int),
        utc_in_range(now as int),
    ensures
        match quiet_step(d@, now as int) {
            Some(v) => r matches Ok(x) && x@ == v,
            None => r == Err::<Data, Error>(err(Code::InvalidTime)),
        },
{
    match d.quiet {
        None => Ok(d),
        Some(q) => {
            let duration = (q.duration_minutes as i64) * MINUTE;
            let mut until = q.until;
            if q.until - now > duration {
                match add_utc(now, duration) {
                    Ok(v) => {
                        until = v;
                    },
                    Err(e) => {
                        return Err(e);
                    },
                }
            }
            if until <= now {
                Ok(Data { quiet: None, ..d })
            } else {
                Ok(Data { quiet: Some(Quiet { until, ..q }), ..d })
            }
        },
    }
}

fn settings_item(p: Progress, old: ItemSettings, new: ItemSettings, now: i64) -> (r: Result<
    Progress,
    Error,
>)
    ensures
        match settings_item_step(p, old, new, now as int) {
            Some(q) => r == Ok::<Progress, Error>(q),
            None => r == Err::<Progress, Error>(err(Code::InvalidTime)),
        },
{
    if old.enabled != new.enabled || old.interval_minutes != new.interval_minutes {
        if new.enabled {
            match add_utc(now, (new.interval_minutes as i64) * MINUTE) {
                Ok(t) => Ok(
                    Progress { pending: false, auto_handled: false, next_due_at: Some(t), ..p },
                ),
                Err(e) => Err(e),
            }
        } else {
            Ok(Progress { pending: false, auto_handled: false, next_due_at: None, ..p })
        }
    } else {
        Ok(p)
    }
}

fn handle_if(p: Progress, cond: bool) -> (r: Progress)
    ensures
        r == if cond {
            handled(p)
        } else {
            p
        },
{
    if cond {
        Progress { auto_handled: true, ..p }
    } else {
        p
    }
}

fn mark_listed_exec(ps: [Progress; 3], ids: &Vec<Id>) -> (r: [Progress; 3])
    ensures
        r@ == mark_listed(ps@, ids@),
{
    let a = handle_if(ps[0], contains_id(ids, ps[0].id));
    let b = handle_if(ps[1], contains_id(ids, ps[1].id));
    let c = handle_if(ps[2], contains_id(ids, ps[2].id));
    let r = [a, b, c];
    assert(r@ =~= mark_listed(ps@, ids@));
    r
}

fn mark_pending_exec(ps: [Progress; 3]) -> (r: [Progress; 3])
    ensures
        r@ == mark_pending(ps@),
{
    let a = handle_if(ps[0], ps[0].pending);
    let b = handle_if(ps[1], ps[1].pending);
    let c = handle_if(ps[2], ps[2].pending);
    let r = [a, b, c];
    assert(r@ =~= mark_pending(ps@));
    r
}

fn mode_of(p: &Option<Presentation>) -> (m: Option<Mode>)
    ensures
        m == match opt_view(*p) {
            Some(v) => Some(v.mode),
            None => None::<Mode>,
        },
{
    match p {
        Some(p) => Some(p.mode),
        None => None,
    }
}

impl Engine {
    /// A copy with the same view.
    pub fn duplicate(&self) -> (r: Engine)
        ensures
            r@ == self@,
    {
        Engine {
            data: self.data,
            presentation: copy_presentation(&self.presentation),
            next_id: self.next_id,
            protected: self.protected,
        }
    }

    pub fn new(data: Data, protected: bool) -> (r: Result<Self, Error>)
        ensures
            match r {
                Ok(e) => data@.valid() && e.data == data && e.presentation is None && e.next_id
                    == 0 && e.protected == protected,
                Err(x) => !data@.valid() && x == if data.version != 1 {
                    err(Code::UnsupportedVersion)
                } else if !data.settings@.valid() {
                    err(Code::InvalidSettings)
                } else {
                    err(Code::InvalidState)
                },
            },
    {
        match data.validate() {
            Ok(()) => Ok(Self { data, presentation: None, next_id: 0, protected }),
            Err(e) => Err(e),
        }
    }

    /// Whether the caller must keep sampling the clock.
    pub fn needs_clock(&self) -> (r: bool)
        ensures
            r == (self.data.settings.items@[0].enabled || self.data.settings.items@[1].enabled
                || self.data.settings.items@[2].enabled || self.data.quiet is Some || is_automatic(
                opt_view(self.presentation),
            )),
    {
        self.data.settings.items[0].enabled || self.data.settings.items[1].enabled
            || self.data.settings.items[2].enabled || self.data.quiet.is_some() || match mode_of(
            &self.presentation,
        ) {
            Some(m) => m == Mode::Automatic,
            None => false,
        }
    }

    fn pending(&self) -> (v: Vec<Id>)
        ensures
            v@ == pending_ids(self.data@.progress),
    {
        pending_of(&self.data)
    }

    fn update_manual(&mut self) -> (r: bool)
        ensures
            r == is_manual(old(self)@.presentation),
            final(self)@ == sync_manual(old(self)@),
    {
        match mode_of(&self.presentation) {
            Some(Mode::Manual) => {
                let pending = self.pending();
                let p = match &self.presentation {
                    Some(p) => Presentation {
                        id: p.id,
                        mode: p.mode,
                        items: pending,
                        closes_at: p.closes_at,
                        monotonic_deadline: p.monotonic_deadline,
                    },
                    None => {
                        assert(false);
                        return false;
                    },
                };
                self.presentation = Some(p);
                self.data.progress = mark_pending_exec(self.data.progress);
                proof {
                    assert(self@.data =~= sync_manual(old(self)@).data);
                    assert(self@.presentation->0.items =~= sync_manual(
                        old(self)@,
                    ).presentation->0.items);
                }
                true
            },
            _ => false,
        }
    }

    fn present(&mut self, mode: Mode, items: Vec<Id>, time: Time) -> (r: Result<(), Error>)
        ensures
            match present_spec(old(self)@, mode, items@, time) {
                Ok(e) => r is Ok && final(self)@ == e,
                Err(x) => r == Err::<(), Error>(x),
            },
    {
        let id = match self.next_id.checked_add(1) {
            Some(id) => id,
            None => {
                return Err(Error::new(Code::SequenceExhausted));
            },
        };
        if id > MAX_SAFE {
            return Err(Error::new(Code::SequenceExhausted));
        }
        let (closes_at, monotonic_deadline) = if mode == Mode::Automatic {
            let closes = match add_utc(time.utc_ms, AUTO_PRESENTATION_MS) {
                Ok(t) => t,
                Err(e) => {
                    return Err(e);
                },
            };
            let deadline = match time.monotonic_ms.checked_add(AUTO_PRESENTATION_MS as u64) {
                Some(v) => v,
                None => {
                    return Err(Error::new(Code::InvalidTime));
                },
            };
            if deadline > MAX_SAFE {
                return Err(Error::new(Code::InvalidTime));
            }
            (Some(closes), Some(deadline))
        } else {
            (None, None)
        };
        self.next_id = id;
        self.presentation = Some(
            Presentation { id, mode, items, closes_at, monotonic_deadline },
        );
        Ok(())
    }

    fn apply_command(&mut self, command: Option<Command>, time: Time) -> (r: Result<
        Option<Response>,
        Error,
    >)
        requires
            old(self).data@.settings.items.len() == 3,
            old(self).data@.progress.len() == 3,
        ensures
            match command_step(old(self)@, command, time) {
                Ok((e, resp)) => r == Ok::<Option<Response>, Error>(resp) && final(self)@ == e,
                Err(x) => r == Err::<Option<Response>, Error>(x),
            },
    {
        let now = time.utc_ms;
        match command {
            Some(Command::UpdateSettings { settings }) => {
                let d = self.data;
                let p0 = match settings_item(
                    d.progress[0],
                    d.settings.items[0],
                    settings.items[0],
                    now,
                ) {
                    Ok(p) => p,
                    Err(e) => {
                        return Err(e);
                    },
                };
                let p1 = match settings_item(
                    d.progress[1],
                    d.settings.items[1],
                    settings.items[1],
                    now,
                ) {
                    Ok(p) => p,
                    Err(e) => {
                        return Err(e);
                    },
                };
                let p2 = match settings_item(
                    d.progress[2],
                    d.settings.items[2],
                    settings.items[2],
                    now,
                ) {
                    Ok(p) => p,
                    Err(e) => {
                        return Err(e);
                    },
                };
                self.data = Data { progress: [p0, p1, p2], settings, ..d };
                proof {
                    assert(self@.data =~= settings_all(old(self)@.data, settings@, now as int)->0);
                }
                Ok(None)
            },
            Some(Command::Complete { id }) => {
                let i = position(id);
                let p = self.data.progress[i];
                if p.pending {
                    let interval = (self.data.settings.items[i].interval_minutes as i64) * MINUTE;
                    let due = match add_utc(now, interval) {
                        Ok(t) => t,
                        Err(e) => {
                            return Err(e);
                        },
                    };
                    let q = Progress { next_due_at: Some(due), pending: false, auto_handled: false, ..p };
                    let mut progress = self.data.progress;
                    if i == 0 {
                        progress = [q, progress[1], progress[2]];
                    } else if i == 1 {
                        progress = [progress[0], q, progress[2]];
                    } else {
                        progress = [progress[0], progress[1], q];
                    }
                    assert(progress@ =~= self.data.progress@.update(i as int, q));
                    self.data.progress = progress;
                    Ok(Some(Response::Complete { id }))
                } else {
                    Ok(None)
                }
            },
            Some(Command::SnoozeAll {  }) => {
                let minutes = self.data.settings.snooze_minutes;
                let until = match add_utc(now, (minutes as i64) * MINUTE) {
                    Ok(t) => t,
                    Err(e) => {
                        return Err(e);
                    },
                };
                self.data.quiet = Some(Quiet { until, duration_minutes: minutes });
                self.data.snooze_pending = true;
                self.presentation = None;
                Ok(Some(Response::SnoozeAll))
            },
            Some(Command::SetPaused { paused }) => {
                self.data.paused = paused;
                Ok(None)
            },
            Some(Command::ShowPending {  }) => {
                let pending = self.pending();
                match self.present(Mode::Manual, pending, time) {
                    Ok(()) => Ok(None),
                    Err(e) => Err(e),
                }
            },
            Some(Command::ExtendChoices { presentation_id }) => {
                let current = match &self.presentation {
                    Some(p) => p.id == presentation_id && p.mode == Mode::Automatic,
                    None => false,
                };
                if !current {
                    return Err(Error::new(Code::StalePresentation));
                }
                let closes = match add_utc(now, CHOICES_GRACE_MS) {
                    Ok(t) => t,
                    Err(e) => {
                        return Err(e);
                    },
                };
                let deadline = match time.monotonic_ms.checked_add(CHOICES_GRACE_MS as u64) {
                    Some(v) => v,
                    None => {
                        return Err(Error::new(Code::InvalidTime));
                    },
                };
                if deadline > MAX_SAFE {
                    return Err(Error::new(Code::InvalidTime));
                }
                let p = match &self.presentation {
                    Some(p) => Presentation {
                        id: p.id,
                        mode: p.mode,
                        items: copy_ids(&p.items),
                        closes_at: Some(closes),
                        monotonic_deadline: Some(deadline),
                    },
                    None => {
                        return Err(Error::new(Code::StalePresentation));
                    },
                };
                self.presentation = Some(p);
                Ok(None)
            },
            Some(Command::Dismiss { presentation_id }) => {
                let current = match &self.presentation {
                    Some(p) => p.id == presentation_id,
                    None => false,
                };
                if current {
                    self.presentation = None;
                }
                Ok(None)
            },
            None => Ok(None),
        }
    }

    fn finish(&mut self, time: Time, was_manual: bool) -> (r: Result<(), Error>)
        requires
            old(self).data@.progress.len() == 3,
        ensures
            match finish_spec(old(self)@, time, was_manual) {
                Ok(e) => r is Ok && final(self)@ == e,
                Err(x) => r == Err::<(), Error>(x),
            },
    {
        let ghost e0 = self@;
        let now_manual = self.update_manual();
        let ghost e1 = self@;
        let pending = self.pending();
        let automatic = match mode_of(&self.presentation) {
            Some(m) => m == Mode::Automatic,
            None => false,
        };
        if automatic {
            let next = match &self.presentation {
                Some(p) => {
                    let kept = keep_in_exec(&p.items, &pending);
                    if kept.len() == 0 {
                        None
                    } else {
                        Some(
                            Presentation {
                                id: p.id,
                                mode: p.mode,
                                items: kept,
                                closes_at: p.closes_at,
                                monotonic_deadline: p.monotonic_deadline,
                            },
                        )
                    }
                },
                None => None,
            };
            self.presentation = next;
        }
        assert(self@ == prune_automatic(e1));
        let allowed = !self.protected && !self.data.paused
            && self.data.settings.active_hours.contains(time.local_minute)
            && self.data.quiet.is_none();
        if !allowed {
            let still_automatic = match mode_of(&self.presentation) {
                Some(m) => m == Mode::Automatic,
                None => false,
            };
            if still_automatic {
                self.presentation = None;
            }
            return Ok(());
        }
        if was_manual || now_manual {
            self.data.snooze_pending = false;
        }
        if now_manual {
            return Ok(());
        }
        let items = eligible_of(&self.data);
        self.data.snooze_pending = false;
        if items.len() > 0 {
            if self.presentation.is_some() {
                let next = match &self.presentation {
                    Some(p) => Presentation {
                        id: p.id,
                        mode: p.mode,
                        items: merge_exec(copy_ids(&p.items), &items),
                        closes_at: p.closes_at,
                        monotonic_deadline: p.monotonic_deadline,
                    },
                    None => {
                        return Ok(());
                    },
                };
                self.presentation = Some(next);
            } else {
                match self.present(Mode::Automatic, copy_ids(&items), time) {
                    Ok(()) => {},
                    Err(e) => {
                        return Err(e);
                    },
                }
            }
            self.data.progress = mark_listed_exec(self.data.progress, &items);
        }
        Ok(())
    }
}

impl Engine {
    fn advance(&mut self, command: Option<Command>, time: Time) -> (r: Result<
        Option<Response>,
        Error,
    >)
        requires
            old(self).data@.valid(),
            time.valid(),
        ensures
            match spec_advance(old(self)@, command, time) {
                Ok((e, resp)) => r == Ok::<Option<Response>, Error>(resp) && final(self)@ == e,
                Err(x) => r == Err::<Option<Response>, Error>(x),
            },
    {
        if let Some(Command::UpdateSettings { settings }) = command {
            match settings.validate() {
                Ok(()) => {},
                Err(e) => {
                    return Err(e);
                },
            }
            if self.protected {
                return Err(Error::new(Code::ReadOnly));
            }
        }
        let bad = match command {
            Some(Command::Dismiss { presentation_id }) => presentation_id == 0 || presentation_id
                > MAX_SAFE,
            Some(Command::ExtendChoices { presentation_id }) => presentation_id == 0
                || presentation_id > MAX_SAFE,
            _ => false,
        };
        if bad {
            return Err(Error::new(Code::InvalidPresentationId));
        }
        let ghost e0 = self@;
        match due_phase(self.data, time.utc_ms) {
            Ok(d) => {
                self.data = d;
            },
            Err(e) => {
                return Err(e);
            },
        }
        match quiet_phase(self.data, time.utc_ms) {
            Ok(d) => {
                self.data = d;
            },
            Err(e) => {
                return Err(e);
            },
        }
        let expired_now = match &self.presentation {
            Some(p) => p.mode == Mode::Automatic && (match p.closes_at {
                Some(c) => time.utc_ms >= c,
                None => false,
            } || match p.monotonic_deadline {
                Some(m) => time.monotonic_ms >= m,
                None => false,
            }),
            None => false,
        };
        if expired_now {
            self.presentation = None;
        }
        let ghost e3 = self@;
        assert(e3 == expire(
            with_data(e0, quiet_step(due_all(e0.data, time.utc_ms as int)->0, time.utc_ms as int)->0),
            time,
        ));
        let was_manual = self.update_manual();
        let response = match self.apply_command(command, time) {
            Ok(r) => r,
            Err(e) => {
                return Err(e);
            },
        };
        match self.finish(time, was_manual) {
            Ok(()) => {},
            Err(e) => {
                return Err(e);
            },
        }
        Ok(response)
    }

    /// Apply one command (or a clock tick) to a copy, and replace this engine
    /// only when the whole transition succeeded.
    pub fn step(&mut self, command: Option<Command>, time: Time) -> (r: Result<
        Option<Response>,
        Error,
    >)
        requires
            old(self).data@.valid(),
        ensures
            match spec_step(old(self)@, command, time) {
                Ok((e, resp)) => r == Ok::<Option<Response>, Error>(resp) && final(self)@ == e,
                Err(x) => r == Err::<Option<Response>, Error>(x) && *final(self) == *old(self),
            },
            final(self).data@.valid(),
            listed_ok(old(self)@) ==> listed_ok(final(self)@),
    {
        match time.validate() {
            Ok(()) => {},
            Err(e) => {
                return Err(e);
            },
        }
        let mut next = self.duplicate();
        let response = match next.advance(command, time) {
            Ok(r) => r,
            Err(e) => {
                return Err(e);
            },
        };
        proof {
            lemma_step_keeps_valid(self@, command, time);
            if listed_ok(self@) {
                lemma_step_keeps_listed(self@, command, time);
            }
        }
        match next.data.validate() {
            Ok(()) => {},
            Err(e) => {
                return Err(e);
            },
        }
        *self = next;
        Ok(response)
    }
}

/// A read-only engine refuses every valid settings change with `readOnly`
/// (invalid settings are reported as such first).
pub proof fn lemma_protected_refuses_settings(e: EngineView, settings: Settings, t: Time)
    requires
        e.protected,
        t.valid(),
    ensures
        spec_step(e, Some(Command::UpdateSettings { settings }), t) == Err::<
            (EngineView, Option<Response>),
            Error,
        >(err(if settings@.valid() {
            Code::ReadOnly
        } else {
            Code::InvalidSettings
        })),
{
}

/// While automatic prompting is not allowed (paused, snoozed, outside the
/// active hours, or read-only) no automatic presentation survives a step;
/// only an explicitly requested manual view can be open.
pub proof fn lemma_no_automatic_when_not_allowed(e: EngineView, command: Option<Command>, t: Time)
    ensures
        spec_step(e, command, t) matches Ok((e2, _)) ==> (!allowed(e2, t) ==> !is_automatic(
            e2.presentation,
        )),
{
    if t.valid() {
        let now = t.utc_ms as int;
        if let Some(d1) = due_all(e.data, now) {
            if let Some(d2) = quiet_step(d1, now) {
                let e3 = expire(with_data(e, d2), t);
                if let Ok((e5, _)) = command_step(sync_manual(e3), command, t) {
                    lemma_finish_no_automatic(e5, t, is_manual(e3.presentation));
                }
            }
        }
    }
}

proof fn lemma_finish_no_automatic(e: EngineView, t: Time, was_manual: bool)
    ensures
        finish_spec(e, t, was_manual) matches Ok(e2) ==> (!allowed(e2, t) ==> !is_automatic(
            e2.presentation,
        )),
{
    let e2 = prune_automatic(sync_manual(e));
    if allowed(e2, t) {
        if let Ok(f) = finish_spec(e, t, was_manual) {
            assert(f.protected == e2.protected);
            assert(f.data.paused == e2.data.paused);
            assert(f.data.quiet == e2.data.quiet);
            assert(f.data.settings == e2.data.settings);
        }
    }
}

/// Every successful transition from a valid state ends in a valid state, so
/// the final validation in `step` never refuses a transition.
pub proof fn lemma_step_keeps_valid(e: EngineView, command: Option<Command>, t: Time)
    requires
        e.data.valid(),
    ensures
        spec_step(e, command, t) matches Ok((e2, _)) ==> e2.data.valid(),
{
    if t.valid() {
        lemma_advance_keeps_valid(e, command, t);
    }
}

proof fn lemma_advance_keeps_valid(e: EngineView, command: Option<Command>, t: Time)
    requires
        e.data.valid(),
        t.valid(),
    ensures
        spec_advance(e, command, t) matches Ok((e2, _)) ==> e2.data.valid(),
{
    let now = t.utc_ms as int;
    lemma_due_keeps_valid(e.data, now);
    if let Some(d1) = due_all(e.data, now) {
        lemma_quiet_keeps_valid(d1, now);
        if let Some(d2) = quiet_step(d1, now) {
            let e3 = expire(with_data(e, d2), t);
            lemma_sync_keeps_valid(e3);
            let e4 = sync_manual(e3);
            if !(command matches Some(Command::UpdateSettings { settings })
                && !settings@.valid()) {
                lemma_command_keeps_valid(e4, command, t);
                if let Ok((e5, _)) = command_step(e4, command, t) {
                    lemma_finish_keeps_valid(e5, t, is_manual(e3.presentation));
                }
            }
        }
    }
}

proof fn lemma_due_keeps_valid(d: DataView, now: int)
    requires
        d.valid(),
    ensures
        due_all(d, now) matches Some(d1) ==> d1.valid(),
{
}

proof fn lemma_quiet_keeps_valid(d: DataView, now: int)
    requires
        d.valid(),
    ensures
        quiet_step(d, now) matches Some(d1) ==> d1.valid(),
{
}

proof fn lemma_sync_keeps_valid(e: EngineView)
    requires
        e.data.valid(),
    ensures
        sync_manual(e).data.valid(),
{
}

proof fn lemma_command_keeps_valid(e: EngineView, command: Option<Command>, t: Time)
    requires
        e.data.valid(),
        !(command matches Some(Command::UpdateSettings { settings }) && !settings@.valid()),
    ensures
        command_step(e, command, t) matches Ok((e2, _)) ==> e2.data.valid(),
{
    match command {
        Some(Command::Complete { id }) => {
            let i = index_of(id);
            assert(0 <= i < 3);
        },
        _ => {},
    }
}

proof fn lemma_finish_keeps_valid(e: EngineView, t: Time, was_manual: bool)
    requires
        e.data.valid(),
    ensures
        finish_spec(e, t, was_manual) matches Ok(e2) ==> e2.data.valid(),
{
    let e2 = prune_automatic(sync_manual(e));
    assert(e2.data.valid());
    if allowed(e2, t) && !is_manual(e.presentation) {
        let e3 = if was_manual {
            with_snooze(e2, false)
        } else {
            e2
        };
        let items = eligible_ids(e3.data.progress, e3.data.snooze_pending);
        let e4 = with_snooze(e3, false);
        assert(e4.data.valid());
        if items.len() > 0 {
            let e5 = match e4.presentation {
                Some(p) => Ok(
                    EngineView {
                        presentation: Some(PresentationView { items: merge(p.items, items), ..p }),
                        ..e4
                    },
                ),
                None => present_spec(e4, Mode::Automatic, items, t),
            };
            if let Ok(e5) = e5 {
                assert(e5.data == e4.data);
                let marked = mark_listed(e5.data.progress, items);
                assert forall|i: int| 0 <= i < 3 implies #[trigger] marked[i].auto_handled
                    ==> marked[i].pending by {
                    if items.contains(e5.data.progress[i].id) && !e5.data.progress[i].pending {
                        lemma_eligible_pending(e3.data.progress, e3.data.snooze_pending, i);
                    }
                }
            }
        }
    }
}

/// A kind listed as eligible is pending.
proof fn lemma_eligible_pending(ps: Seq<Progress>, snooze: bool, i: int)
    requires
        ps.len() == 3,
        0 <= i < 3,
        ps[0].id == id_at(0),
        ps[1].id == id_at(1),
        ps[2].id == id_at(2),
        eligible_ids(ps, snooze).contains(ps[i].id),
    ensures
        ps[i].pending,
{
    let s = eligible_ids(ps, snooze);
    let k = choose|k: int| 0 <= k < s.len() && s[k] == ps[i].id;
    assert(pick_eligible(ps[0], snooze).len() <= 1);
    assert(pick_eligible(ps[1], snooze).len() <= 1);
    assert(pick_eligible(ps[2], snooze).len() <= 1);
    assert(s =~= pick_eligible(ps[0], snooze) + pick_eligible(ps[1], snooze) + pick_eligible(
        ps[2],
        snooze,
    ));
}


/// A pending reminder stays pending through every transition but its own
/// completion or a settings change: dismissing, letting an automatic
/// presentation time out, snoozing, pausing or opening the pending view
/// never drops it.
pub proof fn lemma_pending_kept(e: EngineView, command: Option<Command>, t: Time, i: int)
    requires
        e.data.valid(),
        0 <= i < 3,
        e.data.progress[i].pending,
        !(command matches Some(Command::UpdateSettings { .. })),
        !(command matches Some(Command::Complete { id }) && index_of(id) == i),
    ensures
        spec_step(e, command, t) matches Ok((e2, _)) ==> e2.data.progress[i].pending,
{
    if t.valid() {
        let now = t.utc_ms as int;
        if let Some(d1) = due_all(e.data, now) {
            lemma_due_keeps_pending(e.data, now, i);
            if let Some(d2) = quiet_step(d1, now) {
                let e3 = expire(with_data(e, d2), t);
                let e4 = sync_manual(e3);
                assert(e4.data.progress[i].pending);
                lemma_command_keeps_pending(e4, command, t, i);
                if let Ok((e5, _)) = command_step(e4, command, t) {
                    lemma_finish_keeps_pending(e5, t, is_manual(e3.presentation), i);
                }
            }
        }
    }
}

proof fn lemma_due_keeps_pending(d: DataView, now: int, i: int)
    requires
        d.valid(),
        0 <= i < 3,
        d.progress[i].pending,
    ensures
        due_all(d, now) matches Some(d1) ==> d1.progress.len() == 3 && d1.progress[i].pending,
{
}

proof fn lemma_command_keeps_pending(e: EngineView, command: Option<Command>, t: Time, i: int)
    requires
        e.data.progress.len() == 3,
        0 <= i < 3,
        e.data.progress[i].pending,
        !(command matches Some(Command::UpdateSettings { .. })),
        !(command matches Some(Command::Complete { id }) && index_of(id) == i),
    ensures
        command_step(e, command, t) matches Ok((e2, _)) ==> e2.data.progress.len() == 3
            && e2.data.progress[i].pending,
{
}

proof fn lemma_finish_keeps_pending(e: EngineView, t: Time, was_manual: bool, i: int)
    requires
        e.data.progress.len() == 3,
        0 <= i < 3,
        e.data.progress[i].pending,
    ensures
        finish_spec(e, t, was_manual) matches Ok(e2) ==> e2.data.progress[i].pending,
{
    let e2 = prune_automatic(sync_manual(e));
    assert(e2.data.progress[i].pending);
    if allowed(e2, t) && !is_manual(e.presentation) {
        let e3 = if was_manual {
            with_snooze(e2, false)
        } else {
            e2
        };
        let items = eligible_ids(e3.data.progress, e3.data.snooze_pending);
        let e4 = with_snooze(e3, false);
        if items.len() > 0 {
            let e5 = match e4.presentation {
                Some(p) => Ok(
                    EngineView {
                        presentation: Some(PresentationView { items: merge(p.items, items), ..p }),
                        ..e4
                    },
                ),
                None => present_spec(e4, Mode::Automatic, items, t),
            };
            if let Ok(e5) = e5 {
                assert(e5.data == e4.data);
                assert(mark_listed(e5.data.progress, items)[i].pending);
            }
        }
    }
}

/// Asking for the pending view opens a manual view, with the next
/// identifier, that lists exactly the kinds pending afterwards in their fixed
/// order, also when none is pending. It can only fail on an exhausted
/// identifier sequence or a clock sample it cannot use.
pub proof fn lemma_show_pending_lists_pending(e: EngineView, t: Time)
    requires
        e.data.valid(),
    ensures
        match spec_step(e, Some(Command::ShowPending {  }), t) {
            Ok((e2, r)) => {
                &&& r is None
                &&& is_manual(e2.presentation)
                &&& e2.presentation->0.id == e.next_id + 1
                &&& e2.presentation->0.items == pending_ids(e2.data.progress)
            },
            Err(x) => x == err(Code::InvalidTime) || x == err(Code::SequenceExhausted),
        },
{
    if t.valid() {
        let now = t.utc_ms as int;
        if let Some(d1) = due_all(e.data, now) {
            if let Some(d2) = quiet_step(d1, now) {
                let e3 = expire(with_data(e, d2), t);
                let e4 = sync_manual(e3);
                assert(e4.data.progress.len() == 3);
                if let Ok((e5, _)) = command_step(e4, Some(Command::ShowPending {  }), t) {
                    let ps = e5.data.progress;
                    let marked = mark_pending(ps);
                    assert(pick(marked[0]) == pick(ps[0]));
                    assert(pick(marked[1]) == pick(ps[1]));
                    assert(pick(marked[2]) == pick(ps[2]));
                    assert(pending_ids(marked) == pending_ids(ps));
                }
            }
        }
    }
}


/// A kind that was already shown automatically is not shown automatically
/// again: when no ended snooze is waiting to re-offer the pending kinds,
/// after any step an automatic presentation lists the kind only if the
/// automatic presentation open before the step already did.
pub proof fn lemma_auto_prompt_never_repeats(e: EngineView, command: Option<Command>, t: Time, i: int)
    requires
        e.data.valid(),
        0 <= i < 3,
        e.data.progress[i].auto_handled,
        !e.data.snooze_pending,
    ensures
        spec_step(e, command, t) matches Ok((e2, _)) ==> (is_automatic(e2.presentation)
            && e2.presentation->0.items.contains(id_at(i)) ==> is_automatic(e.presentation)
            && e.presentation->0.items.contains(id_at(i))),
{
    if t.valid() {
        let now = t.utc_ms as int;
        if let Some(d1) = due_all(e.data, now) {
            lemma_due_keeps_pending(e.data, now, i);
            lemma_due_keeps_valid(e.data, now);
            assert(d1.progress[i] == e.data.progress[i]);
            if let Some(d2) = quiet_step(d1, now) {
                let e3 = expire(with_data(e, d2), t);
                let e4 = sync_manual(e3);
                lemma_sync_keeps_valid(e3);
                assert(e4.data.progress[i].auto_handled && e4.data.progress[i].pending);
                if !(command matches Some(Command::UpdateSettings { settings })
                    && !settings@.valid()) {
                    lemma_command_keeps_valid(e4, command, t);
                    lemma_command_not_eligible(e4, command, t, i);
                    if let Ok((e5, _)) = command_step(e4, command, t) {
                        lemma_finish_no_repeat(e5, t, is_manual(e3.presentation), i);
                    }
                }
            }
        }
    }
}

/// After the command, the kind is not eligible for a new automatic prompt,
/// and any automatic presentation listing it is the one that was open.
proof fn lemma_command_not_eligible(e: EngineView, command: Option<Command>, t: Time, i: int)
    requires
        e.data.valid(),
        0 <= i < 3,
        e.data.progress[i].auto_handled,
        !e.data.snooze_pending,
        !(command matches Some(Command::UpdateSettings { settings }) && !settings@.valid()),
    ensures
        command_step(e, command, t) matches Ok((e2, _)) ==> {
            &&& e2.data.quiet is Some || (!e2.data.snooze_pending && !(
            e2.data.progress[i].pending && !e2.data.progress[i].auto_handled))
            &&& (is_automatic(e2.presentation) && e2.presentation->0.items.contains(id_at(i))
                ==> is_automatic(e.presentation) && e.presentation->0.items.contains(id_at(i)))
        },
{
    match command {
        Some(Command::Complete { id }) => {
            let k = index_of(id);
            assert(0 <= k < 3);
        },
        _ => {},
    }
}

proof fn lemma_finish_no_repeat(e: EngineView, t: Time, was_manual: bool, i: int)
    requires
        e.data.valid(),
        0 <= i < 3,
        e.data.quiet is Some || (!e.data.snooze_pending && !(e.data.progress[i].pending
            && !e.data.progress[i].auto_handled)),
    ensures
        finish_spec(e, t, was_manual) matches Ok(f) ==> (is_automatic(f.presentation)
            && f.presentation->0.items.contains(id_at(i)) ==> is_automatic(e.presentation)
            && e.presentation->0.items.contains(id_at(i))),
{
    let now_manual = is_manual(e.presentation);
    let e1 = sync_manual(e);
    let e2 = prune_automatic(e1);
    assert(e1.presentation == e.presentation || now_manual);
    if is_automatic(e1.presentation) {
        let p = e1.presentation->0;
        let kept = keep_in(p.items, pending_ids(e1.data.progress));
        if kept.contains(id_at(i)) {
            lemma_keep_in_subset(p.items, pending_ids(e1.data.progress), id_at(i));
        }
    }
    if allowed(e2, t) && !now_manual {
        let e3 = if was_manual {
            with_snooze(e2, false)
        } else {
            e2
        };
        let items = eligible_ids(e3.data.progress, e3.data.snooze_pending);
        lemma_not_eligible(e3.data.progress, e3.data.snooze_pending, i);
        let e4 = with_snooze(e3, false);
        if items.len() > 0 {
            match e4.presentation {
                Some(p) => {
                    if merge(p.items, items).contains(id_at(i)) {
                        lemma_merge_contains(p.items, items, id_at(i));
                    }
                },
                None => {},
            }
        }
    }
}

/// A kind that is not pending, or already shown without a snooze, is not eligible.
proof fn lemma_not_eligible(ps: Seq<Progress>, snooze: bool, i: int)
    requires
        ps.len() == 3,
        0 <= i < 3,
        ps[0].id == id_at(0),
        ps[1].id == id_at(1),
        ps[2].id == id_at(2),
        !(ps[i].pending && (snooze || !ps[i].auto_handled)),
    ensures
        !eligible_ids(ps, snooze).contains(id_at(i)),
{
    let s = eligible_ids(ps, snooze);
    assert(s =~= pick_eligible(ps[0], snooze) + pick_eligible(ps[1], snooze) + pick_eligible(
        ps[2],
        snooze,
    ));
    if s.contains(id_at(i)) {
        let k = choose|k: int| 0 <= k < s.len() && s[k] == id_at(i);
        assert(pick_eligible(ps[0], snooze).len() <= 1);
        assert(pick_eligible(ps[1], snooze).len() <= 1);
        assert(pick_eligible(ps[2], snooze).len() <= 1);
        assert(false);
    }
}

proof fn lemma_keep_in_subset(items: Seq<Id>, keep: Seq<Id>, x: Id)
    requires
        keep_in(items, keep).contains(x),
    ensures
        items.contains(x),
    decreases items.len(),
{
    if items.len() > 0 {
        let r = keep_in(items.drop_last(), keep);
        if r.contains(x) {
            lemma_keep_in_subset(items.drop_last(), keep, x);
            let k = choose|k: int| 0 <= k < items.drop_last().len() && items.drop_last()[k] == x;
            assert(items[k] == x);
        } else {
            assert(items[items.len() - 1] == x);
        }
    }
}

proof fn lemma_merge_contains(a: Seq<Id>, b: Seq<Id>, x: Id)
    requires
        merge(a, b).contains(x),
    ensures
        a.contains(x) || b.contains(x),
    decreases b.len(),
{
    if b.len() > 0 {
        let r = merge(a, b.drop_last());
        if r.contains(x) {
            lemma_merge_contains(a, b.drop_last(), x);
            if b.drop_last().contains(x) {
                let k = choose|k: int| 0 <= k < b.drop_last().len() && b.drop_last()[k] == x;
                assert(b[k] == x);
            }
        } else {
            assert(b[b.len() - 1] == x);
        }
    }
}


/// Completing a kind that is not pending once the clock sample is applied
/// (a repeated completion, say) does nothing beyond what that clock sample
/// itself does: the step equals a plain clock step.
pub proof fn lemma_repeated_completion_is_noop(e: EngineView, id: Id, t: Time)
    requires
        t.valid(),
        due_all(e.data, t.utc_ms as int) matches Some(d1) && !d1.progress[index_of(id)].pending,
    ensures
        spec_step(e, Some(Command::Complete { id }), t) == spec_step(e, None, t),
{
}


/// An open automatic presentation lists each kind once, and every kind it
/// lists is pending and counts as already shown.
pub open spec fn listed_ok(e: EngineView) -> bool {
    is_automatic(e.presentation) ==> {
        let items = e.presentation->0.items;
        &&& items.len() > 0
        &&& items.no_duplicates()
        &&& forall|k: int|
            0 <= k < items.len() ==> e.data.progress[index_of(#[trigger] items[k])].pending
                && e.data.progress[index_of(items[k])].auto_handled
    }
}

/// Weaker form used inside a step: no repeats, and a listed kind that is
/// still pending counts as already shown.
pub open spec fn listed_handled(e: EngineView) -> bool {
    is_automatic(e.presentation) ==> {
        let items = e.presentation->0.items;
        &&& items.no_duplicates()
        &&& forall|k: int|
            0 <= k < items.len() && e.data.progress[index_of(#[trigger] items[k])].pending
                ==> e.data.progress[index_of(items[k])].auto_handled
    }
}

proof fn lemma_keep_in_props(items: Seq<Id>, keep: Seq<Id>)
    ensures
        forall|x: Id| #[trigger] keep_in(items, keep).contains(x) ==> items.contains(x) && keep.contains(x),
        items.no_duplicates() ==> keep_in(items, keep).no_duplicates(),
        (forall|x: Id| items.contains(x) ==> keep.contains(x)) ==> keep_in(items, keep) == items,
    decreases items.len(),
{
    if items.len() > 0 {
        let d = items.drop_last();
        lemma_keep_in_props(d, keep);
        let r = keep_in(d, keep);
        assert forall|x: Id| #[trigger] keep_in(items, keep).contains(x) implies items.contains(x)
            && keep.contains(x) by {
            if r.contains(x) {
                let k = choose|k: int| 0 <= k < d.len() && d[k] == x;
                assert(items[k] == x);
            } else {
                assert(x == items.last());
                assert(items[items.len() - 1] == x);
            }
        }
        if items.no_duplicates() {
            assert(d.no_duplicates());
            if keep.contains(items.last()) {
                if r.contains(items.last()) {
                    let k = choose|k: int| 0 <= k < d.len() && d[k] == items.last();
                    assert(items[k] == items[items.len() - 1]);
                }
            }
        }
        if forall|x: Id| items.contains(x) ==> keep.contains(x) {
            assert forall|x: Id| d.contains(x) implies keep.contains(x) by {
                let k = choose|k: int| 0 <= k < d.len() && d[k] == x;
                assert(items[k] == x);
            }
            assert(items.contains(items.last())) by {
                assert(items[items.len() - 1] == items.last());
            }
            assert(r.push(items.last()) =~= items);
        }
    } else {
        assert(keep_in(items, keep) =~= items);
    }
}

proof fn lemma_merge_props(a: Seq<Id>, b: Seq<Id>)
    ensures
        merge(a, b).len() >= a.len(),
        merge(a, b).subrange(0, a.len() as int) == a,
        a.no_duplicates() ==> merge(a, b).no_duplicates(),
        forall|x: Id| #[trigger] merge(a, b).contains(x) ==> a.contains(x) || b.contains(x),
        forall|x: Id| b.contains(x) ==> #[trigger] merge(a, b).contains(x),
    decreases b.len(),
{
    if b.len() == 0 {
        assert(a.subrange(0, a.len() as int) =~= a);
    } else {
        let d = b.drop_last();
        lemma_merge_props(a, d);
        let r = merge(a, d);
        assert(r.push(b.last()).subrange(0, a.len() as int) =~= r.subrange(0, a.len() as int));
        assert forall|x: Id| #[trigger] merge(a, b).contains(x) implies a.contains(x) || b.contains(x) by {
            lemma_merge_contains(a, b, x);
        }
        assert forall|x: Id| b.contains(x) implies #[trigger] merge(a, b).contains(x) by {
            let k = choose|k: int| 0 <= k < b.len() && b[k] == x;
            if k < d.len() {
                assert(d[k] == x);
                assert(d.contains(x));
                assert(r.contains(x));
                if !r.contains(b.last()) {
                    let j = choose|j: int| 0 <= j < r.len() && r[j] == x;
                    assert(r.push(b.last())[j] == x);
                }
            } else {
                if !r.contains(b.last()) {
                    assert(r.push(b.last())[r.len() as int] == x);
                }
            }
        }
    }
}

proof fn lemma_eligible_distinct(ps: Seq<Progress>, snooze: bool)
    requires
        ps.len() == 3,
        ps[0].id == id_at(0),
        ps[1].id == id_at(1),
        ps[2].id == id_at(2),
    ensures
        eligible_ids(ps, snooze).no_duplicates(),
        forall|x: Id| #[trigger] eligible_ids(ps, snooze).contains(x) ==> ps[index_of(x)].pending,
{
    let s = eligible_ids(ps, snooze);
    assert(s =~= pick_eligible(ps[0], snooze) + pick_eligible(ps[1], snooze) + pick_eligible(
        ps[2],
        snooze,
    ));
    assert forall|x: Id| #[trigger] s.contains(x) implies ps[index_of(x)].pending by {
        lemma_eligible_pending(ps, snooze, index_of(x));
    }
}

/// Through the command, a listed kind that stays pending still counts as shown.
proof fn lemma_command_listed(e: EngineView, command: Option<Command>, t: Time)
    requires
        e.data.valid(),
        listed_handled(e),
    ensures
        command_step(e, command, t) matches Ok((e2, _)) ==> listed_handled(e2),
{
    if let Ok((e2, _)) = command_step(e, command, t) {
        if is_automatic(e2.presentation) {
            let items = e2.presentation->0.items;
            assert(is_automatic(e.presentation));
            assert(items == e.presentation->0.items);
            assert forall|k: int|
                0 <= k < items.len() && e2.data.progress[index_of(#[trigger] items[k])].pending
                    implies e2.data.progress[index_of(items[k])].auto_handled by {
                let i = index_of(items[k]);
                assert(0 <= i < 3);
                match command {
                    Some(Command::Complete { id }) => {
                        assert(0 <= index_of(id) < 3);
                    },
                    _ => {},
                }
            }
        }
    }
}

proof fn lemma_prune_listed(e: EngineView)
    requires
        e.data.valid(),
        listed_handled(e),
    ensures
        listed_ok(prune_automatic(sync_manual(e))),
{
    let now_manual = is_manual(e.presentation);
    let e1 = sync_manual(e);
    let e2 = prune_automatic(e1);
    let ps = e.data.progress;
    assert(e1 == e || now_manual);
    if is_automatic(e1.presentation) {
        let p = e1.presentation->0;
        let kept = keep_in(p.items, pending_ids(ps));
        lemma_keep_in_props(p.items, pending_ids(ps));
        lemma_pending_ids_props(ps);
        if kept.len() > 0 {
            assert forall|k: int| 0 <= k < kept.len() implies e2.data.progress[index_of(
                #[trigger] kept[k],
            )].pending && e2.data.progress[index_of(kept[k])].auto_handled by {
                let x = kept[k];
                assert(kept.contains(x));
                let j = choose|j: int| 0 <= j < p.items.len() && p.items[j] == x;
                assert(p.items[j] == x);
            }
        }
    }
}

/// Adding newly eligible kinds to the open presentation, or opening a new
/// one with them, and marking them shown, keeps the listing sound.
proof fn lemma_extend_listed(e4: EngineView, items: Seq<Id>, snooze: bool, t: Time)
    requires
        e4.data.valid(),
        listed_ok(e4),
        e4.presentation matches Some(p) ==> p.mode == Mode::Automatic,
        items == eligible_ids(e4.data.progress, snooze),
        items.len() > 0,
    ensures
        ({
            let e5 = match e4.presentation {
                Some(p) => Ok(
                    EngineView {
                        presentation: Some(PresentationView { items: merge(p.items, items), ..p }),
                        ..e4
                    },
                ),
                None => present_spec(e4, Mode::Automatic, items, t),
            };
            e5 matches Ok(e5) ==> listed_ok(
                with_data(e5, DataView { progress: mark_listed(e5.data.progress, items), ..e5.data }),
            )
        }),
{
    lemma_eligible_distinct(e4.data.progress, snooze);
    let e5 = match e4.presentation {
        Some(p) => Ok(
            EngineView {
                presentation: Some(PresentationView { items: merge(p.items, items), ..p }),
                ..e4
            },
        ),
        None => present_spec(e4, Mode::Automatic, items, t),
    };
    if let Ok(e5) = e5 {
        let marked = mark_listed(e5.data.progress, items);
        let f = with_data(e5, DataView { progress: marked, ..e5.data });
        let q = f.presentation->0;
        assert(e5.data == e4.data);
        match e4.presentation {
            Some(p) => {
                lemma_merge_props(p.items, items);
                assert forall|k: int| 0 <= k < q.items.len() implies f.data.progress[index_of(
                    #[trigger] q.items[k],
                )].pending && f.data.progress[index_of(q.items[k])].auto_handled by {
                    let x = q.items[k];
                    assert(merge(p.items, items).contains(x));
                    if items.contains(x) {
                        assert(marked[index_of(x)].id == x);
                    } else {
                        let j = choose|j: int| 0 <= j < p.items.len() && p.items[j] == x;
                        assert(p.items[j] == x);
                    }
                }
            },
            None => {
                assert forall|k: int| 0 <= k < q.items.len() implies f.data.progress[index_of(
                    #[trigger] q.items[k],
                )].pending && f.data.progress[index_of(q.items[k])].auto_handled by {
                    let x = q.items[k];
                    assert(items.contains(x));
                    assert(marked[index_of(x)].id == x);
                }
            },
        }
    }
}

proof fn lemma_finish_listed(e: EngineView, t: Time, was_manual: bool)
    requires
        e.data.valid(),
        listed_handled(e),
    ensures
        finish_spec(e, t, was_manual) matches Ok(f) ==> listed_ok(f),
{
    let now_manual = is_manual(e.presentation);
    let e2 = prune_automatic(sync_manual(e));
    lemma_prune_listed(e);
    lemma_sync_keeps_valid(e);
    assert(e2.data == sync_manual(e).data);
    if allowed(e2, t) && !now_manual {
        let e3 = if was_manual {
            with_snooze(e2, false)
        } else {
            e2
        };
        let items = eligible_ids(e3.data.progress, e3.data.snooze_pending);
        let e4 = with_snooze(e3, false);
        assert(e2.presentation is None || is_automatic(e2.presentation));
        if items.len() > 0 {
            lemma_extend_listed(e4, items, e3.data.snooze_pending, t);
        }
    }
}

/// The kinds `pending_ids` lists are exactly the pending ones.
proof fn lemma_pending_ids_props(ps: Seq<Progress>)
    requires
        ps.len() == 3,
        ps[0].id == id_at(0),
        ps[1].id == id_at(1),
        ps[2].id == id_at(2),
    ensures
        forall|x: Id| #[trigger] pending_ids(ps).contains(x) <==> ps[index_of(x)].pending,
{
    let s = pending_ids(ps);
    assert(s =~= pick(ps[0]) + pick(ps[1]) + pick(ps[2]));
    assert forall|x: Id| #[trigger] pending_ids(ps).contains(x) <==> ps[index_of(x)].pending by {
        if ps[index_of(x)].pending {
            let i = index_of(x);
            let off = (if i >= 1 { pick(ps[0]).len() } else { 0 }) + (if i >= 2 { pick(ps[1]).len() } else { 0 });
            assert(s[off as int] == x);
        }
        if s.contains(x) {
            let k = choose|k: int| 0 <= k < s.len() && s[k] == x;
            assert(pick(ps[0]).len() <= 1);
            assert(pick(ps[1]).len() <= 1);
            assert(pick(ps[2]).len() <= 1);
        }
    }
}


proof fn lemma_due_same_when_pending(d: DataView, now: int, i: int)
    requires
        d.valid(),
        0 <= i < 3,
        d.progress[i].pending,
    ensures
        due_all(d, now) matches Some(d1) ==> d1.progress[i] == d.progress[i],
{
}

/// Every step keeps the listing of an open automatic presentation sound:
/// each kind listed once, and each listed kind pending and already shown.
pub proof fn lemma_step_keeps_listed(e: EngineView, command: Option<Command>, t: Time)
    requires
        e.data.valid(),
        listed_ok(e),
    ensures
        spec_step(e, command, t) matches Ok((e2, _)) ==> listed_ok(e2),
{
    if t.valid() {
        let now = t.utc_ms as int;
        if let Some(d1) = due_all(e.data, now) {
            lemma_due_keeps_valid(e.data, now);
            if let Some(d2) = quiet_step(d1, now) {
                lemma_quiet_keeps_valid(d1, now);
                let e3 = expire(with_data(e, d2), t);
                if is_automatic(e3.presentation) {
                    let items = e3.presentation->0.items;
                    assert forall|k: int|
                        0 <= k < items.len() && e3.data.progress[index_of(#[trigger] items[k])].pending
                            implies e3.data.progress[index_of(items[k])].auto_handled by {
                        let i = index_of(items[k]);
                        assert(e.data.progress[index_of(items[k])].pending);
                        lemma_due_same_when_pending(e.data, now, i);
                    }
                }
                assert(listed_handled(e3));
                let e4 = sync_manual(e3);
                lemma_sync_keeps_valid(e3);
                assert(listed_handled(e4));
                if !(command matches Some(Command::UpdateSettings { settings })
                    && !settings@.valid()) {
                    lemma_command_keeps_valid(e4, command, t);
                    lemma_command_listed(e4, command, t);
                    if let Ok((e5, _)) = command_step(e4, command, t) {
                        lemma_finish_listed(e5, t, is_manual(e3.presentation));
                    }
                }
            }
        }
    }
}


/// A clock step on an open automatic presentation that has not expired
/// keeps it open while prompting is allowed: same identifier, same wall and
/// monotonic closing times, its kinds first in their order, then only kinds
/// it did not list yet (each listed once, pending and marked shown). When
/// prompting is not allowed the presentation closes.
pub proof fn lemma_open_prompt_keeps_identity(e: EngineView, t: Time)
    requires
        e.data.valid(),
        listed_ok(e),
        e.presentation matches Some(p) && p.mode == Mode::Automatic && !expired(p, t),
    ensures
        spec_step(e, None, t) matches Ok((e2, _)) ==> {
            let p = e.presentation->0;
            &&& listed_ok(e2)
            &&& !allowed(e2, t) ==> e2.presentation is None
            &&& allowed(e2, t) ==> (e2.presentation matches Some(q) && q.id == p.id && q.mode
                == Mode::Automatic && q.closes_at == p.closes_at && q.monotonic_deadline
                == p.monotonic_deadline && q.items.len() >= p.items.len() && q.items.subrange(
                0,
                p.items.len() as int,
            ) == p.items && forall|k: int|
                p.items.len() <= k < q.items.len() ==> !p.items.contains(#[trigger] q.items[k]))
        },
{
    lemma_step_keeps_listed(e, None, t);
    lemma_no_automatic_when_not_allowed(e, None, t);
    let p = e.presentation->0;
    if t.valid() {
        let now = t.utc_ms as int;
        if let Some(d1) = due_all(e.data, now) {
            lemma_due_keeps_valid(e.data, now);
            if let Some(d2) = quiet_step(d1, now) {
                assert forall|x: Id| p.items.contains(x) implies #[trigger] pending_ids(
                    d2.progress,
                ).contains(x) by {
                    let k = choose|k: int| 0 <= k < p.items.len() && p.items[k] == x;
                    assert(e.data.progress[index_of(p.items[k])].pending);
                    lemma_due_same_when_pending(e.data, now, index_of(x));
                    lemma_pending_ids_props(d2.progress);
                }
                lemma_keep_in_props(p.items, pending_ids(d2.progress));
                let e3 = expire(with_data(e, d2), t);
                assert(e3.presentation == Some(p));
                assert(sync_manual(e3) == e3);
                let e2 = prune_automatic(sync_manual(e3));
                assert(e2 == e3);
                if let Ok(f) = finish_spec(e3, t, false) {
                    assert(f.protected == e2.protected);
                    assert(f.data.paused == e2.data.paused);
                    assert(f.data.quiet == e2.data.quiet);
                    assert(f.data.settings == e2.data.settings);
                    if allowed(e2, t) {
                        let items = eligible_ids(e2.data.progress, e2.data.snooze_pending);
                        if items.len() > 0 {
                            lemma_merge_props(p.items, items);
                            lemma_step_keeps_listed(e, None, t);
                            let q = f.presentation->0;
                            assert forall|k: int|
                                p.items.len() <= k < q.items.len() implies !p.items.contains(
                                #[trigger] q.items[k],
                            ) by {
                                if p.items.contains(q.items[k]) {
                                    let j = choose|j: int| 0 <= j < p.items.len() && p.items[j] == q.items[k];
                                    assert(q.items.subrange(0, p.items.len() as int)[j] == q.items[j]);
                                }
                            }
                        } else {
                            assert(p.items.subrange(0, p.items.len() as int) =~= p.items);
                        }
                    }
                }
            }
        }
    }
}


/// Asking for the cup choices on the open automatic presentation grants it a
/// fresh grace period from the moment of the request: while prompting stays
/// allowed it keeps its identifier and its kinds, and now closes exactly
/// `CHOICES_GRACE_MS` after the request on both the wall clock and the
/// monotonic clock, whatever its closing times were before. When prompting
/// is not allowed it closes. The request succeeds whenever a plain clock
/// step at that moment does and both clocks have room for the grace period.
pub proof fn lemma_extend_choices_grants_grace(e: EngineView, t: Time)
    requires
        e.data.valid(),
        listed_ok(e),
        e.presentation matches Some(p) && p.mode == Mode::Automatic && !expired(p, t),
    ensures
        spec_step(e, Some(Command::ExtendChoices { presentation_id: e.presentation->0.id }), t)
            matches Ok((e2, _)) ==> {
            let p = e.presentation->0;
            &&& listed_ok(e2)
            &&& !allowed(e2, t) ==> e2.presentation is None
            &&& allowed(e2, t) ==> (e2.presentation matches Some(q) && q.id == p.id && q.mode
                == Mode::Automatic && (q.closes_at matches Some(c) && c == t.utc_ms
                + CHOICES_GRACE_MS) && (q.monotonic_deadline matches Some(m) && m == t.monotonic_ms
                + CHOICES_GRACE_MS) && q.items.len() >= p.items.len() && q.items.subrange(
                0,
                p.items.len() as int,
            ) == p.items)
        },
        spec_step(e, None, t) is Ok && add_utc_spec(t.utc_ms as int, CHOICES_GRACE_MS as int)
            is Some && t.monotonic_ms + CHOICES_GRACE_MS <= MAX_SAFE && 0 < e.presentation->0.id
            <= MAX_SAFE ==> spec_step(
            e,
            Some(Command::ExtendChoices { presentation_id: e.presentation->0.id }),
            t,
        ) is Ok,
{
    let p = e.presentation->0;
    let command = Some(Command::ExtendChoices { presentation_id: p.id });
    lemma_step_keeps_listed(e, command, t);
    lemma_no_automatic_when_not_allowed(e, command, t);
    if t.valid() && !bad_presentation_id(command) {
        let now = t.utc_ms as int;
        if let Some(d1) = due_all(e.data, now) {
            lemma_due_keeps_valid(e.data, now);
            if let Some(d2) = quiet_step(d1, now) {
                assert forall|x: Id| p.items.contains(x) implies #[trigger] pending_ids(
                    d2.progress,
                ).contains(x) by {
                    let k = choose|k: int| 0 <= k < p.items.len() && p.items[k] == x;
                    assert(e.data.progress[index_of(p.items[k])].pending);
                    lemma_due_same_when_pending(e.data, now, index_of(x));
                    lemma_pending_ids_props(d2.progress);
                }
                lemma_keep_in_props(p.items, pending_ids(d2.progress));
                let e3 = expire(with_data(e, d2), t);
                assert(e3.presentation == Some(p));
                assert(sync_manual(e3) == e3);
                if let Ok((e5, _)) = command_step(e3, command, t) {
                    let p5 = e5.presentation->0;
                    assert(p5.items == p.items);
                    assert(p5.id == p.id);
                    let e6 = prune_automatic(sync_manual(e5));
                    assert(e6 == e5);
                    if let Ok(f) = finish_spec(e5, t, false) {
                        assert(f.protected == e5.protected);
                        assert(f.data.paused == e5.data.paused);
                        assert(f.data.quiet == e5.data.quiet);
                        assert(f.data.settings == e5.data.settings);
                        if allowed(e5, t) {
                            let items = eligible_ids(e5.data.progress, e5.data.snooze_pending);
                            if items.len() > 0 {
                                lemma_merge_props(p.items, items);
                            } else {
                                assert(p.items.subrange(0, p.items.len() as int) =~= p.items);
                            }
                        }
                    }
                }
            }
        }
    }
}

} // verus!
