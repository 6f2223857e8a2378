//! The versioned single-file backup: framing, canonical base64, checksum and
//! the content-free preview. No disk access and no import activation.
use crate::data_directory::records::{
    all_lower_hex, digest_input_spec, digest_text_ok, hex_spec, sha256_spec, Fault, ImportFiles,
    ImportFilesView, MAX_SET_BYTES,
};
use crate::reminders::model::{ActiveHours, Data as ReminderData, Id};
use vstd::prelude::*;
use vstd::string::StrSliceExecFns;
use vstd::string::StringSliceAdditionalSpecFns;

verus! {

pub const VERSION: u8 = 1;
pub const MAX_BACKUP_BYTES: usize = 2_097_152;
/// 9999-12-31T23:59:59.999Z
pub const MAX_CREATED_AT_UTC_MS: i64 = 253_402_300_799_999;

pub open spec fn format_name() -> Seq<char> {
    "march7-local-backup"@
}

pub struct BackupFiles {
    pub desktop_json_base64: Option<String>,
    pub characters_json_base64: String,
    pub reminders_json_base64: String,
}

pub struct BackupDocument {
    pub format: String,
    pub schema_version: u8,
    pub created_at_utc_ms: i64,
    pub files: BackupFiles,
    pub sha256: String,
}

pub open spec fn time_ok(t: i64) -> bool {
    0 <= t <= MAX_CREATED_AT_UTC_MS
}

pub fn validate_time(created_at_utc_ms: i64) -> (r: Result<(), Fault>)
    ensures
        r is Ok <==> time_ok(created_at_utc_ms),
        r matches Err(f) ==> f == Fault::BackupInvalidTime,
{
    if !(0 <= created_at_utc_ms && created_at_utc_ms <= MAX_CREATED_AT_UTC_MS) {
        return Err(Fault::BackupInvalidTime);
    }
    Ok(())
}

/// A package larger than the limit is refused before it is parsed or used.
pub fn check_package_size(len: usize) -> (r: Result<(), Fault>)
    ensures
        r is Ok <==> len <= MAX_BACKUP_BYTES,
        r matches Err(f) ==> f == Fault::BackupTooLarge,
{
    if len > MAX_BACKUP_BYTES {
        return Err(Fault::BackupTooLarge);
    }
    Ok(())
}

/// What the standard base64 engine decodes `text` to, if it accepts it.
pub uninterp spec fn base64_decode_spec(text: Seq<char>) -> Option<Seq<u8>>;

/// What the standard base64 engine encodes `bytes` to.
pub uninterp spec fn base64_encode_spec(bytes: Seq<u8>) -> Seq<char>;

/// `base64::engine::general_purpose::STANDARD.decode`: the decoded bytes, or
/// `None` when the engine refuses the text. Every four accepted characters
/// give at most three bytes, so the bytes are never more than the characters.
#[verifier::external_body]
fn base64_decode(text: &str) -> (r: Option<Vec<u8>>)
    ensures
        match r {
            Some(v) => base64_decode_spec(text@) == Some(v@) && v@.len() <= text@.len(),
            None => base64_decode_spec(text@) is None,
        },
{
    base64::Engine::decode(&base64::engine::general_purpose::STANDARD, text).ok()
}

/// `base64::engine::general_purpose::STANDARD.encode`: the padded standard
/// encoding, four characters for every started group of three bytes, which
/// the same engine decodes back to the same bytes. The input is bounded so
/// that the output buffer's size is always representable.
#[verifier::external_body]
fn base64_encode(bytes: &[u8]) -> (r: String)
    requires
        bytes@.len() <= MAX_BACKUP_BYTES,
    ensures
        r@ == base64_encode_spec(bytes@),
        r@.len() == 4 * ((bytes@.len() + 2) / 3),
        base64_decode_spec(r@) == Some(bytes@),
{
    base64::Engine::encode(&base64::engine::general_purpose::STANDARD, bytes)
}

/// Only the one canonical encoding of some bytes is accepted.
pub open spec fn canonical_spec(text: Seq<char>) -> Option<Seq<u8>> {
    match base64_decode_spec(text) {
        Some(b) => if base64_encode_spec(b) == text {
            Some(b)
        } else {
            None
        },
        None => None,
    }
}

/// The bytes `text` canonically encodes. A text longer than a whole package
/// may hold is refused as too large.
pub fn decode_canonical(text: &str) -> (r: Result<Vec<u8>, Fault>)
    ensures
        text@.len() > MAX_BACKUP_BYTES ==> r == Err::<Vec<u8>, Fault>(Fault::BackupTooLarge),
        text@.len() <= MAX_BACKUP_BYTES ==> match canonical_spec(text@) {
            Some(b) => r matches Ok(v) && v@ == b,
            None => r == Err::<Vec<u8>, Fault>(Fault::BackupInvalid),
        },
{
    if text.unicode_len() > MAX_BACKUP_BYTES {
        return Err(Fault::BackupTooLarge);
    }
    let bytes = match base64_decode(text) {
        Some(b) => b,
        None => {
            return Err(Fault::BackupInvalid);
        },
    };
    let again = base64_encode(bytes.as_slice());
    if again != String::from_str(text) {
        return Err(Fault::BackupInvalid);
    }
    Ok(bytes)
}

pub open spec fn opt_canonical(text: Option<String>) -> Option<Option<Seq<u8>>> {
    match text {
        None => Some(None),
        Some(t) => match canonical_spec(t@) {
            Some(b) => Some(Some(b)),
            None => None,
        },
    }
}

/// Every encoded file fits in a package: a longer field means that the
/// package it came from was larger than the limit.
pub open spec fn fields_fit(files: BackupFiles) -> bool {
    &&& (files.desktop_json_base64 matches Some(t) ==> t@.len() <= MAX_BACKUP_BYTES)
    &&& files.characters_json_base64@.len() <= MAX_BACKUP_BYTES
    &&& files.reminders_json_base64@.len() <= MAX_BACKUP_BYTES
}

/// The files a well-formed document carries, before content validation.
pub open spec fn document_files(doc: BackupDocument) -> Result<ImportFilesView, Fault> {
    if !fields_fit(doc.files) {
        Err(Fault::BackupTooLarge)
    } else if doc.format@ != format_name() {
        Err(Fault::BackupInvalid)
    } else if doc.schema_version != VERSION {
        Err(Fault::BackupUnsupportedVersion)
    } else if !time_ok(doc.created_at_utc_ms) {
        Err(Fault::BackupInvalidTime)
    } else if !digest_text_ok(doc.sha256@) {
        Err(Fault::BackupInvalid)
    } else {
        match (
            opt_canonical(doc.files.desktop_json_base64),
            canonical_spec(doc.files.characters_json_base64@),
            canonical_spec(doc.files.reminders_json_base64@),
        ) {
            (Some(d), Some(c), Some(r)) => {
                let f = ImportFilesView { desktop: d, characters: c, reminders: r };
                if f.total() > MAX_SET_BYTES {
                    Err(Fault::DataSetTooLarge)
                } else {
                    Ok(f)
                }
            },
            _ => Err(Fault::BackupInvalid),
        }
    }
}

/// What decoding `doc` returns: the framing error, or the carried files
/// once the content check accepted them and their digest matches; otherwise
/// the content or checksum failure.
pub open spec fn decode_post<F: FnOnce(&ImportFiles) -> bool>(
    doc: BackupDocument,
    content_valid: F,
    r: Result<ImportFiles, Fault>,
) -> bool {
    match document_files(doc) {
        Err(x) => r == Err::<ImportFiles, Fault>(x),
        Ok(f) => match r {
            Ok(files) => files@ == f && call_ensures(content_valid, (&files,), true) && hex_spec(
                sha256_spec(digest_input_spec(f)),
            ) == doc.sha256@,
            Err(x) => (x == Fault::DataSetInvalid && exists|files: ImportFiles|
                files@ == f && call_ensures(content_valid, (&files,), false)) || (x
                == Fault::BackupChecksumMismatch && (exists|files: ImportFiles|
                files@ == f && call_ensures(content_valid, (&files,), true)) && hex_spec(
                sha256_spec(digest_input_spec(f)),
            ) != doc.sha256@),
        },
    }
}

/// `doc` carries exactly the files `f` under their own digest.
pub open spec fn encoded_from(doc: BackupDocument, f: ImportFilesView) -> bool {
    document_files(doc) == Ok::<ImportFilesView, Fault>(f) && doc.sha256@ == hex_spec(
        sha256_spec(digest_input_spec(f)),
    )
}

/// Decode a parsed document into a frozen candidate. `content_valid` is the
/// caller's check that each store file is a valid, importable store.
pub fn decode_document<F: FnOnce(&ImportFiles) -> bool>(doc: &BackupDocument, content_valid: F) -> (r:
    Result<ImportFiles, Fault>)
    requires
        forall|f: &ImportFiles| call_requires(content_valid, (f,)),
    ensures
        decode_post(*doc, content_valid, r),
{
    let desktop_fits = match &doc.files.desktop_json_base64 {
        Some(t) => t.as_str().unicode_len() <= MAX_BACKUP_BYTES,
        None => true,
    };
    if !desktop_fits || doc.files.characters_json_base64.as_str().unicode_len() > MAX_BACKUP_BYTES
        || doc.files.reminders_json_base64.as_str().unicode_len() > MAX_BACKUP_BYTES {
        return Err(Fault::BackupTooLarge);
    }
    if doc.format != String::from_str("march7-local-backup") {
        return Err(Fault::BackupInvalid);
    }
    if doc.schema_version != VERSION {
        return Err(Fault::BackupUnsupportedVersion);
    }
    match validate_time(doc.created_at_utc_ms) {
        Ok(()) => {},
        Err(e) => {
            return Err(e);
        },
    }
    let digest = doc.sha256.as_str().as_bytes();
    if digest.len() != 64 || !all_lower_hex(digest) {
        return Err(Fault::BackupInvalid);
    }
    let desktop = match &doc.files.desktop_json_base64 {
        Some(t) => match decode_canonical(t.as_str()) {
            Ok(b) => Some(b),
            Err(e) => {
                return Err(e);
            },
        },
        None => None,
    };
    let characters = match decode_canonical(doc.files.characters_json_base64.as_str()) {
        Ok(b) => b,
        Err(e) => {
            return Err(e);
        },
    };
    let reminders = match decode_canonical(doc.files.reminders_json_base64.as_str()) {
        Ok(b) => b,
        Err(e) => {
            return Err(e);
        },
    };
    let files = ImportFiles { desktop, characters, reminders };
    match files.validate_size() {
        Ok(()) => {},
        Err(e) => {
            return Err(e);
        },
    }
    if !content_valid(&files) {
        return Err(Fault::DataSetInvalid);
    }
    if files.digest() != doc.sha256 {
        return Err(Fault::BackupChecksumMismatch);
    }
    Ok(files)
}

/// The encoding of at most a whole set fits in a package.
proof fn lemma_encoded_fits(n: int)
    requires
        0 <= n <= MAX_SET_BYTES,
    ensures
        4 * ((n + 2) / 3) <= MAX_BACKUP_BYTES,
{
    assert(4 * ((n + 2) / 3) <= 4 * ((MAX_SET_BYTES + 2) / 3)) by (nonlinear_arith)
        requires
            0 <= n <= MAX_SET_BYTES,
    ;
}

fn encode_opt(bytes: &Option<Vec<u8>>) -> (r: Option<String>)
    requires
        bytes matches Some(b) ==> b@.len() <= MAX_SET_BYTES,
    ensures
        match bytes {
            Some(b) => r matches Some(t) && t@ == base64_encode_spec(b@) && base64_decode_spec(t@)
                == Some(b@) && t@.len() <= MAX_BACKUP_BYTES,
            None => r is None,
        },
{
    match bytes {
        Some(b) => {
            proof {
                lemma_encoded_fits(b@.len() as int);
            }
            Some(base64_encode(b.as_slice()))
        },
        None => None,
    }
}

/// Encode a complete, valid candidate created at `created_at_utc_ms`.
pub fn encode_document<F: FnOnce(&ImportFiles) -> bool>(
    files: &ImportFiles,
    created_at_utc_ms: i64,
    content_valid: F,
) -> (r: Result<BackupDocument, Fault>)
    requires
        call_requires(content_valid, (files,)),
    ensures
        !time_ok(created_at_utc_ms) ==> r == Err::<BackupDocument, Fault>(Fault::BackupInvalidTime),
        time_ok(created_at_utc_ms) && files@.total() > MAX_SET_BYTES ==> r == Err::<
            BackupDocument,
            Fault,
        >(Fault::DataSetTooLarge),
        r matches Err(x) ==> x == Fault::BackupInvalidTime || x == Fault::DataSetTooLarge || (x
            == Fault::DataSetInvalid && time_ok(created_at_utc_ms) && files@.total()
            <= MAX_SET_BYTES && call_ensures(content_valid, (files,), false)),
        r matches Ok(doc) ==> {
            &&& time_ok(created_at_utc_ms)
            &&& files@.total() <= MAX_SET_BYTES
            &&& call_ensures(content_valid, (files,), true)
            &&& doc.format@ == format_name()
            &&& doc.schema_version == VERSION
            &&& doc.created_at_utc_ms == created_at_utc_ms
            &&& match files.desktop {
                Some(b) => doc.files.desktop_json_base64 matches Some(t) && t@
                    == base64_encode_spec(b@),
                None => doc.files.desktop_json_base64 is None,
            }
            &&& doc.files.characters_json_base64@ == base64_encode_spec(files.characters@)
            &&& doc.files.reminders_json_base64@ == base64_encode_spec(files.reminders@)
            &&& doc.sha256@ == hex_spec(sha256_spec(digest_input_spec(files@)))
            &&& encoded_from(doc, files@)
        },
{
    match validate_time(created_at_utc_ms) {
        Ok(()) => {},
        Err(e) => {
            return Err(e);
        },
    }
    match files.validate_size() {
        Ok(()) => {},
        Err(e) => {
            return Err(e);
        },
    }
    if !content_valid(files) {
        return Err(Fault::DataSetInvalid);
    }
    proof {
        reveal_strlit("march7-local-backup");
    }
    proof {
        lemma_encoded_fits(files.characters@.len() as int);
        lemma_encoded_fits(files.reminders@.len() as int);
    }
    let desktop_json_base64 = encode_opt(&files.desktop);
    let characters_json_base64 = base64_encode(files.characters.as_slice());
    let reminders_json_base64 = base64_encode(files.reminders.as_slice());
    let sha256 = files.digest();
    let doc = BackupDocument {
        format: String::from_str("march7-local-backup"),
        schema_version: VERSION,
        created_at_utc_ms,
        files: BackupFiles { desktop_json_base64, characters_json_base64, reminders_json_base64 },
        sha256,
    };
    proof {
        assert(canonical_spec(doc.files.characters_json_base64@) == Some(files.characters@));
        assert(canonical_spec(doc.files.reminders_json_base64@) == Some(files.reminders@));
        assert(opt_canonical(doc.files.desktop_json_base64) == Some(files@.desktop));
        assert(doc.format@ == format_name());
        assert(document_files(doc) == Ok::<ImportFilesView, Fault>(files@));
    }
    Ok(doc)
}

/// A document that carries a set under its own digest decodes back to
/// exactly that set: the only possible refusal is the caller's content check.
pub proof fn lemma_round_trip<F: FnOnce(&ImportFiles) -> bool>(
    doc: BackupDocument,
    files: ImportFilesView,
    content_valid: F,
    r: Result<ImportFiles, Fault>,
)
    requires
        encoded_from(doc, files),
        decode_post(doc, content_valid, r),
    ensures
        r matches Ok(out) ==> out@ == files,
        r matches Err(x) ==> x == Fault::DataSetInvalid,
{
}

/// A document encoded from a set that the content check accepted decodes
/// back to exactly that set, whenever the check answers the same way for the
/// same bytes.
pub proof fn lemma_round_trip_accepted<F: FnOnce(&ImportFiles) -> bool>(
    doc: BackupDocument,
    files: ImportFilesView,
    content_valid: F,
    r: Result<ImportFiles, Fault>,
)
    requires
        encoded_from(doc, files),
        decode_post(doc, content_valid, r),
        exists|x: ImportFiles| x@ == files && #[trigger] call_ensures(content_valid, (&x,), true),
        forall|x: ImportFiles, y: ImportFiles, a: bool, b: bool|
            x@ == y@ && #[trigger] call_ensures(content_valid, (&x,), a) && #[trigger] call_ensures(
                content_valid,
                (&y,),
                b,
            ) ==> a == b,
    ensures
        r matches Ok(out) && out@ == files,
{
    let w = choose|x: ImportFiles| x@ == files && #[trigger] call_ensures(content_valid, (&x,), true);
    if let Err(x) = r {
        if x == Fault::DataSetInvalid {
            let y = choose|y: ImportFiles| y@ == files && #[trigger] call_ensures(
                content_valid,
                (&y,),
                false,
            );
            assert(call_ensures(content_valid, (&w,), true));
            assert(call_ensures(content_valid, (&y,), false));
        }
    }
}

#[derive(Clone, Copy, Debug, PartialEq, Eq)]
pub struct ReminderItemPreview {
    pub id: &'static str,
    pub enabled: bool,
    pub interval_minutes: u16,
}

#[derive(Clone, Copy, Debug, PartialEq, Eq)]
pub enum ActiveHoursPreview {
    AllDay,
    Daily { start: u16, end: u16 },
}

#[derive(Clone, Copy, Debug, PartialEq, Eq)]
pub struct ReminderPreview {
    pub items: [ReminderItemPreview; 3],
    pub active_hours: ActiveHoursPreview,
    pub snooze_minutes: u16,
    pub pending_count: u8,
    pub paused: bool,
    pub quiet_until_utc_ms: Option<i64>,
    pub snooze_pending: bool,
}

#[derive(Clone, Debug, PartialEq, Eq)]
pub struct Preview {
    pub created_at_utc_ms: i64,
    pub selected_character_id: String,
    pub has_desktop_placement: bool,
    pub reminders: ReminderPreview,
}

pub struct DecodedBackup {
    pub files: ImportFiles,
    pub preview: Preview,
}

pub open spec fn id_name(id: Id) -> Seq<char> {
    match id {
        Id::Water => "water"@,
        Id::Move => "move"@,
        Id::Eyes => "eyes"@,
    }
}

fn id_text(id: Id) -> (s: &'static str)
    ensures
        s@ == id_name(id),
{
    match id {
        Id::Water => "water",
        Id::Move => "move",
        Id::Eyes => "eyes",
    }
}

pub open spec fn count_pending(d: crate::reminders::model::DataView) -> int {
    (if d.progress[0].pending {
        1int
    } else {
        0
    }) + (if d.progress[1].pending {
        1int
    } else {
        0
    }) + (if d.progress[2].pending {
        1int
    } else {
        0
    })
}

/// The kinds whose reminder is pending.
pub open spec fn pending_kinds(d: crate::reminders::model::DataView) -> Set<int> {
    Set::new(|i: int| 0 <= i < d.progress.len() && d.progress[i].pending)
}

/// The pending count is the number of reminder kinds that are pending, so it
/// is zero exactly when none is, and one when a single kind is, whichever
/// kind that is.
pub proof fn lemma_pending_count_counts_kinds(data: ReminderData)
    ensures
        count_pending(data@) == pending_kinds(data@).len(),
        count_pending(data@) == 0 <==> forall|i: int|
            0 <= i < 3 ==> !(#[trigger] data@.progress[i]).pending,
        forall|k: int|
            0 <= k < 3 && data@.progress[k].pending && (forall|i: int|
                0 <= i < 3 && i != k ==> !(#[trigger] data@.progress[i]).pending) ==> count_pending(
                data@,
            ) == 1,
{
    let d = data@;
    let s = pending_kinds(d);
    assert(d.progress.len() == 3);
    let a = d.progress[0].pending;
    let b = d.progress[1].pending;
    let c = d.progress[2].pending;
    let e = Set::<int>::empty();
    let s0 = if a {
        e.insert(0)
    } else {
        e
    };
    let s1 = if b {
        s0.insert(1)
    } else {
        s0
    };
    let s2 = if c {
        s1.insert(2)
    } else {
        s1
    };
    assert(s =~= s2);
    assert(s0.len() == if a {
        1int
    } else {
        0
    });
    assert(!s0.contains(1));
    assert(s1.len() == s0.len() + if b {
        1int
    } else {
        0
    });
    assert(!s1.contains(2));
    assert(s2.len() == s1.len() + if c {
        1int
    } else {
        0
    });
}

fn item_preview(i: crate::reminders::model::ItemSettings) -> (p: ReminderItemPreview)
    ensures
        p.id@ == id_name(i.id),
        p.enabled == i.enabled,
        p.interval_minutes == i.interval_minutes,
{
    ReminderItemPreview { id: id_text(i.id), enabled: i.enabled, interval_minutes: i.interval_minutes }
}

/// The content-free reminder summary shown before an import.
pub fn reminder_preview(data: &ReminderData) -> (p: ReminderPreview)
    ensures
        forall|i: int|
            0 <= i < 3 ==> (#[trigger] p.items@[i]).id@ == id_name(data.settings.items@[i].id)
                && p.items@[i].enabled == data.settings.items@[i].enabled
                && p.items@[i].interval_minutes == data.settings.items@[i].interval_minutes,
        p.active_hours == match data.settings.active_hours {
            ActiveHours::AllDay {  } => ActiveHoursPreview::AllDay,
            ActiveHours::Daily { start, end } => ActiveHoursPreview::Daily { start, end },
        },
        p.snooze_minutes == data.settings.snooze_minutes,
        p.pending_count == count_pending(data@),
        p.pending_count == pending_kinds(data@).len(),
        p.paused == data.paused,
        p.quiet_until_utc_ms == match data.quiet {
            Some(q) => Some(q.until),
            None => None::<i64>,
        },
        p.snooze_pending == data.snooze_pending,
{
    proof {
        lemma_pending_count_counts_kinds(*data);
    }
    let mut count: u8 = 0;
    if data.progress[0].pending {
        count = count + 1;
    }
    if data.progress[1].pending {
        count = count + 1;
    }
    if data.progress[2].pending {
        count = count + 1;
    }
    let items = [
        item_preview(data.settings.items[0]),
        item_preview(data.settings.items[1]),
        item_preview(data.settings.items[2]),
    ];
    ReminderPreview {
        items,
        active_hours: match data.settings.active_hours {
            ActiveHours::AllDay {  } => ActiveHoursPreview::AllDay,
            ActiveHours::Daily { start, end } => ActiveHoursPreview::Daily { start, end },
        },
        snooze_minutes: data.settings.snooze_minutes,
        pending_count: count,
        paused: data.paused,
        quiet_until_utc_ms: match data.quiet {
            Some(q) => Some(q.until),
            None => None,
        },
        snooze_pending: data.snooze_pending,
    }
}

} // verus!
