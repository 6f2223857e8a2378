//! The data-set protocol's records: identifiers, the active pointer, the
//! pending import, and the framed digest of a complete set.
use vstd::prelude::*;
use vstd::string::StringSliceAdditionalSpecFns;

verus! {

pub const MAX_SET_BYTES: usize = 1_048_576;
pub const MAX_RECORD_BYTES: usize = 4096;

/// Error codes of the data directory and the backup format.
#[derive(Clone, Copy, Debug, PartialEq, Eq, Structural)]
pub enum Fault {
    DataSetTooLarge,
    DataSetInvalid,
    DataSetChanged,
    DataSetsUnavailable,
    DataSetCreateFailed,
    DataSetWriteFailed,
    DirectoryUnavailable,
    PendingImportExists,
    PendingImportInvalid,
    PendingImportConflict,
    PendingImportChanged,
    PendingImportWriteFailed,
    ActivePointerChanged,
    ActivePointerInvalid,
    ActivePointerMissing,
    ActivePointerWriteFailed,
    ActivationMarkerChanged,
    ActivationMarkerInvalid,
    ActivationMarkerMissing,
    ActivationMarkerWriteFailed,
    RandomUnavailable,
    BackupInvalid,
    BackupInvalidTime,
    BackupUnsupportedVersion,
    BackupChecksumMismatch,
    BackupTooLarge,
    BackupStale,
    BackupBusy,
    BackupUnavailable,
    BackupReadFailed,
}

impl Fault {
    pub open spec fn text(self) -> Seq<char> {
        match self {
            Fault::DataSetTooLarge => "dataSetTooLarge"@,
            Fault::DataSetInvalid => "dataSetInvalid"@,
            Fault::DataSetChanged => "dataSetChanged"@,
            Fault::DataSetsUnavailable => "dataSetsUnavailable"@,
            Fault::DataSetCreateFailed => "dataSetCreateFailed"@,
            Fault::DataSetWriteFailed => "dataSetWriteFailed"@,
            Fault::DirectoryUnavailable => "directoryUnavailable"@,
            Fault::PendingImportExists => "pendingImportExists"@,
            Fault::PendingImportInvalid => "pendingImportInvalid"@,
            Fault::PendingImportConflict => "pendingImportConflict"@,
            Fault::PendingImportChanged => "pendingImportChanged"@,
            Fault::PendingImportWriteFailed => "pendingImportWriteFailed"@,
            Fault::ActivePointerChanged => "activePointerChanged"@,
            Fault::ActivePointerInvalid => "activePointerInvalid"@,
            Fault::ActivePointerMissing => "activePointerMissing"@,
            Fault::ActivePointerWriteFailed => "activePointerWriteFailed"@,
            Fault::ActivationMarkerChanged => "activationMarkerChanged"@,
            Fault::ActivationMarkerInvalid => "activationMarkerInvalid"@,
            Fault::ActivationMarkerMissing => "activationMarkerMissing"@,
            Fault::ActivationMarkerWriteFailed => "activationMarkerWriteFailed"@,
            Fault::RandomUnavailable => "randomUnavailable"@,
            Fault::BackupInvalid => "backupInvalid"@,
            Fault::BackupInvalidTime => "backupInvalidTime"@,
            Fault::BackupUnsupportedVersion => "backupUnsupportedVersion"@,
            Fault::BackupChecksumMismatch => "backupChecksumMismatch"@,
            Fault::BackupTooLarge => "backupTooLarge"@,
            Fault::BackupStale => "backupStale"@,
            Fault::BackupBusy => "backupBusy"@,
            Fault::BackupUnavailable => "backupUnavailable"@,
            Fault::BackupReadFailed => "backupReadFailed"@,
        }
    }

    pub fn as_str(self) -> (s: &'static str)
        ensures
            s@ == self.text(),
    {
        match self {
            Fault::DataSetTooLarge => "dataSetTooLarge",
            Fault::DataSetInvalid => "dataSetInvalid",
            Fault::DataSetChanged => "dataSetChanged",
            Fault::DataSetsUnavailable => "dataSetsUnavailable",
            Fault::DataSetCreateFailed => "dataSetCreateFailed",
            Fault::DataSetWriteFailed => "dataSetWriteFailed",
            Fault::DirectoryUnavailable => "directoryUnavailable",
            Fault::PendingImportExists => "pendingImportExists",
            Fault::PendingImportInvalid => "pendingImportInvalid",
            Fault::PendingImportConflict => "pendingImportConflict",
            Fault::PendingImportChanged => "pendingImportChanged",
            Fault::PendingImportWriteFailed => "pendingImportWriteFailed",
            Fault::ActivePointerChanged => "activePointerChanged",
            Fault::ActivePointerInvalid => "activePointerInvalid",
            Fault::ActivePointerMissing => "activePointerMissing",
            Fault::ActivePointerWriteFailed => "activePointerWriteFailed",
            Fault::ActivationMarkerChanged => "activationMarkerChanged",
            Fault::ActivationMarkerInvalid => "activationMarkerInvalid",
            Fault::ActivationMarkerMissing => "activationMarkerMissing",
            Fault::ActivationMarkerWriteFailed => "activationMarkerWriteFailed",
            Fault::RandomUnavailable => "randomUnavailable",
            Fault::BackupInvalid => "backupInvalid",
            Fault::BackupInvalidTime => "backupInvalidTime",
            Fault::BackupUnsupportedVersion => "backupUnsupportedVersion",
            Fault::BackupChecksumMismatch => "backupChecksumMismatch",
            Fault::BackupTooLarge => "backupTooLarge",
            Fault::BackupStale => "backupStale",
            Fault::BackupBusy => "backupBusy",
            Fault::BackupUnavailable => "backupUnavailable",
            Fault::BackupReadFailed => "backupReadFailed",
        }
    }
}

#[derive(Clone, Copy, Debug, PartialEq, Eq, Structural)]
pub enum DataFile {
    Desktop,
    Characters,
    Reminders,
}

pub open spec fn file_name(f: DataFile) -> &'static str {
    match f {
        DataFile::Desktop => "desktop-state.json",
        DataFile::Characters => "character-preferences.json",
        DataFile::Reminders => "reminders.json",
    }
}

impl DataFile {
    pub fn name(self) -> (s: &'static str)
        ensures
            s == file_name(self),
    {
        match self {
            DataFile::Desktop => "desktop-state.json",
            DataFile::Characters => "character-preferences.json",
            DataFile::Reminders => "reminders.json",
        }
    }
}

/// `{"version":1,"placement":null}`: the desktop file of a set without a placement.
pub open spec fn absent_desktop() -> Seq<u8> {
    seq![
        123u8, 34, 118, 101, 114, 115, 105, 111, 110, 34, 58, 49, 44, 34, 112, 108, 97, 99, 101,
        109, 101, 110, 116, 34, 58, 110, 117, 108, 108, 125,
    ]
}

fn absent_desktop_bytes() -> (v: Vec<u8>)
    ensures
        v@ == absent_desktop(),
{
    let v: Vec<u8> = vec![
        123u8, 34, 118, 101, 114, 115, 105, 111, 110, 34, 58, 49, 44, 34, 112, 108, 97, 99, 101,
        109, 101, 110, 116, 34, 58, 110, 117, 108, 108, 125,
    ];
    assert(v@ =~= absent_desktop());
    v
}

/// A complete candidate set; it never carries a path or a file name.
pub struct ImportFiles {
    pub desktop: Option<Vec<u8>>,
    pub characters: Vec<u8>,
    pub reminders: Vec<u8>,
}

pub struct ImportFilesView {
    pub desktop: Option<Seq<u8>>,
    pub characters: Seq<u8>,
    pub reminders: Seq<u8>,
}

impl View for ImportFiles {
    type V = ImportFilesView;

    open spec fn view(&self) -> ImportFilesView {
        ImportFilesView {
            desktop: match self.desktop {
                Some(d) => Some(d@),
                None => None,
            },
            characters: self.characters@,
            reminders: self.reminders@,
        }
    }
}

impl ImportFilesView {
    pub open spec fn desktop_bytes(self) -> Seq<u8> {
        match self.desktop {
            Some(d) => d,
            None => absent_desktop(),
        }
    }

    pub open spec fn total(self) -> int {
        (self.desktop_bytes().len() + self.characters.len() + self.reminders.len()) as int
    }
}

/// Eight little-endian bytes of `n`.
pub open spec fn le64(n: u64) -> Seq<u8> {
    Seq::new(8, |i: int| ((n >> ((8 * i) as u64)) & 0xffu64) as u8)
}

/// One framed file: its name, its length, its bytes.
pub open spec fn frame(name: Seq<u8>, bytes: Seq<u8>) -> Seq<u8> {
    name + le64(bytes.len() as u64) + bytes
}

pub open spec fn digest_input_spec(f: ImportFilesView) -> Seq<u8> {
    frame(file_name(DataFile::Desktop).spec_bytes(), f.desktop_bytes()) + frame(
        file_name(DataFile::Characters).spec_bytes(),
        f.characters,
    ) + frame(file_name(DataFile::Reminders).spec_bytes(), f.reminders)
}

/// The SHA-256 digest of a byte sequence.
pub uninterp spec fn sha256_spec(data: Seq<u8>) -> Seq<u8>;

/// `sha2::Sha256::digest`: the 32-byte SHA-256 digest of `data`.
#[verifier::external_body]
fn sha256(data: &[u8]) -> (r: Vec<u8>)
    ensures
        r@ == sha256_spec(data@),
        r@.len() == 32,
{
    <sha2::Sha256 as sha2::Digest>::digest(data).to_vec()
}

pub open spec fn hex_char(n: int) -> char {
    if n < 10 {
        ((48 + n) as u8) as char
    } else {
        ((87 + n) as u8) as char
    }
}

/// Lower-case hexadecimal text of `bytes`, two digits per byte.
pub open spec fn hex_spec(bytes: Seq<u8>) -> Seq<char>
    decreases bytes.len(),
{
    if bytes.len() == 0 {
        seq![]
    } else {
        hex_spec(bytes.drop_last()) + seq![
            hex_char((bytes.last() / 16) as int),
            hex_char((bytes.last() % 16) as int),
        ]
    }
}

fn digit(n: u8) -> (s: &'static str)
    requires
        n < 16,
    ensures
        s@ == seq![hex_char(n as int)],
{
    proof {
        reveal_strlit("0");
        reveal_strlit("1");
        reveal_strlit("2");
        reveal_strlit("3");
        reveal_strlit("4");
        reveal_strlit("5");
        reveal_strlit("6");
        reveal_strlit("7");
        reveal_strlit("8");
        reveal_strlit("9");
        reveal_strlit("a");
        reveal_strlit("b");
        reveal_strlit("c");
        reveal_strlit("d");
        reveal_strlit("e");
        reveal_strlit("f");
    }
    let s = if n == 0 {
        "0"
    } else if n == 1 {
        "1"
    } else if n == 2 {
        "2"
    } else if n == 3 {
        "3"
    } else if n == 4 {
        "4"
    } else if n == 5 {
        "5"
    } else if n == 6 {
        "6"
    } else if n == 7 {
        "7"
    } else if n == 8 {
        "8"
    } else if n == 9 {
        "9"
    } else if n == 10 {
        "a"
    } else if n == 11 {
        "b"
    } else if n == 12 {
        "c"
    } else if n == 13 {
        "d"
    } else if n == 14 {
        "e"
    } else {
        "f"
    };
    assert(s@ =~= seq![hex_char(n as int)]);
    s
}

pub fn hex(bytes: &[u8]) -> (s: String)
    ensures
        s@ == hex_spec(bytes@),
{
    let mut text = String::from_str("");
    proof {
        reveal_strlit("");
    }
    let mut i: usize = 0;
    while i < bytes.len()
        invariant
            i <= bytes@.len(),
            text@ == hex_spec(bytes@.take(i as int)),
        decreases bytes.len() - i,
    {
        let b = bytes[i];
        assert(bytes@.take(i + 1).drop_last() =~= bytes@.take(i as int));
        text.append(digit(b / 16));
        text.append(digit(b % 16));
        assert(text@ =~= hex_spec(bytes@.take(i + 1)));
        i += 1;
    }
    assert(bytes@.take(bytes@.len() as int) =~= bytes@);
    text
}

/// A lower-case hexadecimal digit character.
pub open spec fn lower_hex_char(c: char) -> bool {
    ('0' <= c && c <= '9') || ('a' <= c && c <= 'f')
}

/// Text of 64 lower-case hexadecimal digits, checked on its UTF-8 bytes.
pub open spec fn digest_text_ok(t: Seq<char>) -> bool {
    vstd::utf8::encode_utf8(t).len() == 64 && forall|i: int|
        0 <= i < 64 ==> lower_hex_byte(#[trigger] vstd::utf8::encode_utf8(t)[i])
}

proof fn lemma_hex_chars(bytes: Seq<u8>)
    ensures
        hex_spec(bytes).len() == 2 * bytes.len(),
        forall|i: int| 0 <= i < hex_spec(bytes).len() ==> lower_hex_char(#[trigger] hex_spec(bytes)[i]),
    decreases bytes.len(),
{
    if bytes.len() > 0 {
        lemma_hex_chars(bytes.drop_last());
        let b = bytes.last();
        let hi = (b / 16) as int;
        let lo = (b % 16) as int;
        assert(lower_hex_char(hex_char(hi)));
        assert(lower_hex_char(hex_char(lo)));
        let h = hex_spec(bytes);
        let prev = hex_spec(bytes.drop_last());
        assert forall|i: int| 0 <= i < h.len() implies lower_hex_char(#[trigger] h[i]) by {
            if i < prev.len() {
                assert(h[i] == prev[i]);
            }
        }
    }
}

/// The hexadecimal text of `bytes` is twice as long, in lower-case digits,
/// and its UTF-8 bytes are those digits one for one.
proof fn lemma_hex_text(bytes: Seq<u8>)
    ensures
        vstd::utf8::encode_utf8(hex_spec(bytes)).len() == 2 * bytes.len(),
        forall|i: int|
            0 <= i < 2 * bytes.len() ==> lower_hex_byte(
                #[trigger] vstd::utf8::encode_utf8(hex_spec(bytes))[i],
            ),
{
    let t = hex_spec(bytes);
    lemma_hex_chars(bytes);
    assert(vstd::utf8::is_ascii_chars(t));
    vstd::utf8::is_ascii_chars_encode_utf8(t);
    assert forall|i: int| 0 <= i < 2 * bytes.len() implies lower_hex_byte(
        #[trigger] vstd::utf8::encode_utf8(t)[i],
    ) by {
        assert(lower_hex_char(t[i]));
        assert(t[i] as u8 == vstd::utf8::encode_utf8(t)[i]);
    }
}

/// The hexadecimal text of a 32-byte digest is 64 lower-case digits.
proof fn lemma_digest_text(bytes: Seq<u8>)
    requires
        bytes.len() == 32,
    ensures
        digest_text_ok(hex_spec(bytes)),
{
    lemma_hex_text(bytes);
}

pub open spec fn lower_hex_byte(b: u8) -> bool {
    (48 <= b <= 57) || (97 <= b <= 102)
}

pub open spec fn hex_byte(b: u8) -> bool {
    lower_hex_byte(b) || (65 <= b <= 70)
}

/// A 32-digit lower-case hexadecimal identifier.
pub open spec fn valid_id_spec(bytes: Seq<u8>) -> bool {
    bytes.len() == 32 && forall|i: int| 0 <= i < 32 ==> lower_hex_byte(#[trigger] bytes[i])
}

/// 64 hexadecimal digits, either case.
pub open spec fn valid_digest_spec(bytes: Seq<u8>) -> bool {
    bytes.len() == 64 && forall|i: int| 0 <= i < 64 ==> hex_byte(#[trigger] bytes[i])
}

pub fn all_lower_hex(bytes: &[u8]) -> (r: bool)
    ensures
        r == forall|i: int| 0 <= i < bytes@.len() ==> lower_hex_byte(#[trigger] bytes@[i]),
{
    let mut i: usize = 0;
    while i < bytes.len()
        invariant
            i <= bytes@.len(),
            forall|j: int| 0 <= j < i ==> lower_hex_byte(#[trigger] bytes@[j]),
        decreases bytes.len() - i,
    {
        let b = bytes[i];
        if !((48 <= b && b <= 57) || (97 <= b && b <= 102)) {
            assert(!lower_hex_byte(bytes@[i as int]));
            return false;
        }
        i += 1;
    }
    true
}

fn all_hex(bytes: &[u8]) -> (r: bool)
    ensures
        r == forall|i: int| 0 <= i < bytes@.len() ==> hex_byte(#[trigger] bytes@[i]),
{
    let mut i: usize = 0;
    while i < bytes.len()
        invariant
            i <= bytes@.len(),
            forall|j: int| 0 <= j < i ==> hex_byte(#[trigger] bytes@[j]),
        decreases bytes.len() - i,
    {
        let b = bytes[i];
        if !((48 <= b && b <= 57) || (97 <= b && b <= 102) || (65 <= b && b <= 70)) {
            assert(!hex_byte(bytes@[i as int]));
            return false;
        }
        i += 1;
    }
    true
}

pub fn valid_id(id: &str) -> (r: bool)
    ensures
        r == valid_id_spec(id.spec_bytes()),
{
    let bytes = id.as_bytes();
    bytes.len() == 32 && all_lower_hex(bytes)
}

#[derive(Clone, Debug, PartialEq, Eq)]
pub struct Pointer {
    pub version: u8,
    pub set_id: String,
    pub transaction_id: String,
}

/// The pending import record.
#[derive(Clone, Debug, PartialEq, Eq)]
pub struct Pending {
    pub version: u8,
    pub set_id: String,
    pub transaction_id: String,
    pub base_set_id: Option<String>,
    pub base_transaction_id: Option<String>,
    pub digest: String,
}

pub open spec fn id_ok(s: String) -> bool {
    valid_id_spec(vstd::utf8::encode_utf8(s@))
}

pub open spec fn opt_id_ok(s: Option<String>) -> bool {
    match s {
        Some(s) => id_ok(s),
        None => true,
    }
}

pub open spec fn pointer_valid(p: Pointer) -> bool {
    p.version == 1 && id_ok(p.set_id) && id_ok(p.transaction_id)
}

pub open spec fn pending_valid(p: Pending) -> bool {
    &&& p.version == 1
    &&& id_ok(p.set_id)
    &&& id_ok(p.transaction_id)
    &&& opt_id_ok(p.base_set_id)
    &&& opt_id_ok(p.base_transaction_id)
    &&& (p.base_set_id is Some) == (p.base_transaction_id is Some)
    &&& valid_digest_spec(vstd::utf8::encode_utf8(p.digest@))
}

pub open spec fn same_pointer_spec(a: Pointer, b: Pointer) -> bool {
    a.version == b.version && a.set_id@ == b.set_id@ && a.transaction_id@ == b.transaction_id@
}

pub open spec fn matches_base_spec(p: Pending, active: Option<Pointer>) -> bool {
    match active {
        Some(a) => (p.base_set_id matches Some(s) && s@ == a.set_id@) && (
        p.base_transaction_id matches Some(t) && t@ == a.transaction_id@),
        None => p.base_set_id is None && p.base_transaction_id is None,
    }
}

fn copy_string(s: &String) -> (r: String)
    ensures
        r@ == s@,
{
    String::from_str(s.as_str())
}

fn opt_id_valid(s: &Option<String>) -> (r: bool)
    ensures
        r == opt_id_ok(*s),
{
    match s {
        Some(s) => valid_id(s.as_str()),
        None => true,
    }
}

fn opt_eq(a: &Option<String>, b: &String) -> (r: bool)
    ensures
        r == (a matches Some(s) && s@ == b@),
{
    match a {
        Some(s) => *s == *b,
        None => false,
    }
}

impl Pointer {
    pub fn valid(&self) -> (r: bool)
        ensures
            r == pointer_valid(*self),
    {
        self.version == 1 && valid_id(self.set_id.as_str()) && valid_id(
            self.transaction_id.as_str(),
        )
    }

    pub fn same(&self, other: &Pointer) -> (r: bool)
        ensures
            r == same_pointer_spec(*self, *other),
    {
        self.version == other.version && self.set_id == other.set_id && self.transaction_id
            == other.transaction_id
    }
}

impl Pending {
    pub fn valid(&self) -> (r: bool)
        ensures
            r == pending_valid(*self),
    {
        let digest = self.digest.as_str().as_bytes();
        self.version == 1 && valid_id(self.set_id.as_str()) && valid_id(
            self.transaction_id.as_str(),
        ) && opt_id_valid(&self.base_set_id) && opt_id_valid(&self.base_transaction_id)
            && self.base_set_id.is_some() == self.base_transaction_id.is_some() && digest.len()
            == 64 && all_hex(digest)
    }

    /// The pointer that committing this import installs.
    pub fn target(&self) -> (p: Pointer)
        ensures
            p.version == 1,
            p.set_id@ == self.set_id@,
            p.transaction_id@ == self.transaction_id@,
    {
        Pointer {
            version: 1,
            set_id: copy_string(&self.set_id),
            transaction_id: copy_string(&self.transaction_id),
        }
    }

    /// The import was prepared on top of exactly `active` (or on no pointer).
    pub fn matches_base(&self, active: Option<&Pointer>) -> (r: bool)
        ensures
            r == matches_base_spec(
                *self,
                match active {
                    Some(a) => Some(*a),
                    None => None,
                },
            ),
    {
        match active {
            Some(a) => opt_eq(&self.base_set_id, &a.set_id) && opt_eq(
                &self.base_transaction_id,
                &a.transaction_id,
            ),
            None => self.base_set_id.is_none() && self.base_transaction_id.is_none(),
        }
    }

    /// A record for a new set prepared on top of `selected`.
    pub fn prepared(
        set_id: String,
        transaction_id: String,
        selected: &Option<Pointer>,
        digest: String,
    ) -> (p: Pending)
        ensures
            p.version == 1,
            p.set_id == set_id,
            p.transaction_id == transaction_id,
            p.digest == digest,
            matches_base_spec(p, *selected),
    {
        let (base_set_id, base_transaction_id) = match selected {
            Some(s) => (Some(copy_string(&s.set_id)), Some(copy_string(&s.transaction_id))),
            None => (None, None),
        };
        Pending { version: 1, set_id, transaction_id, base_set_id, base_transaction_id, digest }
    }
}

pub(crate) fn push_all(out: &mut Vec<u8>, bytes: &[u8])
    ensures
        final(out)@ == old(out)@ + bytes@,
{
    let mut i: usize = 0;
    let ghost start = out@;
    while i < bytes.len()
        invariant
            i <= bytes@.len(),
            out@ == start + bytes@.take(i as int),
        decreases bytes.len() - i,
    {
        out.push(bytes[i]);
        assert(bytes@.take(i + 1) =~= bytes@.take(i as int).push(bytes@[i as int]));
        i += 1;
    }
    assert(bytes@.take(bytes@.len() as int) =~= bytes@);
}

fn push_frame(out: &mut Vec<u8>, file: DataFile, bytes: &[u8])
    ensures
        final(out)@ == old(out)@ + frame(file_name(file).spec_bytes(), bytes@),
{
    push_all(out, file.name().as_bytes());
    let n = bytes.len() as u64;
    let mut i: u64 = 0;
    let ghost start = out@;
    while i < 8
        invariant
            i <= 8,
            n == bytes@.len() as u64,
            out@ == start + le64(n).take(i as int),
        decreases 8 - i,
    {
        let b = ((n >> (8 * i)) & 0xff) as u8;
        out.push(b);
        assert(le64(n).take(i + 1) =~= le64(n).take(i as int).push(le64(n)[i as int]));
        i += 1;
    }
    assert(le64(n).take(8) =~= le64(n));
    push_all(out, bytes);
    assert(out@ =~= old(out)@ + frame(file_name(file).spec_bytes(), bytes@));
}

impl ImportFiles {
    pub fn desktop_bytes(&self) -> (v: Vec<u8>)
        ensures
            v@ == self@.desktop_bytes(),
    {
        match &self.desktop {
            Some(d) => {
                let mut v: Vec<u8> = Vec::new();
                push_all(&mut v, d.as_slice());
                v
            },
            None => absent_desktop_bytes(),
        }
    }

    /// The three files together stay within the set limit.
    pub fn validate_size(&self) -> (r: Result<(), Fault>)
        ensures
            r is Ok <==> self@.total() <= MAX_SET_BYTES,
            r matches Err(f) ==> f == Fault::DataSetTooLarge,
    {
        let desktop = match &self.desktop {
            Some(d) => d.len(),
            None => 30,
        };
        if desktop > MAX_SET_BYTES || self.characters.len() > MAX_SET_BYTES
            || self.reminders.len() > MAX_SET_BYTES {
            return Err(Fault::DataSetTooLarge);
        }
        if desktop + self.characters.len() + self.reminders.len() > MAX_SET_BYTES {
            return Err(Fault::DataSetTooLarge);
        }
        Ok(())
    }

    /// Each file's name, length and bytes, in the fixed order.
    pub fn digest_input(&self) -> (v: Vec<u8>)
        ensures
            v@ == digest_input_spec(self@),
    {
        let mut out: Vec<u8> = Vec::new();
        let desktop = self.desktop_bytes();
        push_frame(&mut out, DataFile::Desktop, desktop.as_slice());
        push_frame(&mut out, DataFile::Characters, self.characters.as_slice());
        push_frame(&mut out, DataFile::Reminders, self.reminders.as_slice());
        assert(out@ =~= digest_input_spec(self@));
        out
    }

    /// Lower-case hexadecimal SHA-256 of the framed set.
    pub fn digest(&self) -> (s: String)
        ensures
            s@ == hex_spec(sha256_spec(digest_input_spec(self@))),
            digest_text_ok(s@),
    {
        let input = self.digest_input();
        let d = sha256(input.as_slice());
        proof {
            lemma_digest_text(d@);
        }
        hex(d.as_slice())
    }

    pub fn duplicate(&self) -> (r: ImportFiles)
        ensures
            r@ == self@,
    {
        let desktop = match &self.desktop {
            Some(d) => {
                let mut v: Vec<u8> = Vec::new();
                push_all(&mut v, d.as_slice());
                Some(v)
            },
            None => None,
        };
        let mut characters: Vec<u8> = Vec::new();
        push_all(&mut characters, self.characters.as_slice());
        let mut reminders: Vec<u8> = Vec::new();
        push_all(&mut reminders, self.reminders.as_slice());
        ImportFiles { desktop, characters, reminders }
    }
}

pub open spec fn same_opt_pointer(a: Option<Pointer>, b: Option<Pointer>) -> bool {
    match (a, b) {
        (None, None) => true,
        (Some(x), Some(y)) => same_pointer_spec(x, y),
        _ => false,
    }
}

pub fn same_opt(a: &Option<Pointer>, b: &Option<Pointer>) -> (r: bool)
    ensures
        r == same_opt_pointer(*a, *b),
{
    match (a, b) {
        (None, None) => true,
        (Some(x), Some(y)) => x.same(y),
        _ => false,
    }
}

/// An active pointer is only trusted together with the activation marker.
pub fn check_active(activated: bool, active: &Option<Pointer>) -> (r: Result<(), Fault>)
    ensures
        r == if active is Some && !activated {
            Err::<(), Fault>(Fault::ActivationMarkerMissing)
        } else {
            Ok(())
        },
{
    if active.is_some() && !activated {
        return Err(Fault::ActivationMarkerMissing);
    }
    Ok(())
}

/// What startup does with a pending import record.
#[derive(Clone, Copy, Debug, PartialEq, Eq, Structural)]
pub enum Plan {
    /// Use the active pointer as it is.
    Keep,
    /// The previous launch already committed: remove the record, keep the pointer.
    ClearCommitted,
    /// Check the staged set, then (after writing the activation marker when
    /// it is missing) install the record's target.
    Apply { write_activation: bool },
    /// Protect every store with this diagnostic.
    Refuse(Fault),
}

pub open spec fn plan_spec(activated: bool, active: Option<Pointer>, pending: Option<Pending>) -> Plan {
    match pending {
        None => if activated && active is None {
            Plan::Refuse(Fault::ActivePointerMissing)
        } else {
            Plan::Keep
        },
        Some(p) => if !pending_valid(p) {
            Plan::Refuse(Fault::PendingImportInvalid)
        } else if active matches Some(a) && a.version == 1 && a.set_id@ == p.set_id@
            && a.transaction_id@ == p.transaction_id@ {
            Plan::ClearCommitted
        } else if !matches_base_spec(p, active) {
            Plan::Refuse(Fault::PendingImportConflict)
        } else {
            Plan::Apply { write_activation: !activated }
        },
    }
}

pub fn plan_pending(activated: bool, active: &Option<Pointer>, pending: &Option<Pending>) -> (r:
    Plan)
    ensures
        r == plan_spec(activated, *active, *pending),
{
    match pending {
        None => if activated && active.is_none() {
            Plan::Refuse(Fault::ActivePointerMissing)
        } else {
            Plan::Keep
        },
        Some(p) => {
            if !p.valid() {
                return Plan::Refuse(Fault::PendingImportInvalid);
            }
            let target = p.target();
            let committed = match active {
                Some(a) => a.same(&target),
                None => false,
            };
            if committed {
                Plan::ClearCommitted
            } else if !p.matches_base(active.as_ref()) {
                Plan::Refuse(Fault::PendingImportConflict)
            } else {
                Plan::Apply { write_activation: !activated }
            }
        },
    }
}

/// The import protocol across launches: a valid record prepared on top of
/// the pointer that is still active, for a set other than that pointer's, is
/// applied at the next start (after writing the activation marker when it is
/// missing); once its target is the active pointer, every later start only
/// clears the record and never applies it again.
pub proof fn lemma_prepared_import_applies_once(
    p: Pending,
    selected: Option<Pointer>,
    activated: bool,
    installed: Pointer,
)
    requires
        pending_valid(p),
        matches_base_spec(p, selected),
        selected matches Some(s) ==> !(s.set_id@ == p.set_id@ && s.transaction_id@
            == p.transaction_id@),
        installed.version == 1,
        installed.set_id@ == p.set_id@,
        installed.transaction_id@ == p.transaction_id@,
    ensures
        plan_spec(activated, selected, Some(p)) == (Plan::Apply { write_activation: !activated }),
        plan_spec(true, Some(installed), Some(p)) == Plan::ClearCommitted,
{
}

/// The next thing start-up does while it applies a pending import, after
/// `plan_pending` chose `Plan::Apply`.
#[derive(Clone, Copy, Debug, PartialEq, Eq, Structural)]
pub enum ApplyStep {
    /// Read and validate the staged set.
    ReadStaged,
    /// Write the activation marker.
    WriteMarker,
    /// Read the activation marker back.
    ReadMarker,
    /// Read the active pointer's current bytes.
    ReadPointer,
    /// Replace the active pointer with the record's target.
    ReplacePointer,
    /// Remove the pending record; its outcome does not matter.
    RemovePending,
    /// Finished: the record's target is the active pointer.
    Installed,
    /// Finished: this diagnostic protects every store.
    Refused(Fault),
}

/// What the caller found or did for the step it was given.
pub enum ApplyEvent {
    /// The staged set, or why it could not be read or is invalid.
    Staged(Result<ImportFiles, Fault>),
    /// Whether the activation marker was written.
    MarkerWritten(bool),
    /// The activation marker read back.
    MarkerRead(Result<bool, Fault>),
    /// The pointer currently on disk, `None` when it could not be read or parsed.
    PointerRead(Option<Pointer>),
    /// Whether the pointer was replaced.
    PointerReplaced(bool),
    /// The pending record's removal was attempted.
    PendingRemoved,
}

/// The step after the marker is in place: check the pointer first when
/// one is active.
pub open spec fn pointer_step(active: Option<Pointer>) -> ApplyStep {
    if active is Some {
        ApplyStep::ReadPointer
    } else {
        ApplyStep::ReplacePointer
    }
}

/// The order in which a pending import is applied: staged set and its
/// digest, then (when missing) the marker written and read back, then the
/// active pointer checked unchanged, replaced, and the record removed.
/// Every failure ends the resolution with its diagnostic.
pub open spec fn apply_next_spec(
    pending: Pending,
    write_activation: bool,
    active: Option<Pointer>,
    event: ApplyEvent,
) -> ApplyStep {
    match event {
        ApplyEvent::Staged(Err(f)) => ApplyStep::Refused(f),
        ApplyEvent::Staged(Ok(files)) => if hex_spec(sha256_spec(digest_input_spec(files@)))
            != pending.digest@ {
            ApplyStep::Refused(Fault::PendingImportChanged)
        } else if write_activation {
            ApplyStep::WriteMarker
        } else {
            pointer_step(active)
        },
        ApplyEvent::MarkerWritten(false) => ApplyStep::Refused(Fault::ActivationMarkerWriteFailed),
        ApplyEvent::MarkerWritten(true) => ApplyStep::ReadMarker,
        ApplyEvent::MarkerRead(Err(f)) => ApplyStep::Refused(f),
        ApplyEvent::MarkerRead(Ok(false)) => ApplyStep::Refused(Fault::ActivationMarkerWriteFailed),
        ApplyEvent::MarkerRead(Ok(true)) => pointer_step(active),
        ApplyEvent::PointerRead(None) => ApplyStep::Refused(Fault::ActivePointerWriteFailed),
        ApplyEvent::PointerRead(Some(now)) => if active matches Some(a) && same_pointer_spec(
            now,
            a,
        ) {
            ApplyStep::ReplacePointer
        } else {
            ApplyStep::Refused(Fault::ActivePointerChanged)
        },
        ApplyEvent::PointerReplaced(false) => ApplyStep::Refused(Fault::ActivePointerWriteFailed),
        ApplyEvent::PointerReplaced(true) => ApplyStep::RemovePending,
        ApplyEvent::PendingRemoved => ApplyStep::Installed,
    }
}

/// The step that follows `event` while applying `pending`.
pub fn apply_next(
    pending: &Pending,
    write_activation: bool,
    active: &Option<Pointer>,
    event: ApplyEvent,
) -> (r: ApplyStep)
    ensures
        r == apply_next_spec(*pending, write_activation, *active, event),
{
    let after_marker = if active.is_some() {
        ApplyStep::ReadPointer
    } else {
        ApplyStep::ReplacePointer
    };
    match event {
        ApplyEvent::Staged(Err(f)) => ApplyStep::Refused(f),
        ApplyEvent::Staged(Ok(files)) => if !staged_unchanged(&files, pending) {
            ApplyStep::Refused(Fault::PendingImportChanged)
        } else if write_activation {
            ApplyStep::WriteMarker
        } else {
            after_marker
        },
        ApplyEvent::MarkerWritten(written) => if written {
            ApplyStep::ReadMarker
        } else {
            ApplyStep::Refused(Fault::ActivationMarkerWriteFailed)
        },
        ApplyEvent::MarkerRead(Err(f)) => ApplyStep::Refused(f),
        ApplyEvent::MarkerRead(Ok(activated)) => if activated {
            after_marker
        } else {
            ApplyStep::Refused(Fault::ActivationMarkerWriteFailed)
        },
        ApplyEvent::PointerRead(None) => ApplyStep::Refused(Fault::ActivePointerWriteFailed),
        ApplyEvent::PointerRead(Some(now)) => {
            let unchanged = match active {
                Some(a) => now.same(a),
                None => false,
            };
            if unchanged {
                ApplyStep::ReplacePointer
            } else {
                ApplyStep::Refused(Fault::ActivePointerChanged)
            }
        },
        ApplyEvent::PointerReplaced(replaced) => if replaced {
            ApplyStep::RemovePending
        } else {
            ApplyStep::Refused(Fault::ActivePointerWriteFailed)
        },
        ApplyEvent::PendingRemoved => ApplyStep::Installed,
    }
}

/// The staged set still has the digest that the record promised.
pub fn staged_unchanged(staged: &ImportFiles, pending: &Pending) -> (r: bool)
    ensures
        r == (hex_spec(sha256_spec(digest_input_spec(staged@))) == pending.digest@),
{
    staged.digest() == pending.digest
}

/// Preparing an import needs no earlier pending record and the pointer and
/// marker exactly as this process selected them.
pub fn check_prepare(
    pending_exists: bool,
    current: &Option<Pointer>,
    selected: &Option<Pointer>,
    activated: bool,
) -> (r: Result<(), Fault>)
    ensures
        r == if pending_exists {
            Err::<(), Fault>(Fault::PendingImportExists)
        } else if !same_opt_pointer(*current, *selected) {
            Err(Fault::ActivePointerChanged)
        } else if activated != selected is Some {
            Err(Fault::ActivationMarkerChanged)
        } else {
            Ok(())
        },
{
    if pending_exists {
        return Err(Fault::PendingImportExists);
    }
    if !same_opt(current, selected) {
        return Err(Fault::ActivePointerChanged);
    }
    if activated != selected.is_some() {
        return Err(Fault::ActivationMarkerChanged);
    }
    Ok(())
}

/// `getrandom::fill` on a 32-byte buffer: the bytes from the system's random
/// source, or `None` when it failed. Nothing is known of the bytes.
#[verifier::external_body]
fn random_bytes() -> (r: Option<[u8; 32]>) {
    let mut buf = [0u8; 32];
    match getrandom::fill(&mut buf) {
        Ok(()) => Some(buf),
        Err(_) => None,
    }
}

/// The identifiers of a new data set: the set from the first 16 random
/// bytes, the transaction from the last 16, each as 32 lower-case digits.
pub fn ids_from(random: &[u8; 32]) -> (r: (String, String))
    ensures
        r.0@ == hex_spec(random@.subrange(0, 16)),
        r.1@ == hex_spec(random@.subrange(16, 32)),
        id_ok(r.0),
        id_ok(r.1),
{
    let mut first: Vec<u8> = Vec::new();
    let mut second: Vec<u8> = Vec::new();
    let mut i: usize = 0;
    while i < 16
        invariant
            i <= 16,
            first@ == random@.subrange(0, i as int),
            second@ == random@.subrange(16, 16 + i),
        decreases 16 - i,
    {
        first.push(random[i]);
        second.push(random[16 + i]);
        assert(first@ =~= random@.subrange(0, i + 1));
        assert(second@ =~= random@.subrange(16, 16 + i + 1));
        i += 1;
    }
    let set_id = hex(first.as_slice());
    let transaction_id = hex(second.as_slice());
    proof {
        lemma_hex_text(first@);
        lemma_hex_text(second@);
    }
    (set_id, transaction_id)
}

/// Fresh identifiers for a new data set, or `randomUnavailable`.
pub fn new_ids() -> (r: Result<(String, String), Fault>)
    ensures
        r matches Ok((a, b)) ==> id_ok(a) && id_ok(b),
        r matches Err(f) ==> f == Fault::RandomUnavailable,
{
    match random_bytes() {
        Some(random) => Ok(ids_from(&random)),
        None => Err(Fault::RandomUnavailable),
    }
}

} // verus!
