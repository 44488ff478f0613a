//! Per-file identity and the metadata sent with each upload.
use std::hash::BuildHasher;
use vstd::prelude::*;
use crate::media::{guess_mime, mime_of};
use crate::text::{decimal, decimal_string, lemma_decimal_injective};

verus! {

/// A point in time as seconds and nanoseconds since the Unix epoch (UTC).
#[derive(Clone, Copy, Debug, PartialEq, Eq, Structural)]
pub struct Timestamp {
    pub secs: i64,
    pub nanos: u32,
}

/// The token by which this client names itself to the server.
pub const DEVICE_ID: &'static str = "rimmich-uploader";

/// The hash that the standard library's default hasher gives a path.
pub uninterp spec fn path_hash(path: Seq<char>) -> u64;

/// Relies on `BuildHasher::hash_one` with `BuildHasherDefault<DefaultHasher>`:
/// hashers built by `DefaultHasher::new`/`default` all produce the same
/// result, so the value depends on the path alone.
#[verifier::external_body]
fn hash_path(path: &str) -> (r: u64)
    ensures
        r == path_hash(path@),
{
    std::hash::BuildHasherDefault::<std::collections::hash_map::DefaultHasher>::default().hash_one(
        std::path::Path::new(path),
    )
}

/// The RFC 3339 text of a UTC instant.
pub uninterp spec fn rfc3339_of(secs: i64, nanos: u32) -> Seq<char>;

/// Instants that chrono can represent and write: about 253,000 years either
/// side of the epoch, with nanoseconds below one second.
pub open spec fn time_in_range(t: Timestamp) -> bool {
    -8_000_000_000_000 <= t.secs <= 8_000_000_000_000 && t.nanos < 1_000_000_000
}

/// Relies on chrono's `DateTime::<Utc>::from_timestamp` (present when the
/// day lies within `NaiveDate`'s range of years and the nanoseconds are below
/// one second) and `DateTime::to_rfc3339`; the text depends on the instant
/// alone.
#[verifier::external_body]
fn format_rfc3339(t: Timestamp) -> (r: Option<String>)
    ensures
        time_in_range(t) ==> r is Some,
        r matches Some(s) ==> s@ == rfc3339_of(t.secs, t.nanos),
{
    match chrono::DateTime::<chrono::Utc>::from_timestamp(t.secs, t.nanos) {
        Some(d) => Some(d.to_rfc3339()),
        None => None,
    }
}

/// The device asset id of a path: the device token, a dash, and the decimal
/// hash of the path.
pub open spec fn asset_id_of(path: Seq<char>) -> Seq<char> {
    DEVICE_ID@ + "-"@ + decimal(path_hash(path) as nat)
}

/// The stable identifier that lets the server recognise a file it has seen.
pub fn device_asset_id(path: &str) -> (r: String)
    ensures
        r@ == asset_id_of(path@),
{
    let h = hash_path(path);
    let mut r = String::from_str(DEVICE_ID);
    r.append("-");
    let digits = decimal_string(h);
    r.append(digits.as_str());
    r
}

/// The device asset id is a function of the path: the same path gives the
/// same id in every run, and two paths get the same id exactly when their
/// hashes are equal.
pub proof fn lemma_asset_id_deterministic(a: Seq<char>, b: Seq<char>)
    ensures
        a == b ==> asset_id_of(a) == asset_id_of(b),
        asset_id_of(a) == asset_id_of(b) <==> path_hash(a) == path_hash(b),
{
    lemma_decimal_injective(path_hash(a) as nat, path_hash(b) as nat);
    if asset_id_of(a) == asset_id_of(b) {
        let pre = DEVICE_ID@ + "-"@;
        let da = decimal(path_hash(a) as nat);
        let db = decimal(path_hash(b) as nat);
        assert(asset_id_of(a).subrange(pre.len() as int, asset_id_of(a).len() as int) =~= da);
        assert(asset_id_of(b).subrange(pre.len() as int, asset_id_of(b).len() as int) =~= db);
    }
}

/// First available of creation time, modification time and the present.
pub open spec fn creation_choice(
    created: Option<Timestamp>,
    modified: Option<Timestamp>,
    now: Timestamp,
) -> Timestamp {
    match created {
        Some(c) => c,
        None => match modified {
            Some(m) => m,
            None => now,
        },
    }
}

/// Modification time, or the present where the file system gives none.
pub open spec fn modification_choice(modified: Option<Timestamp>, now: Timestamp) -> Timestamp {
    match modified {
        Some(m) => m,
        None => now,
    }
}

/// A missing time never causes an error by itself: where the present
/// moment and every time the file system gave can be written, both chosen
/// times can be written.
pub proof fn lemma_missing_times_fall_back(
    created: Option<Timestamp>,
    modified: Option<Timestamp>,
    now: Timestamp,
)
    requires
        time_in_range(now),
        created matches Some(c) ==> time_in_range(c),
        modified matches Some(m) ==> time_in_range(m),
    ensures
        time_in_range(creation_choice(created, modified, now)),
        time_in_range(modification_choice(modified, now)),
{
}

/// What the server is told about a file, apart from its bytes.
#[derive(Clone, Debug)]
pub struct AssetIdentity {
    pub device_asset_id: String,
    pub device_id: String,
    pub created_at: Timestamp,
    pub modified_at: Timestamp,
}

/// Builds a file's identity from its path and the times the file system gave.
pub fn build_identity(
    path: &str,
    created: Option<Timestamp>,
    modified: Option<Timestamp>,
    now: Timestamp,
) -> (r: AssetIdentity)
    ensures
        r.device_asset_id@ == asset_id_of(path@),
        r.device_id@ == DEVICE_ID@,
        r.created_at == creation_choice(created, modified, now),
        r.modified_at == modification_choice(modified, now),
{
    let created_at = match created {
        Some(c) => c,
        None => match modified {
            Some(m) => m,
            None => now,
        },
    };
    let modified_at = match modified {
        Some(m) => m,
        None => now,
    };
    AssetIdentity {
        device_asset_id: device_asset_id(path),
        device_id: String::from_str(DEVICE_ID),
        created_at,
        modified_at,
    }
}

/// One text part of the upload form.
#[derive(Clone, Debug)]
pub struct FormField {
    pub name: String,
    pub value: String,
}

/// The view of a form field as its name and value.
pub open spec fn field_view(f: FormField) -> (Seq<char>, Seq<char>) {
    (f.name@, f.value@)
}

/// The text parts of the upload form, in order.
pub open spec fn form_spec(
    asset_id: Seq<char>,
    device_id: Seq<char>,
    created_text: Seq<char>,
    modified_text: Seq<char>,
) -> Seq<(Seq<char>, Seq<char>)> {
    seq![
        ("deviceAssetId"@, asset_id),
        ("deviceId"@, device_id),
        ("fileCreatedAt"@, created_text),
        ("fileModifiedAt"@, modified_text),
        ("isFavorite"@, "false"@),
    ]
}

fn field(name: &str, value: &str) -> (r: FormField)
    ensures
        r.name@ == name@,
        r.value@ == value@,
{
    FormField { name: String::from_str(name), value: String::from_str(value) }
}

/// The text parts of the upload form for an identity whose times read as
/// `created_text` and `modified_text`.
pub fn form_fields(identity: &AssetIdentity, created_text: &str, modified_text: &str) -> (r: Vec<
    FormField,
>)
    ensures
        r@.map_values(|f: FormField| field_view(f)) == form_spec(
            identity.device_asset_id@,
            identity.device_id@,
            created_text@,
            modified_text@,
        ),
{
    let mut r: Vec<FormField> = Vec::new();
    r.push(field("deviceAssetId", identity.device_asset_id.as_str()));
    r.push(field("deviceId", identity.device_id.as_str()));
    r.push(field("fileCreatedAt", created_text));
    r.push(field("fileModifiedAt", modified_text));
    r.push(field("isFavorite", "false"));
    assert(r@.map_values(|f: FormField| field_view(f)) =~= form_spec(
        identity.device_asset_id@,
        identity.device_id@,
        created_text@,
        modified_text@,
    ));
    r
}

/// Everything an upload sends besides the file's bytes.
#[derive(Clone, Debug)]
pub struct UploadRequest {
    /// Name of the file part: the file's own name.
    pub file_name: String,
    /// Content type of the file part.
    pub mime: String,
    pub identity: AssetIdentity,
    /// The text parts of the form.
    pub fields: Vec<FormField>,
}

/// Why an upload request could not be prepared.
#[derive(Clone, Copy, Debug, PartialEq, Eq, Structural)]
pub enum PrepareError {
    /// The file's name is not representable as text.
    InvalidName,
    /// One of the file's times lies outside the range that can be written.
    TimeOutOfRange,
}

/// Prepares the upload of the file at `path`, whose own name is `file_name`
/// (absent where it is not text), from the times the file system gave. It
/// succeeds whenever the name is text and both chosen times can be written.
pub fn prepare_upload(
    path: &str,
    file_name: Option<String>,
    created: Option<Timestamp>,
    modified: Option<Timestamp>,
    now: Timestamp,
) -> (r: Result<UploadRequest, PrepareError>)
    ensures
        file_name is None <==> r == Err::<UploadRequest, PrepareError>(PrepareError::InvalidName),
        file_name is Some && time_in_range(creation_choice(created, modified, now))
            && time_in_range(modification_choice(modified, now)) ==> r is Ok,
        r is Err ==> r == Err::<UploadRequest, PrepareError>(PrepareError::InvalidName) || r
            == Err::<UploadRequest, PrepareError>(PrepareError::TimeOutOfRange),
        r matches Ok(q) ==> {
            &&& q.file_name == file_name->0
            &&& q.mime@ == mime_of(path@)
            &&& q.identity.device_asset_id@ == asset_id_of(path@)
            &&& q.identity.device_id@ == DEVICE_ID@
            &&& q.identity.created_at == creation_choice(created, modified, now)
            &&& q.identity.modified_at == modification_choice(modified, now)
            &&& q.fields@.map_values(|f: FormField| field_view(f)) == form_spec(
                asset_id_of(path@),
                DEVICE_ID@,
                rfc3339_of(q.identity.created_at.secs, q.identity.created_at.nanos),
                rfc3339_of(q.identity.modified_at.secs, q.identity.modified_at.nanos),
            )
        },
{
    let name = match file_name {
        Some(n) => n,
        None => return Err(PrepareError::InvalidName),
    };
    let identity = build_identity(path, created, modified, now);
    let created_text = match format_rfc3339(identity.created_at) {
        Some(t) => t,
        None => return Err(PrepareError::TimeOutOfRange),
    };
    let modified_text = match format_rfc3339(identity.modified_at) {
        Some(t) => t,
        None => return Err(PrepareError::TimeOutOfRange),
    };
    let fields = form_fields(&identity, created_text.as_str(), modified_text.as_str());
    let mime = guess_mime(path);
    Ok(UploadRequest { file_name: name, mime, identity, fields })
}

} // verus!
