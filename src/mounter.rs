//! The image mounter: the requests of the upload-then-mount protocol, the
//! reading of replies, the phase a session has reached, and upload progress.
use vstd::prelude::*;
use vstd::string::StringExecFns;
use crate::error::IdeviceError;
use crate::plist_value::{PlistValue, dict_entries, entry_text, entry_value, text_entry, value_entry};
use crate::reply::{error_message, error_text};
use crate::text::str_eq;

verus! {

pub const MOBILE_IMAGE_MOUNTER_SERVICE_NAME: &'static str = "com.apple.mobile.mobile_image_mounter";

/// How far a session has gone.
#[derive(Debug, Clone, PartialEq, Eq)]
pub enum MounterPhase {
    Idle,
    /// An image of this type was uploaded.
    Uploaded(String),
    Mounted,
}

/// An image mounter session over the byte stream `S`.
pub struct ImageMounter<S> {
    pub socket: S,
    pub phase: MounterPhase,
    /// The last `(transferred, total)` reported by an upload.
    pub progress: Option<(u64, u64)>,
}

/// An image mounter session, as handed across a language boundary.
pub struct ImageMounterHandle<S>(pub ImageMounter<S>);

/// A request that holds only its `Command`.
pub fn plain_command(command: &str) -> (r: PlistValue)
    ensures
        dict_entries(r).len() == 1,
        entry_text(dict_entries(r)[0], "Command"@, command@),
{
    PlistValue::Dictionary(vec![text_entry("Command", command)])
}

/// A request with a `Command` and, where one is given, a `PersonalizedImageType`.
pub fn personalized_command(command: &str, image_type: Option<&str>) -> (r: PlistValue)
    ensures
        entry_text(dict_entries(r)[0], "Command"@, command@),
        match image_type {
            Some(t) => dict_entries(r).len() == 2 && entry_text(dict_entries(r)[1], "PersonalizedImageType"@, t@),
            None => dict_entries(r).len() == 1,
        },
{
    let mut entries = vec![text_entry("Command", command)];
    if let Some(t) = image_type {
        entries.push(text_entry("PersonalizedImageType", t));
    }
    PlistValue::Dictionary(entries)
}

/// A `LookupImage` request for `image_type`.
pub fn lookup_image_request(image_type: &str) -> (r: PlistValue)
    ensures
        dict_entries(r).len() == 2,
        entry_text(dict_entries(r)[0], "Command"@, "LookupImage"@),
        entry_text(dict_entries(r)[1], "ImageType"@, image_type@),
{
    PlistValue::Dictionary(vec![text_entry("Command", "LookupImage"), text_entry("ImageType", image_type)])
}

/// A `ReceiveBytes` request that announces an image of `image_size` bytes.
pub fn receive_bytes_request(image_type: &str, image_size: u64, signature: Vec<u8>) -> (r: PlistValue)
    ensures
        dict_entries(r).len() == 4,
        entry_text(dict_entries(r)[0], "Command"@, "ReceiveBytes"@),
        entry_text(dict_entries(r)[1], "ImageType"@, image_type@),
        entry_value(dict_entries(r)[2], "ImageSize"@, PlistValue::Integer(image_size as i128)),
        entry_value(dict_entries(r)[3], "ImageSignature"@, PlistValue::Data(signature)),
{
    PlistValue::Dictionary(
        vec![
            text_entry("Command", "ReceiveBytes"),
            text_entry("ImageType", image_type),
            value_entry("ImageSize", PlistValue::Integer(image_size as i128)),
            value_entry("ImageSignature", PlistValue::Data(signature)),
        ],
    )
}

/// A `MountImage` request, with a trust cache and an info dictionary where given.
pub fn mount_image_request(
    image_type: &str,
    signature: Vec<u8>,
    trust_cache: Option<Vec<u8>>,
    info_plist: Option<PlistValue>,
) -> (r: PlistValue)
    ensures
        entry_text(dict_entries(r)[0], "Command"@, "MountImage"@),
        entry_text(dict_entries(r)[1], "ImageType"@, image_type@),
        entry_value(dict_entries(r)[2], "ImageSignature"@, PlistValue::Data(signature)),
        dict_entries(r).len() == 3 + (if trust_cache is Some { 1int } else { 0 }) + (if info_plist is Some {
            1int
        } else {
            0
        }),
        trust_cache matches Some(t) ==> entry_value(dict_entries(r)[3], "ImageTrustCache"@, PlistValue::Data(t)),
        info_plist matches Some(i) ==> entry_value(
            dict_entries(r)[dict_entries(r).len() - 1],
            "ImageInfoPlist"@,
            i,
        ),
{
    let mut entries = vec![
        text_entry("Command", "MountImage"),
        text_entry("ImageType", image_type),
        value_entry("ImageSignature", PlistValue::Data(signature)),
    ];
    if let Some(t) = trust_cache {
        entries.push(value_entry("ImageTrustCache", PlistValue::Data(t)));
    }
    if let Some(i) = info_plist {
        entries.push(value_entry("ImageInfoPlist", i));
    }
    PlistValue::Dictionary(entries)
}

/// An `UnmountImage` request for `mount_path`.
pub fn unmount_image_request(mount_path: &str) -> (r: PlistValue)
    ensures
        dict_entries(r).len() == 2,
        entry_text(dict_entries(r)[0], "Command"@, "UnmountImage"@),
        entry_text(dict_entries(r)[1], "MountPath"@, mount_path@),
{
    PlistValue::Dictionary(vec![text_entry("Command", "UnmountImage"), text_entry("MountPath", mount_path)])
}

/// A `QueryPersonalizationManifest` request.
pub fn personalization_manifest_request(image_type: &str, signature: Vec<u8>) -> (r: PlistValue)
    ensures
        dict_entries(r).len() == 4,
        entry_text(dict_entries(r)[0], "Command"@, "QueryPersonalizationManifest"@),
        entry_text(dict_entries(r)[1], "PersonalizedImageType"@, image_type@),
        entry_text(dict_entries(r)[2], "ImageType"@, image_type@),
        entry_value(dict_entries(r)[3], "ImageSignature"@, PlistValue::Data(signature)),
{
    PlistValue::Dictionary(
        vec![
            text_entry("Command", "QueryPersonalizationManifest"),
            text_entry("PersonalizedImageType", image_type),
            text_entry("ImageType", image_type),
            value_entry("ImageSignature", PlistValue::Data(signature)),
        ],
    )
}

/// Whether a reply has the `Status` text `expected`.
pub open spec fn has_status(reply: PlistValue, expected: Seq<char>) -> bool {
    reply.text_field("Status"@) == Some(expected)
}

/// `Ok` where the reply's `Status` is `expected`; else the device's error.
pub fn expect_status(reply: &PlistValue, expected: &str) -> (r: Result<(), IdeviceError>)
    ensures
        has_status(*reply, expected@) ==> r is Ok,
        !has_status(*reply, expected@) ==> (r matches Err(IdeviceError::MounterError(m)) && m@
            == error_text(*reply)),
{
    let ok = match reply.get_text("Status") {
        Some(s) => str_eq(s.as_str(), expected),
        None => false,
    };
    if ok {
        Ok(())
    } else {
        Err(IdeviceError::MounterError(error_message(reply)))
    }
}

/// The data under `key`, or `UnexpectedResponse`.
pub fn data_field(reply: PlistValue, key: &str) -> (r: Result<Vec<u8>, IdeviceError>)
    ensures
        match reply.field(key@) {
            Some(PlistValue::Data(d)) => r matches Ok(b) && b@ == d@,
            _ => r == Err::<Vec<u8>, IdeviceError>(IdeviceError::UnexpectedResponse),
        },
{
    match reply.take(key) {
        Some(PlistValue::Data(d)) => Ok(d),
        _ => Err(IdeviceError::UnexpectedResponse),
    }
}

/// The signature of a `LookupImage` reply: its `ImageSignature` data, or the
/// first element of an `ImageSignature` array; empty when nothing is mounted.
pub fn parse_lookup_image(reply: PlistValue) -> (r: Result<Vec<u8>, IdeviceError>)
    ensures
        match reply.field("ImageSignature"@) {
            Some(PlistValue::Data(d)) => r matches Ok(b) && b@ == d@,
            Some(PlistValue::Array(a)) => if a@.len() == 0 {
                r matches Ok(b) && b@.len() == 0
            } else {
                match a@[0] {
                    PlistValue::Data(d) => r matches Ok(b) && b@ == d@,
                    _ => r == Err::<Vec<u8>, IdeviceError>(IdeviceError::UnexpectedResponse),
                }
            },
            None => r matches Ok(b) && b@.len() == 0,
            _ => r == Err::<Vec<u8>, IdeviceError>(IdeviceError::UnexpectedResponse),
        },
{
    match reply.take("ImageSignature") {
        Some(PlistValue::Data(d)) => Ok(d),
        Some(PlistValue::Array(a)) => {
            if a.len() == 0 {
                Ok(Vec::new())
            } else {
                let mut a = a;
                match a.swap_remove(0) {
                    PlistValue::Data(d) => Ok(d),
                    _ => Err(IdeviceError::UnexpectedResponse),
                }
            }
        },
        None => Ok(Vec::new()),
        _ => Err(IdeviceError::UnexpectedResponse),
    }
}

/// Why a personalization manifest could not be had: the reply's
/// `DetailedError` text, else "Manifest not found".
pub open spec fn manifest_failure(reply: PlistValue) -> Seq<char> {
    match reply.text_field("DetailedError"@) {
        Some(t) => t,
        None => "Manifest not found"@,
    }
}

/// The manifest of a `QueryPersonalizationManifest` reply: its `ImageSignature`
/// data. Without it the device has no manifest for the image, and the caller
/// is to obtain a signed one from the signing server instead.
pub fn parse_personalization_manifest(reply: PlistValue) -> (r: Result<Vec<u8>, IdeviceError>)
    ensures
        match reply.field("ImageSignature"@) {
            Some(PlistValue::Data(d)) => r matches Ok(b) && b@ == d@,
            _ => r matches Err(IdeviceError::MounterError(m)) && m@ == manifest_failure(reply),
        },
{
    let reason = match reply.get_text("DetailedError") {
        Some(t) => t.clone(),
        None => String::from_str("Manifest not found"),
    };
    match reply.take("ImageSignature") {
        Some(PlistValue::Data(d)) => Ok(d),
        _ => Err(IdeviceError::MounterError(reason)),
    }
}

/// The `DeveloperModeStatus` of a reply.
pub fn parse_developer_mode_status(reply: &PlistValue) -> (r: Result<bool, IdeviceError>)
    ensures
        match reply.field("DeveloperModeStatus"@) {
            Some(PlistValue::Boolean(b)) => r == Ok::<bool, IdeviceError>(b),
            _ => r == Err::<bool, IdeviceError>(IdeviceError::UnexpectedResponse),
        },
{
    match reply.get("DeveloperModeStatus") {
        Some(PlistValue::Boolean(b)) => Ok(*b),
        _ => Err(IdeviceError::UnexpectedResponse),
    }
}

/// The entries under `key` of a reply, where they are a dictionary.
pub fn dictionary_field(reply: PlistValue, key: &str) -> (r: Result<Vec<(String, PlistValue)>, IdeviceError>)
    ensures
        match reply.field(key@) {
            Some(PlistValue::Dictionary(e)) => r == Ok::<Vec<(String, PlistValue)>, IdeviceError>(e),
            _ => r == Err::<Vec<(String, PlistValue)>, IdeviceError>(IdeviceError::UnexpectedResponse),
        },
{
    match reply.take(key) {
        Some(PlistValue::Dictionary(e)) => Ok(e),
        _ => Err(IdeviceError::UnexpectedResponse),
    }
}

/// The elements of the `EntryList` array of a `CopyDevices` reply.
pub fn parse_copy_devices(reply: PlistValue) -> (r: Result<Vec<PlistValue>, IdeviceError>)
    ensures
        match reply.field("EntryList"@) {
            Some(PlistValue::Array(a)) => r == Ok::<Vec<PlistValue>, IdeviceError>(a),
            _ => r == Err::<Vec<PlistValue>, IdeviceError>(IdeviceError::UnexpectedResponse),
        },
{
    match reply.take("EntryList") {
        Some(PlistValue::Array(a)) => Ok(a),
        _ => Err(IdeviceError::UnexpectedResponse),
    }
}

impl<S> ImageMounter<S> {
    pub fn new(socket: S) -> (r: Self)
        ensures
            r.socket == socket,
            r.phase == MounterPhase::Idle,
            r.progress is None,
    {
        ImageMounter { socket, phase: MounterPhase::Idle, progress: None }
    }

    /// Takes the reply that ends an upload of an `image_type` image: on
    /// `Complete` the session has that image uploaded.
    pub fn on_upload_reply(&mut self, image_type: &str, reply: &PlistValue) -> (r: Result<(), IdeviceError>)
        ensures
            final(self).socket == old(self).socket,
            final(self).progress == old(self).progress,
            has_status(*reply, "Complete"@) ==> r is Ok && (final(self).phase matches MounterPhase::Uploaded(t)
                && t@ == image_type@),
            !has_status(*reply, "Complete"@) ==> (r matches Err(IdeviceError::MounterError(m)) && m@
                == error_text(*reply)) && final(self).phase == old(self).phase,
    {
        expect_status(reply, "Complete")?;
        self.phase = MounterPhase::Uploaded(String::from_str(image_type));
        Ok(())
    }

    /// Takes the reply to a `MountImage` request: on `Complete` the image is mounted.
    pub fn on_mount_reply(&mut self, reply: &PlistValue) -> (r: Result<(), IdeviceError>)
        ensures
            final(self).socket == old(self).socket,
            final(self).progress == old(self).progress,
            has_status(*reply, "Complete"@) ==> r is Ok && final(self).phase == MounterPhase::Mounted,
            !has_status(*reply, "Complete"@) ==> (r matches Err(IdeviceError::MounterError(m)) && m@
                == error_text(*reply)) && final(self).phase == old(self).phase,
    {
        expect_status(reply, "Complete")?;
        self.phase = MounterPhase::Mounted;
        Ok(())
    }

    /// Records the progress that an upload reports.
    pub fn record_progress(&mut self, transferred: u64, total: u64)
        ensures
            final(self).socket == old(self).socket,
            final(self).phase == old(self).phase,
            final(self).progress == Some((transferred, total)),
    {
        self.progress = Some((transferred, total));
    }
}

/// How many bytes an upload of `total` bytes in chunks of `chunk` has sent
/// after `k` chunks.
pub open spec fn sent_after(k: nat, total: nat, chunk: nat) -> nat {
    if k * chunk < total {
        k * chunk
    } else {
        total
    }
}

/// How many chunks an upload of `total` bytes takes: `total / chunk` rounded up.
pub open spec fn chunk_count(total: nat, chunk: nat) -> nat
    recommends
        chunk > 0,
{
    ((total + chunk - 1) / chunk as int) as nat
}

/// The progress of an upload in chunks; each chunk sent is reported as
/// `(transferred, total)`.
#[derive(Debug, Clone, Copy, PartialEq, Eq, Structural)]
pub struct UploadProgress {
    pub total: u64,
    pub chunk: u64,
    pub sent: u64,
    /// How many chunks were sent.
    pub steps: u64,
}

impl UploadProgress {
    pub open spec fn wf(&self) -> bool {
        &&& self.chunk > 0
        &&& self.sent == sent_after(self.steps as nat, self.total as nat, self.chunk as nat)
        &&& self.steps <= chunk_count(self.total as nat, self.chunk as nat)
    }

    pub fn new(total: u64, chunk: u64) -> (r: Self)
        requires
            chunk > 0,
        ensures
            r.wf(),
            r.total == total,
            r.chunk == chunk,
            r.sent == 0,
            r.steps == 0,
    {
        UploadProgress { total, chunk, sent: 0, steps: 0 }
    }

    pub fn is_done(&self) -> (r: bool)
        ensures
            r == (self.sent == self.total),
    {
        self.sent == self.total
    }

    /// Where the next chunk starts and ends in the image.
    pub fn next_range(&self) -> (r: (u64, u64))
        requires
            self.wf(),
            self.sent < self.total,
        ensures
            r.0 == self.sent,
            r.1 == sent_after((self.steps + 1) as nat, self.total as nat, self.chunk as nat),
            r.0 < r.1 <= self.total,
    {
        proof {
            lemma_sent_step(self.steps as nat, self.total as nat, self.chunk as nat);
        }
        let left = self.total - self.sent;
        if left > self.chunk {
            (self.sent, self.sent + self.chunk)
        } else {
            (self.sent, self.total)
        }
    }

    /// Marks the next chunk as sent, and reports `(transferred, total)`.
    pub fn on_chunk_sent(&mut self) -> (r: (u64, u64))
        requires
            old(self).wf(),
            old(self).sent < old(self).total,
        ensures
            final(self).wf(),
            final(self).total == old(self).total,
            final(self).chunk == old(self).chunk,
            final(self).steps == old(self).steps + 1,
            r == (final(self).sent, final(self).total),
            old(self).sent < final(self).sent,
    {
        let (_, end) = self.next_range();
        proof {
            lemma_sent_step(self.steps as nat, self.total as nat, self.chunk as nat);
            lemma_chunk_count(self.steps as nat, self.total as nat, self.chunk as nat);
        }
        self.sent = end;
        self.steps = self.steps + 1;
        (self.sent, self.total)
    }
}

proof fn lemma_sent_step(k: nat, total: nat, chunk: nat)
    requires
        chunk > 0,
        sent_after(k, total, chunk) < total,
    ensures
        sent_after(k + 1, total, chunk) == if sent_after(k, total, chunk) + chunk < total {
            sent_after(k, total, chunk) + chunk
        } else {
            total
        },
        sent_after(k, total, chunk) == k * chunk,
{
    assert((k + 1) * chunk == k * chunk + chunk) by (nonlinear_arith);
}

proof fn lemma_chunk_count(k: nat, total: nat, chunk: nat)
    requires
        chunk > 0,
        k * chunk < total,
    ensures
        k < chunk_count(total, chunk),
        chunk_count(total, chunk) <= total,
{
    assert((k + 1) * chunk == k * chunk + chunk) by (nonlinear_arith);
    assert((total + chunk - 1) / chunk as int <= total) by (nonlinear_arith)
        requires
            chunk > 0,
            total > 0,
    {
        assert(total + chunk - 1 < (total + 1) * chunk) by (nonlinear_arith)
            requires
                chunk > 0,
                total > 0,
        ;
    }
    assert(k + 1 <= (total + chunk - 1) / chunk as int) by (nonlinear_arith)
        requires
            (k + 1) * chunk <= total + chunk - 1,
            chunk > 0,
    ;
}

/// An upload of `total` bytes in chunks of `chunk` reports, after each chunk,
/// a transferred count that never falls, reaches `total` after exactly
/// `chunk_count` chunks, and not before.
pub proof fn lemma_upload_progress(total: nat, chunk: nat, k: nat, j: nat)
    requires
        chunk > 0,
        k <= j,
    ensures
        sent_after(k, total, chunk) <= sent_after(j, total, chunk),
        sent_after(chunk_count(total, chunk), total, chunk) == total,
        total > 0 ==> sent_after((chunk_count(total, chunk) - 1) as nat, total, chunk) < total,
{
    assert(k * chunk <= j * chunk) by (nonlinear_arith)
        requires
            k <= j,
    ;
    let n = chunk_count(total, chunk);
    assert(n * chunk >= total) by (nonlinear_arith)
        requires
            n == (total + chunk - 1) / chunk as int,
            chunk > 0,
    ;
    if total > 0 {
        assert(n >= 1) by (nonlinear_arith)
            requires
                n == (total + chunk - 1) / chunk as int,
                chunk > 0,
                total > 0,
        ;
        assert(((n - 1) as nat) * chunk < total) by (nonlinear_arith)
            requires
                n == (total + chunk - 1) / chunk as int,
                chunk > 0,
                n >= 1,
        ;
    }
}

} // verus!
