//! The notification proxy: names, the two-letter command frames, the inbound
//! frame reader, and the table of observed names.
use vstd::prelude::*;
use vstd::string::StringExecFns;
use crate::bytes::{append_bytes, be_u32_at, copy_range, push_u32_be, read_u32_be, u32_be};
use crate::error::IdeviceError;
use crate::bytes::{lemma_read_within, lemma_u32_be_round_trip};
use crate::text::{str_eq, utf8_text};

verus! {

/// A notification, by one of the well-known names or by any other.
#[derive(Debug, Clone, PartialEq, Eq, Hash)]
pub enum NotificationType {
    SyncWillStart,
    SyncDidFinish,
    BackupWillStart,
    BackupDidFinish,
    RestoreWillStart,
    RestoreDidFinish,
    AppInstalled,
    PairingSucceeded,
    ITunesSyncWillStart,
    ITunesSyncDidFinish,
    DownloadWillStart,
    DownloadDidFinish,
    Custom(String),
}

/// The name that `n` is sent and received under.
pub open spec fn notification_name(n: NotificationType) -> Seq<char> {
    match n {
        NotificationType::SyncWillStart => "com.apple.itunes-client.syncWillStart"@,
        NotificationType::SyncDidFinish => "com.apple.itunes-client.syncDidFinish"@,
        NotificationType::BackupWillStart => "com.apple.itunes-client.backupWillStart"@,
        NotificationType::BackupDidFinish => "com.apple.itunes-client.backupDidFinish"@,
        NotificationType::RestoreWillStart => "com.apple.itunes-client.restoreWillStart"@,
        NotificationType::RestoreDidFinish => "com.apple.itunes-client.restoreDidFinish"@,
        NotificationType::AppInstalled => "com.apple.mobile.application_installed"@,
        NotificationType::PairingSucceeded => "com.apple.mobile.paired"@,
        NotificationType::ITunesSyncWillStart => "com.apple.itunes-mobdev.syncWillStart"@,
        NotificationType::ITunesSyncDidFinish => "com.apple.itunes-mobdev.syncDidFinish"@,
        NotificationType::DownloadWillStart => "com.apple.mobile.data_sync.willStart"@,
        NotificationType::DownloadDidFinish => "com.apple.mobile.data_sync.didFinish"@,
        NotificationType::Custom(s) => s@,
    }
}

/// The well-known notification whose name is `s`, if any.
pub open spec fn known_notification(s: Seq<char>) -> Option<NotificationType> {
    if s == "com.apple.itunes-client.syncWillStart"@ {
        Some(NotificationType::SyncWillStart)
    } else if s == "com.apple.itunes-client.syncDidFinish"@ {
        Some(NotificationType::SyncDidFinish)
    } else if s == "com.apple.itunes-client.backupWillStart"@ {
        Some(NotificationType::BackupWillStart)
    } else if s == "com.apple.itunes-client.backupDidFinish"@ {
        Some(NotificationType::BackupDidFinish)
    } else if s == "com.apple.itunes-client.restoreWillStart"@ {
        Some(NotificationType::RestoreWillStart)
    } else if s == "com.apple.itunes-client.restoreDidFinish"@ {
        Some(NotificationType::RestoreDidFinish)
    } else if s == "com.apple.mobile.application_installed"@ {
        Some(NotificationType::AppInstalled)
    } else if s == "com.apple.mobile.paired"@ {
        Some(NotificationType::PairingSucceeded)
    } else if s == "com.apple.itunes-mobdev.syncWillStart"@ {
        Some(NotificationType::ITunesSyncWillStart)
    } else if s == "com.apple.itunes-mobdev.syncDidFinish"@ {
        Some(NotificationType::ITunesSyncDidFinish)
    } else if s == "com.apple.mobile.data_sync.willStart"@ {
        Some(NotificationType::DownloadWillStart)
    } else if s == "com.apple.mobile.data_sync.didFinish"@ {
        Some(NotificationType::DownloadDidFinish)
    } else {
        None
    }
}

/// Whether `n` is what the name `s` reads as: the well-known notification of
/// that name, or else a custom one that holds it.
pub open spec fn reads_as(n: NotificationType, s: Seq<char>) -> bool {
    match known_notification(s) {
        Some(k) => n == k,
        None => n matches NotificationType::Custom(c) && c@ == s,
    }
}

impl NotificationType {
    pub fn as_str(&self) -> (r: &str)
        ensures
            r@ == notification_name(*self),
    {
        match self {
            NotificationType::SyncWillStart => "com.apple.itunes-client.syncWillStart",
            NotificationType::SyncDidFinish => "com.apple.itunes-client.syncDidFinish",
            NotificationType::BackupWillStart => "com.apple.itunes-client.backupWillStart",
            NotificationType::BackupDidFinish => "com.apple.itunes-client.backupDidFinish",
            NotificationType::RestoreWillStart => "com.apple.itunes-client.restoreWillStart",
            NotificationType::RestoreDidFinish => "com.apple.itunes-client.restoreDidFinish",
            NotificationType::AppInstalled => "com.apple.mobile.application_installed",
            NotificationType::PairingSucceeded => "com.apple.mobile.paired",
            NotificationType::ITunesSyncWillStart => "com.apple.itunes-mobdev.syncWillStart",
            NotificationType::ITunesSyncDidFinish => "com.apple.itunes-mobdev.syncDidFinish",
            NotificationType::DownloadWillStart => "com.apple.mobile.data_sync.willStart",
            NotificationType::DownloadDidFinish => "com.apple.mobile.data_sync.didFinish",
            NotificationType::Custom(s) => s.as_str(),
        }
    }

    pub fn from_str(s: &str) -> (r: Self)
        ensures
            reads_as(r, s@),
    {
        if str_eq(s, "com.apple.itunes-client.syncWillStart") {
            NotificationType::SyncWillStart
        } else if str_eq(s, "com.apple.itunes-client.syncDidFinish") {
            NotificationType::SyncDidFinish
        } else if str_eq(s, "com.apple.itunes-client.backupWillStart") {
            NotificationType::BackupWillStart
        } else if str_eq(s, "com.apple.itunes-client.backupDidFinish") {
            NotificationType::BackupDidFinish
        } else if str_eq(s, "com.apple.itunes-client.restoreWillStart") {
            NotificationType::RestoreWillStart
        } else if str_eq(s, "com.apple.itunes-client.restoreDidFinish") {
            NotificationType::RestoreDidFinish
        } else if str_eq(s, "com.apple.mobile.application_installed") {
            NotificationType::AppInstalled
        } else if str_eq(s, "com.apple.mobile.paired") {
            NotificationType::PairingSucceeded
        } else if str_eq(s, "com.apple.itunes-mobdev.syncWillStart") {
            NotificationType::ITunesSyncWillStart
        } else if str_eq(s, "com.apple.itunes-mobdev.syncDidFinish") {
            NotificationType::ITunesSyncDidFinish
        } else if str_eq(s, "com.apple.mobile.data_sync.willStart") {
            NotificationType::DownloadWillStart
        } else if str_eq(s, "com.apple.mobile.data_sync.didFinish") {
            NotificationType::DownloadDidFinish
        } else {
            NotificationType::Custom(String::from_str(s))
        }
    }
}

/// Reading a name and writing the notification back gives the same name.
pub proof fn lemma_name_round_trip(n: NotificationType, s: Seq<char>)
    requires
        reads_as(n, s),
    ensures
        notification_name(n) == s,
{
}

/// Writing a notification's name and reading it back gives the same
/// notification: for every well-known one, and for every custom name that is
/// not also a well-known name.
pub proof fn lemma_notification_round_trip(n: NotificationType)
    requires
        !(n matches NotificationType::Custom(c) && known_notification(c@) is Some),
    ensures
        reads_as(n, notification_name(n)),
{
    reveal_strlit("com.apple.itunes-client.syncWillStart");
    reveal_strlit("com.apple.itunes-client.syncDidFinish");
    reveal_strlit("com.apple.itunes-client.backupWillStart");
    reveal_strlit("com.apple.itunes-client.backupDidFinish");
    reveal_strlit("com.apple.itunes-client.restoreWillStart");
    reveal_strlit("com.apple.itunes-client.restoreDidFinish");
    reveal_strlit("com.apple.mobile.application_installed");
    reveal_strlit("com.apple.mobile.paired");
    reveal_strlit("com.apple.itunes-mobdev.syncWillStart");
    reveal_strlit("com.apple.itunes-mobdev.syncDidFinish");
    reveal_strlit("com.apple.mobile.data_sync.willStart");
    reveal_strlit("com.apple.mobile.data_sync.didFinish");
    assert("com.apple.itunes-client.syncWillStart"@.len() == 37);
    assert("com.apple.itunes-client.syncDidFinish"@.len() == 37);
    assert("com.apple.itunes-client.backupWillStart"@.len() == 39);
    assert("com.apple.itunes-client.backupDidFinish"@.len() == 39);
    assert("com.apple.itunes-client.restoreWillStart"@.len() == 40);
    assert("com.apple.itunes-client.restoreDidFinish"@.len() == 40);
    assert("com.apple.mobile.application_installed"@.len() == 38);
    assert("com.apple.mobile.paired"@.len() == 23);
    assert("com.apple.itunes-mobdev.syncWillStart"@.len() == 37);
    assert("com.apple.itunes-mobdev.syncDidFinish"@.len() == 37);
    assert("com.apple.mobile.data_sync.willStart"@.len() == 36);
    assert("com.apple.mobile.data_sync.didFinish"@.len() == 36);
    assert("com.apple.itunes-client.syncDidFinish"@[28] != "com.apple.itunes-client.syncWillStart"@[28]);
    assert("com.apple.itunes-client.backupDidFinish"@[30] != "com.apple.itunes-client.backupWillStart"@[30]);
    assert("com.apple.itunes-client.restoreDidFinish"@[31] != "com.apple.itunes-client.restoreWillStart"@[31]);
    assert("com.apple.itunes-mobdev.syncWillStart"@[17] != "com.apple.itunes-client.syncWillStart"@[17]);
    assert("com.apple.itunes-mobdev.syncWillStart"@[17] != "com.apple.itunes-client.syncDidFinish"@[17]);
    assert("com.apple.itunes-mobdev.syncDidFinish"@[17] != "com.apple.itunes-client.syncWillStart"@[17]);
    assert("com.apple.itunes-mobdev.syncDidFinish"@[17] != "com.apple.itunes-client.syncDidFinish"@[17]);
    assert("com.apple.itunes-mobdev.syncDidFinish"@[28] != "com.apple.itunes-mobdev.syncWillStart"@[28]);
    assert("com.apple.mobile.data_sync.didFinish"@[27] != "com.apple.mobile.data_sync.willStart"@[27]);
    match n {
        NotificationType::SyncWillStart => {
            assert(known_notification(notification_name(n)) == Some(NotificationType::SyncWillStart));
        },
        NotificationType::SyncDidFinish => {
            assert(known_notification(notification_name(n)) == Some(NotificationType::SyncDidFinish));
        },
        NotificationType::BackupWillStart => {
            assert(known_notification(notification_name(n)) == Some(NotificationType::BackupWillStart));
        },
        NotificationType::BackupDidFinish => {
            assert(known_notification(notification_name(n)) == Some(NotificationType::BackupDidFinish));
        },
        NotificationType::RestoreWillStart => {
            assert(known_notification(notification_name(n)) == Some(NotificationType::RestoreWillStart));
        },
        NotificationType::RestoreDidFinish => {
            assert(known_notification(notification_name(n)) == Some(NotificationType::RestoreDidFinish));
        },
        NotificationType::AppInstalled => {
            assert(known_notification(notification_name(n)) == Some(NotificationType::AppInstalled));
        },
        NotificationType::PairingSucceeded => {
            assert(known_notification(notification_name(n)) == Some(NotificationType::PairingSucceeded));
        },
        NotificationType::ITunesSyncWillStart => {
            assert(known_notification(notification_name(n)) == Some(NotificationType::ITunesSyncWillStart));
        },
        NotificationType::ITunesSyncDidFinish => {
            assert(known_notification(notification_name(n)) == Some(NotificationType::ITunesSyncDidFinish));
        },
        NotificationType::DownloadWillStart => {
            assert(known_notification(notification_name(n)) == Some(NotificationType::DownloadWillStart));
        },
        NotificationType::DownloadDidFinish => {
            assert(known_notification(notification_name(n)) == Some(NotificationType::DownloadDidFinish));
        },
        NotificationType::Custom(_) => {},
    }
}

/// The notification that a command-line word selects: one of the short
/// dash-separated forms, or else the word itself as a custom name.
pub open spec fn cli_notification(s: Seq<char>) -> Option<NotificationType> {
    if s == "sync-will-start"@ {
        Some(NotificationType::SyncWillStart)
    } else if s == "sync-did-finish"@ {
        Some(NotificationType::SyncDidFinish)
    } else if s == "backup-will-start"@ {
        Some(NotificationType::BackupWillStart)
    } else if s == "backup-did-finish"@ {
        Some(NotificationType::BackupDidFinish)
    } else if s == "restore-will-start"@ {
        Some(NotificationType::RestoreWillStart)
    } else if s == "restore-did-finish"@ {
        Some(NotificationType::RestoreDidFinish)
    } else if s == "app-installed"@ {
        Some(NotificationType::AppInstalled)
    } else if s == "pairing-succeeded"@ {
        Some(NotificationType::PairingSucceeded)
    } else if s == "itunes-sync-will-start"@ {
        Some(NotificationType::ITunesSyncWillStart)
    } else if s == "itunes-sync-did-finish"@ {
        Some(NotificationType::ITunesSyncDidFinish)
    } else if s == "download-will-start"@ {
        Some(NotificationType::DownloadWillStart)
    } else if s == "download-did-finish"@ {
        Some(NotificationType::DownloadDidFinish)
    } else {
        None
    }
}

/// Reads a command-line word as a notification.
pub fn parse_notification(notification: &str) -> (r: NotificationType)
    ensures
        match cli_notification(notification@) {
            Some(k) => r == k,
            None => r matches NotificationType::Custom(c) && c@ == notification@,
        },
{
    let s = notification;
    if str_eq(s, "sync-will-start") {
        NotificationType::SyncWillStart
    } else if str_eq(s, "sync-did-finish") {
        NotificationType::SyncDidFinish
    } else if str_eq(s, "backup-will-start") {
        NotificationType::BackupWillStart
    } else if str_eq(s, "backup-did-finish") {
        NotificationType::BackupDidFinish
    } else if str_eq(s, "restore-will-start") {
        NotificationType::RestoreWillStart
    } else if str_eq(s, "restore-did-finish") {
        NotificationType::RestoreDidFinish
    } else if str_eq(s, "app-installed") {
        NotificationType::AppInstalled
    } else if str_eq(s, "pairing-succeeded") {
        NotificationType::PairingSucceeded
    } else if str_eq(s, "itunes-sync-will-start") {
        NotificationType::ITunesSyncWillStart
    } else if str_eq(s, "itunes-sync-did-finish") {
        NotificationType::ITunesSyncDidFinish
    } else if str_eq(s, "download-will-start") {
        NotificationType::DownloadWillStart
    } else if str_eq(s, "download-did-finish") {
        NotificationType::DownloadDidFinish
    } else {
        NotificationType::Custom(String::from_str(s))
    }
}

/// A command frame: two command letters, the name's length as four big-endian
/// bytes, and the name's UTF-8 bytes.
pub open spec fn command_frame(c0: u8, c1: u8, name: Seq<char>) -> Seq<u8> {
    seq![c0, c1] + u32_be(vstd::utf8::encode_utf8(name).len() as u32) + vstd::utf8::encode_utf8(name)
}

/// `O`, `N`: observe.
pub open spec fn observe_bytes(name: Seq<char>) -> Seq<u8> {
    command_frame(0x4f, 0x4e, name)
}

/// `P`, `N`: post.
pub open spec fn post_bytes(name: Seq<char>) -> Seq<u8> {
    command_frame(0x50, 0x4e, name)
}

/// `N`, `P`: a notification sent by the device.
pub open spec fn inbound_bytes(name: Seq<char>) -> Seq<u8> {
    command_frame(0x4e, 0x50, name)
}

/// Whether a name is short enough for a frame's length field.
pub open spec fn frameable(name: Seq<char>) -> bool {
    vstd::utf8::encode_utf8(name).len() <= u32::MAX
}

fn frame_bytes(c0: u8, c1: u8, name: &str) -> (r: Vec<u8>)
    requires
        frameable(name@),
    ensures
        r@ == command_frame(c0, c1, name@),
{
    let b = name.as_bytes();
    let mut out: Vec<u8> = Vec::new();
    out.push(c0);
    out.push(c1);
    push_u32_be(&mut out, b.len() as u32);
    append_bytes(&mut out, b);
    assert(out@ =~= command_frame(c0, c1, name@));
    out
}

/// The frame that posts `n`.
pub fn post_frame(n: &NotificationType) -> (r: Vec<u8>)
    requires
        frameable(notification_name(*n)),
    ensures
        r@ == post_bytes(notification_name(*n)),
{
    frame_bytes(0x50, 0x4e, n.as_str())
}

/// The frame that asks to observe `n`.
pub fn observe_frame(n: &NotificationType) -> (r: Vec<u8>)
    requires
        frameable(notification_name(*n)),
    ensures
        r@ == observe_bytes(notification_name(*n)),
{
    frame_bytes(0x4f, 0x4e, n.as_str())
}

/// What the start of an inbound byte stream holds.
pub enum FrameSpec {
    /// Not yet a whole frame.
    Incomplete,
    /// A notification with this name, and the frame's length.
    Named(Seq<char>, nat),
    /// `N`, `D`: the device ends the stream.
    Shutdown,
    /// A frame that carries nothing to deliver, and its length.
    Skipped(nat),
}

pub open spec fn frame_spec(b: Seq<u8>) -> FrameSpec {
    if b.len() < 2 {
        FrameSpec::Incomplete
    } else if b[0] == 0x4e && b[1] == 0x50 {
        if b.len() < 6 || b.len() < 6 + be_u32_at(b, 2) {
            FrameSpec::Incomplete
        } else {
            let name = b.subrange(6, 6 + be_u32_at(b, 2));
            if vstd::utf8::valid_utf8(name) {
                FrameSpec::Named(vstd::utf8::decode_utf8(name), (6 + be_u32_at(b, 2)) as nat)
            } else {
                FrameSpec::Skipped((6 + be_u32_at(b, 2)) as nat)
            }
        }
    } else if b[0] == 0x4e && b[1] == 0x44 {
        FrameSpec::Shutdown
    } else {
        FrameSpec::Skipped(2)
    }
}

/// The names of the notifications that a byte stream delivers, in order, up
/// to a shutdown frame or an unfinished frame.
pub open spec fn stream_names(b: Seq<u8>) -> Seq<Seq<char>>
    decreases b.len(),
{
    match frame_spec(b) {
        FrameSpec::Named(name, len) => if 0 < len <= b.len() {
            seq![name] + stream_names(b.skip(len as int))
        } else {
            Seq::empty()
        },
        FrameSpec::Skipped(len) => if 0 < len <= b.len() {
            stream_names(b.skip(len as int))
        } else {
            Seq::empty()
        },
        _ => Seq::empty(),
    }
}

/// What one inbound frame holds.
#[derive(Debug)]
pub enum InboundFrame {
    Incomplete,
    /// A notification, and how many bytes its frame took.
    Notification(NotificationType, usize),
    Shutdown,
    Skipped(usize),
}

/// Reads the frame that starts at `at`.
pub fn parse_inbound(buf: &[u8], at: usize) -> (r: InboundFrame)
    requires
        at <= buf@.len(),
    ensures
        match (r, frame_spec(buf@.skip(at as int))) {
            (InboundFrame::Incomplete, FrameSpec::Incomplete) => true,
            (InboundFrame::Notification(n, len), FrameSpec::Named(name, slen)) => reads_as(n, name)
                && len == slen && 0 < len && at + len <= buf@.len(),
            (InboundFrame::Shutdown, FrameSpec::Shutdown) => true,
            (InboundFrame::Skipped(len), FrameSpec::Skipped(slen)) => len == slen && 0 < len && at
                + len <= buf@.len(),
            _ => false,
        },
{
    let ghost b = buf@.skip(at as int);
    let left = buf.len() - at;
    if left < 2 {
        return InboundFrame::Incomplete;
    }
    if buf[at] == 0x4e && buf[at + 1] == 0x50 {
        if left < 6 {
            return InboundFrame::Incomplete;
        }
        let n = read_u32_be(buf, at + 2);
        proof {
            lemma_read_within(buf@, b.skip(2), at + 2, 4);
            assert(b.skip(2)[0] == b[2] && b.skip(2)[1] == b[3] && b.skip(2)[2] == b[4] && b.skip(2)[3] == b[5]);
        }
        if (left as u64) < 6 + (n as u64) {
            return InboundFrame::Incomplete;
        }
        let len = 6 + n as usize;
        let name_bytes = copy_range(buf, at + 6, at + len);
        assert(name_bytes@ =~= b.subrange(6, 6 + be_u32_at(b, 2)));
        match utf8_text(name_bytes) {
            Some(s) => InboundFrame::Notification(NotificationType::from_str(s.as_str()), len),
            None => InboundFrame::Skipped(len),
        }
    } else if buf[at] == 0x4e && buf[at + 1] == 0x44 {
        InboundFrame::Shutdown
    } else {
        InboundFrame::Skipped(2)
    }
}

/// The notifications that `buf` delivers, in order.
pub fn decode_notifications(buf: &[u8]) -> (r: Vec<NotificationType>)
    ensures
        r@.len() == stream_names(buf@).len(),
        forall|i: int| 0 <= i < r@.len() ==> reads_as(#[trigger] r@[i], stream_names(buf@)[i]),
{
    let mut out: Vec<NotificationType> = Vec::new();
    let mut at: usize = 0;
    let ghost got: Seq<Seq<char>> = Seq::empty();
    assert(buf@.skip(0) =~= buf@);
    loop
        invariant
            at <= buf@.len(),
            out@.len() == got.len(),
            forall|i: int| 0 <= i < out@.len() ==> reads_as(#[trigger] out@[i], got[i]),
            stream_names(buf@) == got + stream_names(buf@.skip(at as int)),
        decreases buf@.len() - at,
    {
        let ghost b = buf@.skip(at as int);
        let total = buf.len();
        let frame = parse_inbound(buf, at);
        match frame {
            InboundFrame::Notification(n, len) => {
                assert(at + len <= buf@.len());
                assert(b.skip(len as int) =~= buf@.skip(at + len));
                proof {
                    got = got.push(stream_names(b)[0]);
                }
                assert(got =~= got.drop_last() + seq![stream_names(b)[0]]);
                out.push(n);
                at = at + len;
                assert(stream_names(buf@) =~= got + stream_names(buf@.skip(at as int)));
            },
            InboundFrame::Skipped(len) => {
                assert(b.skip(len as int) =~= buf@.skip(at + len));
                at = at + len;
            },
            _ => {
                assert(got + stream_names(b) =~= got);
                return out;
            },
        }
    }
}

/// A device stream made of notification frames, one for each name in `names`.
pub open spec fn inbound_stream(names: Seq<Seq<char>>) -> Seq<u8>
    decreases names.len(),
{
    if names.len() == 0 {
        Seq::empty()
    } else {
        inbound_bytes(names[0]) + inbound_stream(names.drop_first())
    }
}

proof fn lemma_inbound_frame(name: Seq<char>, rest: Seq<u8>)
    requires
        frameable(name),
    ensures
        stream_names(inbound_bytes(name) + rest) == seq![name] + stream_names(rest),
{
    let u = vstd::utf8::encode_utf8(name);
    let b = inbound_bytes(name) + rest;
    let n = u.len() as u32;
    lemma_u32_be_round_trip(n);
    assert forall|i: int| 0 <= i < 4 implies b[2 + i] == u32_be(n)[i] by {}
    lemma_read_within(b, u32_be(n), 2, 4);
    assert(b.subrange(6, 6 + be_u32_at(b, 2)) =~= u);
    vstd::utf8::encode_utf8_valid_utf8(name);
    vstd::utf8::encode_utf8_decode_utf8(name);
    assert(b.skip(6 + u.len() as int) =~= rest);
}

/// However many names a device sends, in whatever order, with repeats, the
/// stream delivers exactly those names in exactly that order.
pub proof fn lemma_notifications_in_order(names: Seq<Seq<char>>)
    requires
        forall|i: int| 0 <= i < names.len() ==> frameable(#[trigger] names[i]),
    ensures
        stream_names(inbound_stream(names)) == names,
    decreases names.len(),
{
    if names.len() == 0 {
        assert(frame_spec(Seq::<u8>::empty()) == FrameSpec::Incomplete);
    } else {
        let rest = names.drop_first();
        assert forall|i: int| 0 <= i < rest.len() implies frameable(#[trigger] rest[i]) by {
            assert(rest[i] == names[i + 1]);
        }
        lemma_notifications_in_order(rest);
        lemma_inbound_frame(names[0], inbound_stream(rest));
        assert(names =~= seq![names[0]] + rest);
    }
}

/// A notification proxy session over the byte stream `S`: the names observed
/// so far, and whether a listener is running.
pub struct NotificationProxyClient<S> {
    pub socket: S,
    pub observed: Vec<String>,
    pub listening: bool,
}

impl<S> NotificationProxyClient<S> {
    pub open spec fn observed_names(&self) -> Seq<Seq<char>> {
        self.observed@.map_values(|s: String| s@)
    }

    /// Each name is observed at most once.
    pub open spec fn wf(&self) -> bool {
        self.observed_names().no_duplicates()
    }

    pub fn new(socket: S) -> (r: Self)
        ensures
            r.wf(),
            r.socket == socket,
            r.observed_names().len() == 0,
            !r.listening,
    {
        NotificationProxyClient { socket, observed: Vec::new(), listening: false }
    }

    fn has_observed(&self, name: &str) -> (r: bool)
        ensures
            r == self.observed_names().contains(name@),
    {
        let mut i: usize = 0;
        while i < self.observed.len()
            invariant
                0 <= i <= self.observed@.len(),
                forall|j: int| 0 <= j < i ==> self.observed@[j]@ != name@,
            decreases self.observed@.len() - i,
        {
            if str_eq(self.observed[i].as_str(), name) {
                assert(self.observed_names()[i as int] == name@);
                return true;
            }
            i = i + 1;
        }
        assert(!self.observed_names().contains(name@)) by {
            if self.observed_names().contains(name@) {
                let j = choose|j: int| 0 <= j < self.observed_names().len() && self.observed_names()[j] == name@;
                assert(self.observed@[j]@ == name@);
            }
        }
        false
    }

    /// The frame that asks the device for `n`, the first time it is asked
    /// for on this session; none after that, since the device needs one
    /// request per name.
    pub fn observe_notification(&mut self, n: &NotificationType) -> (r: Option<Vec<u8>>)
        requires
            old(self).wf(),
            frameable(notification_name(*n)),
        ensures
            final(self).wf(),
            final(self).socket == old(self).socket,
            final(self).listening == old(self).listening,
            old(self).observed_names().contains(notification_name(*n)) ==> (r is None
                && final(self).observed_names() == old(self).observed_names()),
            !old(self).observed_names().contains(notification_name(*n)) ==> ((r matches Some(b)
                && b@ == observe_bytes(notification_name(*n)))
                && final(self).observed_names() == old(self).observed_names().push(notification_name(*n))),
    {
        let name = n.as_str();
        if self.has_observed(name) {
            return None;
        }
        self.observed.push(String::from_str(name));
        assert(self.observed_names() =~= old(self).observed_names().push(notification_name(*n)));
        assert(self.observed_names().no_duplicates()) by {
            let names = self.observed_names();
            let last = names.len() - 1;
            assert forall|i: int, j: int| 0 <= i < names.len() && 0 <= j < names.len() && i != j implies names[i] != names[j] by {
                if i == last {
                    assert(old(self).observed_names()[j] == names[j]);
                } else if j == last {
                    assert(old(self).observed_names()[i] == names[i]);
                } else {
                    assert(old(self).observed_names()[i] == names[i]);
                    assert(old(self).observed_names()[j] == names[j]);
                }
            }
        }
        Some(observe_frame(n))
    }

    /// The frame that posts `n`; the device does not answer it.
    pub fn post_notification(&self, n: &NotificationType) -> (r: Vec<u8>)
        requires
            frameable(notification_name(*n)),
        ensures
            r@ == post_bytes(notification_name(*n)),
    {
        post_frame(n)
    }

    /// Marks the listener as running; one listener at a time.
    pub fn start_listening(&mut self) -> (r: Result<(), IdeviceError>)
        ensures
            final(self).socket == old(self).socket,
            final(self).observed == old(self).observed,
            final(self).listening,
            old(self).listening ==> (r matches Err(IdeviceError::NotificationProxyError(m))
                && m@ == "Already listening for notifications"@),
            !old(self).listening ==> r is Ok,
    {
        if self.listening {
            return Err(
                IdeviceError::NotificationProxyError(String::from_str("Already listening for notifications")),
            );
        }
        self.listening = true;
        Ok(())
    }

    pub fn stop_listening(&mut self)
        ensures
            final(self).socket == old(self).socket,
            final(self).observed == old(self).observed,
            !final(self).listening,
    {
        self.listening = false;
    }
}

} // verus!
