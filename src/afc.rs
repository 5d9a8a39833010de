//! The AFC file protocol: packet headers, operation payloads, replies, and the
//! per-session packet counter.
use vstd::prelude::*;
use crate::bytes::{
    append_bytes, le_u64_at, lemma_read_within, lemma_u64_le_round_trip, push_u64_le,
    read_u64_le, u64_le,
};
use crate::error::{AfcError, IdeviceError, afc_error_of};
use crate::text::{lossy_text, utf8_lossy};

verus! {

pub const AFC_HEADER_LEN: u64 = 40;

/// The operations of the AFC protocol.
#[derive(Debug, Clone, Copy, PartialEq, Eq, Structural)]
pub enum AfcOperations {
    Status,
    Data,
    ReadDir,
    ReadFile,
    WriteFile,
    WritePart,
    TruncFile,
    RemovePath,
    MakeDir,
    GetFileInfo,
    GetDeviceInfo,
    WriteFileAtomic,
    FileRefOpen,
    FileRefRead,
    FileRefWrite,
    FileRefSeek,
    FileRefTell,
    FileRefClose,
    FileRefSetSize,
    GetConnectionInfo,
    SetConnectionOptions,
    RenamePath,
    SetFSBlockSize,
    SetSocketBlockSize,
    FileRefLock,
    MakeLink,
    GetFileHash,
    SetModTime,
    GetFileHashWithRange,
    FileRefSetImmutableHint,
    GetSizeOfPathContents,
    RemovePathAndContents,
    DirectoryEnumeratorRefOpen,
    DirectoryEnumeratorRefOpenDirectory,
    DirectoryEnumeratorRefRead,
    DirectoryEnumeratorRefClose,
}

/// The number that identifies `op` on the wire.
pub open spec fn op_code(op: AfcOperations) -> u64 {
    match op {
        AfcOperations::Status => 0x01,
        AfcOperations::Data => 0x02,
        AfcOperations::ReadDir => 0x03,
        AfcOperations::ReadFile => 0x04,
        AfcOperations::WriteFile => 0x05,
        AfcOperations::WritePart => 0x06,
        AfcOperations::TruncFile => 0x07,
        AfcOperations::RemovePath => 0x08,
        AfcOperations::MakeDir => 0x09,
        AfcOperations::GetFileInfo => 0x0a,
        AfcOperations::GetDeviceInfo => 0x0b,
        AfcOperations::WriteFileAtomic => 0x0c,
        AfcOperations::FileRefOpen => 0x0d,
        AfcOperations::FileRefRead => 0x0e,
        AfcOperations::FileRefWrite => 0x0f,
        AfcOperations::FileRefSeek => 0x10,
        AfcOperations::FileRefTell => 0x11,
        AfcOperations::FileRefClose => 0x12,
        AfcOperations::FileRefSetSize => 0x13,
        AfcOperations::GetConnectionInfo => 0x14,
        AfcOperations::SetConnectionOptions => 0x15,
        AfcOperations::RenamePath => 0x16,
        AfcOperations::SetFSBlockSize => 0x17,
        AfcOperations::SetSocketBlockSize => 0x18,
        AfcOperations::FileRefLock => 0x19,
        AfcOperations::MakeLink => 0x1a,
        AfcOperations::GetFileHash => 0x1b,
        AfcOperations::SetModTime => 0x1c,
        AfcOperations::GetFileHashWithRange => 0x1d,
        AfcOperations::FileRefSetImmutableHint => 0x1e,
        AfcOperations::GetSizeOfPathContents => 0x1f,
        AfcOperations::RemovePathAndContents => 0x20,
        AfcOperations::DirectoryEnumeratorRefOpen => 0x21,
        AfcOperations::DirectoryEnumeratorRefOpenDirectory => 0x22,
        AfcOperations::DirectoryEnumeratorRefRead => 0x23,
        AfcOperations::DirectoryEnumeratorRefClose => 0x24,
    }
}

impl AfcOperations {
    pub fn code(&self) -> (r: u64)
        ensures
            r == op_code(*self),
    {
        match self {
            AfcOperations::Status => 0x01,
            AfcOperations::Data => 0x02,
            AfcOperations::ReadDir => 0x03,
            AfcOperations::ReadFile => 0x04,
            AfcOperations::WriteFile => 0x05,
            AfcOperations::WritePart => 0x06,
            AfcOperations::TruncFile => 0x07,
            AfcOperations::RemovePath => 0x08,
            AfcOperations::MakeDir => 0x09,
            AfcOperations::GetFileInfo => 0x0a,
            AfcOperations::GetDeviceInfo => 0x0b,
            AfcOperations::WriteFileAtomic => 0x0c,
            AfcOperations::FileRefOpen => 0x0d,
            AfcOperations::FileRefRead => 0x0e,
            AfcOperations::FileRefWrite => 0x0f,
            AfcOperations::FileRefSeek => 0x10,
            AfcOperations::FileRefTell => 0x11,
            AfcOperations::FileRefClose => 0x12,
            AfcOperations::FileRefSetSize => 0x13,
            AfcOperations::GetConnectionInfo => 0x14,
            AfcOperations::SetConnectionOptions => 0x15,
            AfcOperations::RenamePath => 0x16,
            AfcOperations::SetFSBlockSize => 0x17,
            AfcOperations::SetSocketBlockSize => 0x18,
            AfcOperations::FileRefLock => 0x19,
            AfcOperations::MakeLink => 0x1a,
            AfcOperations::GetFileHash => 0x1b,
            AfcOperations::SetModTime => 0x1c,
            AfcOperations::GetFileHashWithRange => 0x1d,
            AfcOperations::FileRefSetImmutableHint => 0x1e,
            AfcOperations::GetSizeOfPathContents => 0x1f,
            AfcOperations::RemovePathAndContents => 0x20,
            AfcOperations::DirectoryEnumeratorRefOpen => 0x21,
            AfcOperations::DirectoryEnumeratorRefOpenDirectory => 0x22,
            AfcOperations::DirectoryEnumeratorRefRead => 0x23,
            AfcOperations::DirectoryEnumeratorRefClose => 0x24,
        }
    }
}

/// The 40-byte header of an AFC packet.
#[derive(Debug, Clone, Copy, PartialEq, Eq, Structural)]
pub struct AfcPacketHeader {
    /// Header and payload together.
    pub entire_length: u64,
    /// Equal to `entire_length` for a packet sent in one piece.
    pub this_length: u64,
    pub packet_num: u64,
    pub operation: u64,
}

/// The wire bytes of `h`: its four fields and a zero reserved field, each
/// eight bytes little-endian.
pub open spec fn header_bytes(h: AfcPacketHeader) -> Seq<u8> {
    u64_le(h.entire_length) + u64_le(h.this_length) + u64_le(h.packet_num) + u64_le(h.operation)
        + u64_le(0)
}

/// The header that the first 40 bytes of `b` hold.
pub open spec fn header_at(b: Seq<u8>) -> AfcPacketHeader {
    AfcPacketHeader {
        entire_length: le_u64_at(b, 0),
        this_length: le_u64_at(b, 8),
        packet_num: le_u64_at(b, 16),
        operation: le_u64_at(b, 24),
    }
}

impl AfcPacketHeader {
    /// The header of a single-piece packet for `operation` with `data_length`
    /// payload bytes, numbered 0.
    pub fn new(operation: AfcOperations, data_length: u64) -> (r: Self)
        requires
            data_length <= u64::MAX - AFC_HEADER_LEN,
        ensures
            r.entire_length == AFC_HEADER_LEN + data_length,
            r.this_length == AFC_HEADER_LEN + data_length,
            r.packet_num == 0,
            r.operation == op_code(operation),
    {
        Self {
            entire_length: AFC_HEADER_LEN + data_length,
            this_length: AFC_HEADER_LEN + data_length,
            packet_num: 0,
            operation: operation.code(),
        }
    }

    pub fn serialize(&self) -> (r: Vec<u8>)
        ensures
            r@ == header_bytes(*self),
    {
        let mut out: Vec<u8> = Vec::new();
        push_u64_le(&mut out, self.entire_length);
        push_u64_le(&mut out, self.this_length);
        push_u64_le(&mut out, self.packet_num);
        push_u64_le(&mut out, self.operation);
        push_u64_le(&mut out, 0);
        out
    }

    /// Reads a header from the first 40 bytes of `b`.
    pub fn deserialize(b: &[u8]) -> (r: Result<Self, IdeviceError>)
        ensures
            b@.len() >= AFC_HEADER_LEN ==> r == Ok::<Self, IdeviceError>(header_at(b@)),
            b@.len() < AFC_HEADER_LEN ==> r == Err::<Self, IdeviceError>(IdeviceError::UnexpectedResponse),
    {
        if b.len() < 40 {
            return Err(IdeviceError::UnexpectedResponse);
        }
        Ok(
            Self {
                entire_length: read_u64_le(b, 0),
                this_length: read_u64_le(b, 8),
                packet_num: read_u64_le(b, 16),
                operation: read_u64_le(b, 24),
            },
        )
    }

    /// How many payload bytes follow this header.
    pub fn payload_len(&self) -> (r: Result<u64, IdeviceError>)
        ensures
            match r {
                Ok(n) => self.entire_length >= AFC_HEADER_LEN && n == self.entire_length - AFC_HEADER_LEN,
                Err(e) => self.entire_length < AFC_HEADER_LEN && e == IdeviceError::UnexpectedResponse,
            },
    {
        if self.entire_length < AFC_HEADER_LEN {
            Err(IdeviceError::UnexpectedResponse)
        } else {
            Ok(self.entire_length - AFC_HEADER_LEN)
        }
    }
}

/// Reading back a serialized header gives the same header; the serialized
/// bytes end in a zero reserved field.
pub proof fn lemma_header_round_trip(h: AfcPacketHeader)
    ensures
        header_bytes(h).len() == AFC_HEADER_LEN,
        header_at(header_bytes(h)) == h,
        header_bytes(h).subrange(32, 40) == u64_le(0),
        le_u64_at(header_bytes(h), 32) == 0,
{
    let b = header_bytes(h);
    lemma_u64_le_round_trip(h.entire_length);
    lemma_u64_le_round_trip(h.this_length);
    lemma_u64_le_round_trip(h.packet_num);
    lemma_u64_le_round_trip(h.operation);
    lemma_u64_le_round_trip(0);
    lemma_read_within(b, u64_le(h.entire_length), 0, 8);
    assert forall|i: int| 0 <= i < 8 implies b[8 + i] == u64_le(h.this_length)[i] by {}
    assert forall|i: int| 0 <= i < 8 implies b[16 + i] == u64_le(h.packet_num)[i] by {}
    assert forall|i: int| 0 <= i < 8 implies b[24 + i] == u64_le(h.operation)[i] by {}
    assert forall|i: int| 0 <= i < 8 implies b[32 + i] == u64_le(0)[i] by {}
    lemma_read_within(b, u64_le(h.this_length), 8, 8);
    lemma_read_within(b, u64_le(h.packet_num), 16, 8);
    lemma_read_within(b, u64_le(h.operation), 24, 8);
    lemma_read_within(b, u64_le(0), 32, 8);
    assert(b.subrange(32, 40) =~= u64_le(0));
}

/// For every operation and payload length, the header that `new` builds reads
/// back unchanged, with `entire_length` 40 more than the payload and a zero
/// reserved field.
pub proof fn lemma_new_header_round_trip(op: AfcOperations, payload_len: u64)
    requires
        payload_len <= u64::MAX - AFC_HEADER_LEN,
    ensures
        ({
            let h = AfcPacketHeader {
                entire_length: (AFC_HEADER_LEN + payload_len) as u64,
                this_length: (AFC_HEADER_LEN + payload_len) as u64,
                packet_num: 0,
                operation: op_code(op),
            };
            &&& header_at(header_bytes(h)) == h
            &&& le_u64_at(header_bytes(h), 32) == 0
            &&& header_at(header_bytes(h)).entire_length == 40 + payload_len
        }),
{
    let h = AfcPacketHeader {
        entire_length: (AFC_HEADER_LEN + payload_len) as u64,
        this_length: (AFC_HEADER_LEN + payload_len) as u64,
        packet_num: 0,
        operation: op_code(op),
    };
    lemma_header_round_trip(h);
}

/// How a file is opened.
#[derive(Debug, Clone, Copy, PartialEq, Eq, Structural)]
pub enum AfcFileMode {
    ReadOnly,
    WriteOnly,
    ReadWrite,
    WriteAppend,
    ReadWriteAppend,
    WriteTruncateAppend,
}

pub open spec fn mode_code(m: AfcFileMode) -> u64 {
    match m {
        AfcFileMode::ReadOnly => 1,
        AfcFileMode::WriteOnly => 2,
        AfcFileMode::ReadWrite => 3,
        AfcFileMode::WriteAppend => 4,
        AfcFileMode::ReadWriteAppend => 5,
        AfcFileMode::WriteTruncateAppend => 6,
    }
}

impl AfcFileMode {
    pub fn code(&self) -> (r: u64)
        ensures
            r == mode_code(*self),
    {
        match self {
            AfcFileMode::ReadOnly => 1,
            AfcFileMode::WriteOnly => 2,
            AfcFileMode::ReadWrite => 3,
            AfcFileMode::WriteAppend => 4,
            AfcFileMode::ReadWriteAppend => 5,
            AfcFileMode::WriteTruncateAppend => 6,
        }
    }
}

/// The UTF-8 bytes of a path, followed by one NUL.
pub open spec fn path_arg(p: Seq<char>) -> Seq<u8> {
    vstd::utf8::encode_utf8(p).push(0u8)
}

/// The payload of `READ_DIR`, `GET_FILE_INFO`, `MAKE_DIR` and `REMOVE_PATH`:
/// the path, NUL-terminated.
pub fn path_payload(path: &str) -> (r: Vec<u8>)
    ensures
        r@ == path_arg(path@),
{
    let mut out: Vec<u8> = Vec::new();
    append_bytes(&mut out, path.as_bytes());
    out.push(0);
    assert(out@ =~= path_arg(path@));
    out
}

/// The payload of `RENAME_PATH`: both paths, each NUL-terminated.
pub fn rename_payload(from: &str, to: &str) -> (r: Vec<u8>)
    ensures
        r@ == path_arg(from@) + path_arg(to@),
{
    let mut out = path_payload(from);
    let tail = path_payload(to);
    append_bytes(&mut out, tail.as_slice());
    out
}

/// The payload of `FILE_REF_OPEN`: the mode as eight little-endian bytes,
/// then the NUL-terminated path.
pub fn open_payload(mode: AfcFileMode, path: &str) -> (r: Vec<u8>)
    ensures
        r@ == u64_le(mode_code(mode)) + path_arg(path@),
{
    let mut out: Vec<u8> = Vec::new();
    push_u64_le(&mut out, mode.code());
    let tail = path_payload(path);
    append_bytes(&mut out, tail.as_slice());
    out
}

/// The payload of `FILE_REF_READ`: the handle, then the number of bytes wanted.
pub fn read_payload(handle: u64, len: u64) -> (r: Vec<u8>)
    ensures
        r@ == u64_le(handle) + u64_le(len),
{
    let mut out: Vec<u8> = Vec::new();
    push_u64_le(&mut out, handle);
    push_u64_le(&mut out, len);
    out
}

/// The payload of `FILE_REF_WRITE`: the handle, then the bytes to write.
pub fn write_payload(handle: u64, data: &[u8]) -> (r: Vec<u8>)
    ensures
        r@ == u64_le(handle) + data@,
{
    let mut out: Vec<u8> = Vec::new();
    push_u64_le(&mut out, handle);
    append_bytes(&mut out, data);
    out
}

/// The payload of `FILE_REF_CLOSE`: the handle.
pub fn close_payload(handle: u64) -> (r: Vec<u8>)
    ensures
        r@ == u64_le(handle),
{
    let mut out: Vec<u8> = Vec::new();
    push_u64_le(&mut out, handle);
    out
}

/// For a path whose UTF-8 bytes hold no NUL, the path payload ends in a NUL
/// and holds no other.
pub proof fn lemma_path_payload_single_nul(p: Seq<char>)
    requires
        !vstd::utf8::encode_utf8(p).contains(0u8),
    ensures
        path_arg(p).last() == 0u8,
        forall|i: int| 0 <= i < path_arg(p).len() - 1 ==> path_arg(p)[i] != 0u8,
{
    let b = vstd::utf8::encode_utf8(p);
    assert forall|i: int| 0 <= i < path_arg(p).len() - 1 implies path_arg(p)[i] != 0u8 by {
        assert(path_arg(p)[i] == b[i]);
    }
}

/// For every mode and path, the open payload is the mode's eight
/// little-endian bytes, the path's bytes, and one NUL, in that order.
pub proof fn lemma_open_payload_layout(mode: AfcFileMode, p: Seq<char>)
    ensures
        ({
            let b = u64_le(mode_code(mode)) + path_arg(p);
            let path = vstd::utf8::encode_utf8(p);
            &&& b.len() == 8 + path.len() + 1
            &&& le_u64_at(b, 0) == mode_code(mode)
            &&& 1 <= mode_code(mode) <= 6
            &&& b.subrange(8, 8 + path.len() as int) == path
            &&& b.last() == 0u8
        }),
{
    let b = u64_le(mode_code(mode)) + path_arg(p);
    let path = vstd::utf8::encode_utf8(p);
    lemma_u64_le_round_trip(mode_code(mode));
    lemma_read_within(b, u64_le(mode_code(mode)), 0, 8);
    assert(b.subrange(8, 8 + path.len() as int) =~= path);
}

/// A packet that sends a path (as `READ_DIR` or `GET_FILE_INFO` does) carries
/// a header whose `entire_length` is 40 plus the path's bytes plus one, and a
/// payload that is the path's bytes and a single NUL, for every path without
/// a NUL that leaves room for the header.
pub proof fn lemma_path_packet(operation: AfcOperations, p: Seq<char>, packet_num: u64)
    requires
        !vstd::utf8::encode_utf8(p).contains(0u8),
        path_arg(p).len() <= u64::MAX - AFC_HEADER_LEN,
    ensures
        ({
            let h = AfcPacketHeader {
                entire_length: (AFC_HEADER_LEN + path_arg(p).len()) as u64,
                this_length: (AFC_HEADER_LEN + path_arg(p).len()) as u64,
                packet_num,
                operation: op_code(operation),
            };
            let bytes = header_bytes(h) + path_arg(p);
            &&& header_at(bytes) == h
            &&& h.entire_length == 40 + vstd::utf8::encode_utf8(p).len() + 1
            &&& bytes.subrange(40, bytes.len() as int) == vstd::utf8::encode_utf8(p).push(0u8)
            &&& bytes.last() == 0u8
            &&& forall|i: int| 40 <= i < bytes.len() - 1 ==> bytes[i] != 0u8
        }),
{
    let h = AfcPacketHeader {
        entire_length: (AFC_HEADER_LEN + path_arg(p).len()) as u64,
        this_length: (AFC_HEADER_LEN + path_arg(p).len()) as u64,
        packet_num,
        operation: op_code(operation),
    };
    let bytes = header_bytes(h) + path_arg(p);
    lemma_header_round_trip(h);
    assert(bytes.subrange(0, 40) =~= header_bytes(h));
    assert(header_at(bytes) == header_at(header_bytes(h)));
    assert(bytes.subrange(40, bytes.len() as int) =~= path_arg(p));
    lemma_path_payload_single_nul(p);
    assert forall|i: int| 40 <= i < bytes.len() - 1 implies bytes[i] != 0u8 by {
        assert(bytes[i] == path_arg(p)[i - 40]);
    }
}

/// The outcome of a reply: the bytes after its header, unless it is a
/// `STATUS` reply whose eight-byte code is not zero, which is a failure; a
/// `STATUS` reply too short to hold a code is refused.
pub open spec fn reply_outcome(operation: u64, payload: Seq<u8>) -> Result<Seq<u8>, IdeviceError> {
    if operation == op_code(AfcOperations::Status) {
        if payload.len() < 8 {
            Err(IdeviceError::UnexpectedResponse)
        } else if le_u64_at(payload, 0) == 0 {
            Ok(payload)
        } else {
            Err(IdeviceError::Afc(afc_error_of(le_u64_at(payload, 0))))
        }
    } else {
        Ok(payload)
    }
}

/// Interprets a reply with header `header` and payload `payload`.
pub fn interpret_reply(header: &AfcPacketHeader, payload: Vec<u8>) -> (r: Result<Vec<u8>, IdeviceError>)
    ensures
        match (r, reply_outcome(header.operation, payload@)) {
            (Ok(b), Ok(s)) => b@ == s,
            (Err(e), Err(f)) => e == f,
            _ => false,
        },
{
    if header.operation == AfcOperations::Status.code() {
        if payload.len() < 8 {
            return Err(IdeviceError::UnexpectedResponse);
        }
        let code = read_u64_le(payload.as_slice(), 0);
        if code == 0 {
            Ok(payload)
        } else {
            Err(IdeviceError::Afc(AfcError::from_code(code)))
        }
    } else {
        Ok(payload)
    }
}

/// An AFC session over the byte stream `S`. It numbers its packets from zero,
/// one more for each packet sent.
pub struct AfcClient<S> {
    pub socket: S,
    pub packet_num: u64,
}

impl<S> AfcClient<S> {
    pub fn new(socket: S) -> (r: Self)
        ensures
            r.socket == socket,
            r.packet_num == 0,
    {
        AfcClient { socket, packet_num: 0 }
    }

    /// The bytes of the next packet, for `operation` with `payload`; the
    /// session's packet number moves on by one.
    pub fn packet(&mut self, operation: AfcOperations, payload: &[u8]) -> (r: Vec<u8>)
        requires
            old(self).packet_num < u64::MAX,
            payload@.len() <= u64::MAX - AFC_HEADER_LEN,
        ensures
            r@ == header_bytes(
                AfcPacketHeader {
                    entire_length: (AFC_HEADER_LEN + payload@.len()) as u64,
                    this_length: (AFC_HEADER_LEN + payload@.len()) as u64,
                    packet_num: old(self).packet_num,
                    operation: op_code(operation),
                },
            ) + payload@,
            final(self).packet_num == old(self).packet_num + 1,
            final(self).socket == old(self).socket,
    {
        let mut header = AfcPacketHeader::new(operation, payload.len() as u64);
        header.packet_num = self.packet_num;
        let mut out = header.serialize();
        append_bytes(&mut out, payload);
        self.packet_num = self.packet_num + 1;
        out
    }
}

/// The pieces of `b` between NUL bytes, in order; a trailing NUL leaves an
/// empty last piece.
pub open spec fn split_nul(b: Seq<u8>) -> Seq<Seq<u8>>
    decreases b.len(),
{
    if b.len() == 0 {
        seq![Seq::empty()]
    } else {
        let init = split_nul(b.drop_last());
        if b.last() == 0 {
            init.push(Seq::empty())
        } else {
            init.update(init.len() - 1, init.last().push(b.last()))
        }
    }
}

pub proof fn lemma_split_nul_len(b: Seq<u8>)
    ensures
        split_nul(b).len() >= 1,
    decreases b.len(),
{
    if b.len() > 0 {
        lemma_split_nul_len(b.drop_last());
    }
}

/// Splits `b` at every NUL byte.
pub fn split_tokens(b: &[u8]) -> (r: Vec<Vec<u8>>)
    ensures
        r@.len() == split_nul(b@).len(),
        forall|i: int| 0 <= i < r@.len() ==> (#[trigger] r@[i])@ == split_nul(b@)[i],
{
    let mut done: Vec<Vec<u8>> = Vec::new();
    let mut cur: Vec<u8> = Vec::new();
    let mut i: usize = 0;
    assert(b@.subrange(0, 0) =~= Seq::<u8>::empty());
    while i < b.len()
        invariant
            0 <= i <= b@.len(),
            split_nul(b@.subrange(0, i as int)).len() == done@.len() + 1,
            forall|j: int| 0 <= j < done@.len() ==> (#[trigger] done@[j])@ == split_nul(b@.subrange(0, i as int))[j],
            cur@ == split_nul(b@.subrange(0, i as int)).last(),
        decreases b@.len() - i,
    {
        let ghost prev = b@.subrange(0, i as int);
        proof {
            lemma_split_nul_len(prev);
        }
        assert(b@.subrange(0, i + 1).drop_last() =~= prev);
        if b[i] == 0 {
            let piece = cur;
            done.push(piece);
            cur = Vec::new();
        } else {
            cur.push(b[i]);
        }
        i = i + 1;
    }
    done.push(cur);
    assert(b@.subrange(0, b@.len() as int) =~= b@);
    done
}

/// The non-empty pieces of `ts`, in order.
pub open spec fn non_empty(ts: Seq<Seq<u8>>) -> Seq<Seq<u8>>
    decreases ts.len(),
{
    if ts.len() == 0 {
        Seq::empty()
    } else if ts.last().len() == 0 {
        non_empty(ts.drop_last())
    } else {
        non_empty(ts.drop_last()).push(ts.last())
    }
}

/// The names of a `READ_DIR` reply: its non-empty NUL-separated pieces, read as text.
pub fn parse_directory_listing(reply: &[u8]) -> (r: Vec<String>)
    ensures
        r@.len() == non_empty(split_nul(reply@)).len(),
        forall|i: int| 0 <= i < r@.len() ==> (#[trigger] r@[i])@ == utf8_lossy(non_empty(split_nul(reply@))[i]),
        forall|i: int|
            0 <= i < r@.len() && vstd::utf8::valid_utf8(non_empty(split_nul(reply@))[i]) ==> (#[trigger] r@[i])@
                == vstd::utf8::decode_utf8(non_empty(split_nul(reply@))[i]),
        forall|i: int| 0 <= i < r@.len() ==> (#[trigger] non_empty(split_nul(reply@))[i]).len() > 0,
        forall|i: int|
            0 <= i < r@.len() && vstd::utf8::valid_utf8(non_empty(split_nul(reply@))[i]) ==> (#[trigger] r@[i])@.len()
                > 0,
{
    let ts = split_tokens(reply);
    let ghost t = split_nul(reply@);
    let mut names: Vec<String> = Vec::new();
    let mut i: usize = 0;
    assert(t.subrange(0, 0) =~= Seq::<Seq<u8>>::empty());
    while i < ts.len()
        invariant
            ts@.len() == t.len(),
            forall|j: int| 0 <= j < ts@.len() ==> (#[trigger] ts@[j])@ == t[j],
            0 <= i <= ts@.len(),
            names@.len() == non_empty(t.subrange(0, i as int)).len(),
            forall|j: int| 0 <= j < names@.len() ==> (#[trigger] names@[j])@ == utf8_lossy(non_empty(t.subrange(0, i as int))[j]),
            forall|j: int|
                0 <= j < names@.len() && vstd::utf8::valid_utf8(non_empty(t.subrange(0, i as int))[j]) ==> (#[trigger] names@[j])@
                    == vstd::utf8::decode_utf8(non_empty(t.subrange(0, i as int))[j]),
            forall|j: int| 0 <= j < names@.len() ==> (#[trigger] non_empty(t.subrange(0, i as int))[j]).len() > 0,
            forall|j: int|
                0 <= j < names@.len() && vstd::utf8::valid_utf8(non_empty(t.subrange(0, i as int))[j]) ==> (#[trigger] names@[j])@.len()
                    > 0,
        decreases ts@.len() - i,
    {
        assert(t.subrange(0, i + 1).drop_last() =~= t.subrange(0, i as int));
        if ts[i].len() > 0 {
            names.push(lossy_text(ts[i].as_slice()));
        }
        i = i + 1;
    }
    assert(t.subrange(0, t.len() as int) =~= t);
    names
}

/// How many pieces of `ts` come before the first empty one.
pub open spec fn before_empty(ts: Seq<Seq<u8>>) -> nat
    decreases ts.len(),
{
    if ts.len() == 0 {
        0
    } else if ts[0].len() == 0 {
        0
    } else {
        1 + before_empty(ts.drop_first())
    }
}

pub proof fn lemma_before_empty(ts: Seq<Seq<u8>>)
    ensures
        before_empty(ts) <= ts.len(),
        forall|j: int| 0 <= j < before_empty(ts) ==> (#[trigger] ts[j]).len() > 0,
        before_empty(ts) < ts.len() ==> ts[before_empty(ts) as int].len() == 0,
    decreases ts.len(),
{
    if ts.len() > 0 && ts[0].len() > 0 {
        lemma_before_empty(ts.drop_first());
        assert forall|j: int| 0 <= j < before_empty(ts) implies (#[trigger] ts[j]).len() > 0 by {
            if j > 0 {
                assert(ts[j] == ts.drop_first()[j - 1]);
            }
        }
    }
}

/// The key/value pairs of a `GET_FILE_INFO` or `GET_DEVICE_INFO` reply: its
/// NUL-separated pieces up to the first empty one, taken two at a time, read
/// as text. An unpaired last key is dropped.
pub fn parse_info(reply: &[u8]) -> (r: Vec<(String, String)>)
    ensures
        ({
            let t = split_nul(reply@);
            let n = before_empty(t);
            &&& r@.len() == n / 2
            &&& forall|k: int|
                0 <= k < r@.len() ==> (#[trigger] r@[k]).0@ == utf8_lossy(t[2 * k]) && r@[k].1@
                    == utf8_lossy(t[2 * k + 1])
            &&& forall|k: int|
                0 <= k < r@.len() ==> (vstd::utf8::valid_utf8(t[2 * k]) ==> (#[trigger] r@[k]).0@
                    == vstd::utf8::decode_utf8(t[2 * k])) && (vstd::utf8::valid_utf8(t[2 * k + 1])
                    ==> r@[k].1@ == vstd::utf8::decode_utf8(t[2 * k + 1]))
            &&& forall|k: int| 0 <= k < 2 * r@.len() ==> (#[trigger] t[k]).len() > 0
        }),
{
    let ts = split_tokens(reply);
    let ghost t = split_nul(reply@);
    proof {
        lemma_before_empty(t);
    }
    let mut n: usize = 0;
    while n < ts.len() && ts[n].len() > 0
        invariant
            ts@.len() == t.len(),
            forall|j: int| 0 <= j < ts@.len() ==> (#[trigger] ts@[j])@ == t[j],
            0 <= n <= before_empty(t),
            before_empty(t) <= t.len(),
            forall|j: int| 0 <= j < before_empty(t) ==> (#[trigger] t[j]).len() > 0,
            before_empty(t) < t.len() ==> t[before_empty(t) as int].len() == 0,
        decreases ts@.len() - n,
    {
        n = n + 1;
    }
    assert(n == before_empty(t));
    let mut info: Vec<(String, String)> = Vec::new();
    let mut k: usize = 0;
    while k < n / 2
        invariant
            ts@.len() == t.len(),
            forall|j: int| 0 <= j < ts@.len() ==> (#[trigger] ts@[j])@ == t[j],
            n <= ts@.len(),
            0 <= k <= n / 2,
            info@.len() == k,
            forall|q: int|
                0 <= q < k ==> (#[trigger] info@[q]).0@ == utf8_lossy(t[2 * q]) && info@[q].1@
                    == utf8_lossy(t[2 * q + 1]),
            forall|q: int|
                0 <= q < k ==> (vstd::utf8::valid_utf8(t[2 * q]) ==> (#[trigger] info@[q]).0@
                    == vstd::utf8::decode_utf8(t[2 * q])) && (vstd::utf8::valid_utf8(t[2 * q + 1])
                    ==> info@[q].1@ == vstd::utf8::decode_utf8(t[2 * q + 1])),
            n == before_empty(t),
            forall|j: int| 0 <= j < before_empty(t) ==> (#[trigger] t[j]).len() > 0,
        decreases n / 2 - k,
    {
        let key = lossy_text(ts[2 * k].as_slice());
        let value = lossy_text(ts[2 * k + 1].as_slice());
        info.push((key, value));
        k = k + 1;
    }
    info
}

} // verus!
