//! Length-prefixed property-list messages: a 32-bit big-endian length, then the body.
use vstd::prelude::*;
use crate::bytes::{append_bytes, be_u32_at, lemma_read_within, lemma_u32_be_round_trip, push_u32_be, read_u32_be, u32_be, copy_range};
use crate::error::IdeviceError;

verus! {

/// The largest body a framed message may announce: 64 MiB.
pub const MAX_PLIST_LEN: u32 = 67108864;

/// How a property-list body is encoded, told by its first bytes.
#[derive(Debug, Clone, Copy, PartialEq, Eq, Structural)]
pub enum PlistEncoding {
    /// Starts with `bplist00`.
    Binary,
    /// Starts with `<?xml`.
    Xml,
}

pub open spec fn starts_with(s: Seq<u8>, prefix: Seq<u8>) -> bool {
    prefix.len() <= s.len() && s.subrange(0, prefix.len() as int) == prefix
}

pub open spec fn binary_magic() -> Seq<u8> {
    seq![0x62u8, 0x70, 0x6c, 0x69, 0x73, 0x74, 0x30, 0x30]
}

pub open spec fn xml_magic() -> Seq<u8> {
    seq![0x3cu8, 0x3f, 0x78, 0x6d, 0x6c]
}

/// The encoding that `body` announces, if any.
pub open spec fn encoding_of(body: Seq<u8>) -> Option<PlistEncoding> {
    if starts_with(body, binary_magic()) {
        Some(PlistEncoding::Binary)
    } else if starts_with(body, xml_magic()) {
        Some(PlistEncoding::Xml)
    } else {
        None
    }
}

/// The framed message that carries `body`.
pub open spec fn plist_frame(body: Seq<u8>) -> Seq<u8> {
    u32_be(body.len() as u32) + body
}

/// The body that a complete framed message carries, or the error that it is refused with.
pub open spec fn plist_unframe(frame: Seq<u8>) -> Result<Seq<u8>, IdeviceError> {
    if frame.len() < 4 {
        Err(IdeviceError::UnexpectedResponse)
    } else if be_u32_at(frame, 0) > MAX_PLIST_LEN {
        Err(IdeviceError::PlistMalformed)
    } else if frame.len() != 4 + be_u32_at(frame, 0) {
        Err(IdeviceError::UnexpectedResponse)
    } else {
        Ok(frame.subrange(4, frame.len() as int))
    }
}

fn has_prefix(s: &[u8], prefix: &[u8]) -> (r: bool)
    ensures
        r == starts_with(s@, prefix@),
{
    if prefix.len() > s.len() {
        return false;
    }
    let mut i: usize = 0;
    while i < prefix.len()
        invariant
            prefix@.len() <= s@.len(),
            0 <= i <= prefix@.len(),
            forall|j: int| 0 <= j < i ==> s@[j] == prefix@[j],
        decreases prefix@.len() - i,
    {
        if s[i] != prefix[i] {
            assert(s@.subrange(0, prefix@.len() as int)[i as int] != prefix@[i as int]);
            return false;
        }
        i = i + 1;
    }
    assert(s@.subrange(0, prefix@.len() as int) =~= prefix@);
    true
}

/// Tells a binary body from an XML one by its leading bytes.
pub fn plist_encoding(body: &[u8]) -> (r: Option<PlistEncoding>)
    ensures
        r == encoding_of(body@),
{
    let binary: [u8; 8] = [0x62, 0x70, 0x6c, 0x69, 0x73, 0x74, 0x30, 0x30];
    let xml: [u8; 5] = [0x3c, 0x3f, 0x78, 0x6d, 0x6c];
    assert(binary@ =~= binary_magic());
    assert(xml@ =~= xml_magic());
    if has_prefix(body, binary.as_slice()) {
        Some(PlistEncoding::Binary)
    } else if has_prefix(body, xml.as_slice()) {
        Some(PlistEncoding::Xml)
    } else {
        None
    }
}

/// Frames `body`: its length as four big-endian bytes, then the body itself.
pub fn encode_plist_frame(body: &[u8]) -> (r: Vec<u8>)
    requires
        body@.len() <= MAX_PLIST_LEN,
    ensures
        r@ == plist_frame(body@),
{
    let mut out: Vec<u8> = Vec::new();
    push_u32_be(&mut out, body.len() as u32);
    append_bytes(&mut out, body);
    out
}

/// The body length that a four-byte prefix announces.
pub fn plist_frame_len(prefix: &[u8]) -> (r: Result<usize, IdeviceError>)
    requires
        prefix@.len() >= 4,
    ensures
        match r {
            Ok(n) => be_u32_at(prefix@, 0) <= MAX_PLIST_LEN && n == be_u32_at(prefix@, 0),
            Err(e) => be_u32_at(prefix@, 0) > MAX_PLIST_LEN && e == IdeviceError::PlistMalformed,
        },
{
    let n = read_u32_be(prefix, 0);
    if n > MAX_PLIST_LEN {
        Err(IdeviceError::PlistMalformed)
    } else {
        Ok(n as usize)
    }
}

/// The body of one complete framed message.
pub fn decode_plist_frame(frame: &[u8]) -> (r: Result<Vec<u8>, IdeviceError>)
    ensures
        match (r, plist_unframe(frame@)) {
            (Ok(b), Ok(s)) => b@ == s,
            (Err(e), Err(f)) => e == f,
            _ => false,
        },
{
    if frame.len() < 4 {
        return Err(IdeviceError::UnexpectedResponse);
    }
    let n = plist_frame_len(frame)?;
    if frame.len() - 4 != n {
        return Err(IdeviceError::UnexpectedResponse);
    }
    Ok(copy_range(frame, 4, frame.len()))
}

/// Unframing a framed body gives the body back.
pub proof fn lemma_plist_frame_round_trip(body: Seq<u8>)
    requires
        body.len() <= MAX_PLIST_LEN,
    ensures
        plist_unframe(plist_frame(body)) == Ok::<Seq<u8>, IdeviceError>(body),
{
    let f = plist_frame(body);
    lemma_u32_be_round_trip(body.len() as u32);
    lemma_read_within(f, u32_be(body.len() as u32), 0, 4);
    assert(f.subrange(4, f.len() as int) =~= body);
}

} // verus!
