//! Whole-file reads and writes over AFC, as step machines: each step names the
//! next request to send, and each reply moves the machine on. A handle that was
//! opened is closed on every path, the failing ones included.
use vstd::prelude::*;
use vstd::string::StringExecFns;
use crate::afc::{
    AfcFileMode, AfcOperations, close_payload, open_payload, read_payload, write_payload,
    mode_code, path_arg,
};
use crate::bytes::{append_bytes, copy_range, le_u64_at, read_u64_le, u64_le};
use crate::error::IdeviceError;

verus! {

/// The largest piece of a file moved by one read or write request: 64 KiB.
pub const CHUNK_SIZE: u64 = 65536;

/// One request for the session to send.
#[derive(Debug)]
pub struct AfcRequest {
    pub operation: AfcOperations,
    pub payload: Vec<u8>,
}

/// Where a transfer stands.
#[derive(Debug, Clone, Copy, PartialEq, Eq, Structural)]
pub enum TransferPhase {
    Opening,
    /// The file is open under this handle and data moves.
    Moving(u64),
    /// The file is open under this handle and is being closed.
    Closing(u64),
    Finished,
}

/// Reads one file whole, in chunks.
#[derive(Debug)]
pub struct FileRead {
    pub path: String,
    pub phase: TransferPhase,
    pub content: Vec<u8>,
    /// The first failure met; it is reported once the handle is closed.
    pub failure: Option<IdeviceError>,
}

impl FileRead {
    pub fn new(path: String) -> (r: Self)
        ensures
            r.path == path,
            r.phase == TransferPhase::Opening,
            r.content@.len() == 0,
            r.failure.is_none(),
    {
        FileRead { path, phase: TransferPhase::Opening, content: Vec::new(), failure: None }
    }

    /// The request to send next; none once the read is finished.
    pub fn next_request(&self) -> (r: Option<AfcRequest>)
        ensures
            match self.phase {
                TransferPhase::Opening => r matches Some(q) && q.operation == AfcOperations::FileRefOpen
                    && q.payload@ == u64_le(mode_code(AfcFileMode::ReadOnly)) + path_arg(self.path@),
                TransferPhase::Moving(h) => r matches Some(q) && q.operation == AfcOperations::FileRefRead
                    && q.payload@ == u64_le(h) + u64_le(CHUNK_SIZE),
                TransferPhase::Closing(h) => r matches Some(q) && q.operation == AfcOperations::FileRefClose
                    && q.payload@ == u64_le(h),
                TransferPhase::Finished => r is None,
            },
    {
        match self.phase {
            TransferPhase::Opening => Some(
                AfcRequest {
                    operation: AfcOperations::FileRefOpen,
                    payload: open_payload(AfcFileMode::ReadOnly, self.path.as_str()),
                },
            ),
            TransferPhase::Moving(h) => Some(
                AfcRequest { operation: AfcOperations::FileRefRead, payload: read_payload(h, CHUNK_SIZE) },
            ),
            TransferPhase::Closing(h) => Some(
                AfcRequest { operation: AfcOperations::FileRefClose, payload: close_payload(h) },
            ),
            TransferPhase::Finished => None,
        }
    }

    /// Takes the reply to the last request. A chunk shorter than `CHUNK_SIZE`,
    /// an empty one included, ends the reading; a failed read goes on to close
    /// the handle.
    pub fn on_reply(&mut self, reply: Result<Vec<u8>, IdeviceError>)
        requires
            old(self).phase != TransferPhase::Finished,
        ensures
            final(self).path == old(self).path,
            match (old(self).phase, reply) {
                (TransferPhase::Opening, Ok(b)) => if b@.len() >= 8 {
                    &&& final(self).phase == TransferPhase::Moving(le_u64_at(b@, 0))
                    &&& final(self).content == old(self).content
                    &&& final(self).failure == old(self).failure
                } else {
                    &&& final(self).phase == TransferPhase::Finished
                    &&& final(self).failure matches Some(IdeviceError::AfcError(m))
                    &&& m@ == "Failed to open file"@
                },
                (TransferPhase::Opening, Err(e)) => final(self).phase == TransferPhase::Finished
                    && final(self).failure == Some(e),
                (TransferPhase::Moving(h), Ok(c)) => {
                    &&& final(self).content@ == old(self).content@ + c@
                    &&& final(self).failure == old(self).failure
                    &&& final(self).phase == if c@.len() < CHUNK_SIZE {
                        TransferPhase::Closing(h)
                    } else {
                        TransferPhase::Moving(h)
                    }
                },
                (TransferPhase::Moving(h), Err(e)) => final(self).phase == TransferPhase::Closing(h)
                    && final(self).failure == Some(e) && final(self).content == old(self).content,
                (TransferPhase::Closing(_), Ok(_)) => final(self).phase == TransferPhase::Finished
                    && final(self).failure == old(self).failure && final(self).content == old(self).content,
                (TransferPhase::Closing(_), Err(e)) => final(self).phase == TransferPhase::Finished
                    && final(self).content == old(self).content && final(self).failure == match old(
                        self,
                    ).failure {
                        Some(f) => Some(f),
                        None => Some(e),
                    },
                _ => false,
            },
    {
        match self.phase {
            TransferPhase::Opening => match reply {
                Ok(b) => {
                    if b.len() >= 8 {
                        self.phase = TransferPhase::Moving(read_u64_le(b.as_slice(), 0));
                    } else {
                        self.phase = TransferPhase::Finished;
                        self.failure = Some(IdeviceError::AfcError(String::from_str("Failed to open file")));
                    }
                },
                Err(e) => {
                    self.phase = TransferPhase::Finished;
                    self.failure = Some(e);
                },
            },
            TransferPhase::Moving(h) => match reply {
                Ok(c) => {
                    append_bytes(&mut self.content, c.as_slice());
                    if (c.len() as u64) < CHUNK_SIZE {
                        self.phase = TransferPhase::Closing(h);
                    }
                },
                Err(e) => {
                    self.phase = TransferPhase::Closing(h);
                    self.failure = Some(e);
                },
            },
            TransferPhase::Closing(_) => {
                self.phase = TransferPhase::Finished;
                if let Err(e) = reply {
                    if self.failure.is_none() {
                        self.failure = Some(e);
                    }
                }
            },
            TransferPhase::Finished => {},
        }
    }

    /// The file's bytes, or the first failure met.
    pub fn result(self) -> (r: Result<Vec<u8>, IdeviceError>)
        requires
            self.phase == TransferPhase::Finished,
        ensures
            match self.failure {
                Some(e) => r == Err::<Vec<u8>, IdeviceError>(e),
                None => r matches Ok(b) && b@ == self.content@,
            },
    {
        match self.failure {
            Some(e) => Err(e),
            None => Ok(self.content),
        }
    }
}

/// Where the next written chunk ends.
pub open spec fn chunk_end(offset: int, len: int) -> int {
    if offset + CHUNK_SIZE < len {
        offset + CHUNK_SIZE
    } else {
        len
    }
}

/// Writes one file whole, in chunks.
#[derive(Debug)]
pub struct FileWrite {
    pub path: String,
    pub mode: AfcFileMode,
    pub data: Vec<u8>,
    /// How many bytes of `data` the peer has taken.
    pub offset: usize,
    pub phase: TransferPhase,
    pub failure: Option<IdeviceError>,
}

impl FileWrite {
    pub open spec fn wf(&self) -> bool {
        &&& self.offset <= self.data@.len()
        &&& self.phase is Moving ==> self.offset < self.data@.len()
    }

    pub fn new(path: String, mode: AfcFileMode, data: Vec<u8>) -> (r: Self)
        ensures
            r.wf(),
            r.path == path,
            r.mode == mode,
            r.data == data,
            r.offset == 0,
            r.phase == TransferPhase::Opening,
            r.failure.is_none(),
    {
        FileWrite { path, mode, data, offset: 0, phase: TransferPhase::Opening, failure: None }
    }

    /// The request to send next; none once the write is finished.
    pub fn next_request(&self) -> (r: Option<AfcRequest>)
        requires
            self.wf(),
        ensures
            match self.phase {
                TransferPhase::Opening => r matches Some(q) && q.operation == AfcOperations::FileRefOpen
                    && q.payload@ == u64_le(mode_code(self.mode)) + path_arg(self.path@),
                TransferPhase::Moving(h) => r matches Some(q) && q.operation == AfcOperations::FileRefWrite
                    && q.payload@ == u64_le(h) + self.data@.subrange(
                    self.offset as int,
                    chunk_end(self.offset as int, self.data@.len() as int),
                ),
                TransferPhase::Closing(h) => r matches Some(q) && q.operation == AfcOperations::FileRefClose
                    && q.payload@ == u64_le(h),
                TransferPhase::Finished => r is None,
            },
    {
        match self.phase {
            TransferPhase::Opening => Some(
                AfcRequest {
                    operation: AfcOperations::FileRefOpen,
                    payload: open_payload(self.mode, self.path.as_str()),
                },
            ),
            TransferPhase::Moving(h) => {
                let end = self.next_end();
                let piece = copy_range(self.data.as_slice(), self.offset, end);
                Some(
                    AfcRequest {
                        operation: AfcOperations::FileRefWrite,
                        payload: write_payload(h, piece.as_slice()),
                    },
                )
            },
            TransferPhase::Closing(h) => Some(
                AfcRequest { operation: AfcOperations::FileRefClose, payload: close_payload(h) },
            ),
            TransferPhase::Finished => None,
        }
    }

    fn next_end(&self) -> (r: usize)
        requires
            self.wf(),
        ensures
            r == chunk_end(self.offset as int, self.data@.len() as int),
    {
        let left = self.data.len() - self.offset;
        if (left as u64) > CHUNK_SIZE {
            self.offset + CHUNK_SIZE as usize
        } else {
            self.data.len()
        }
    }

    /// Takes the reply to the last request. Once every byte was taken the
    /// handle is closed; a failed write goes on to close it too.
    pub fn on_reply(&mut self, reply: Result<Vec<u8>, IdeviceError>)
        requires
            old(self).wf(),
            old(self).phase != TransferPhase::Finished,
        ensures
            final(self).wf(),
            final(self).path == old(self).path,
            final(self).mode == old(self).mode,
            final(self).data == old(self).data,
            match (old(self).phase, reply) {
                (TransferPhase::Opening, Ok(b)) => if b@.len() >= 8 {
                    &&& final(self).offset == 0
                    &&& final(self).failure == old(self).failure
                    &&& final(self).phase == if old(self).data@.len() == 0 {
                        TransferPhase::Closing(le_u64_at(b@, 0))
                    } else {
                        TransferPhase::Moving(le_u64_at(b@, 0))
                    }
                } else {
                    &&& final(self).phase == TransferPhase::Finished
                    &&& final(self).failure matches Some(IdeviceError::AfcError(m))
                    &&& m@ == "Failed to open file for writing"@
                },
                (TransferPhase::Opening, Err(e)) => final(self).phase == TransferPhase::Finished
                    && final(self).failure == Some(e),
                (TransferPhase::Moving(h), Ok(_)) => {
                    &&& final(self).offset == chunk_end(old(self).offset as int, old(self).data@.len() as int)
                    &&& final(self).failure == old(self).failure
                    &&& final(self).phase == if final(self).offset == old(self).data@.len() {
                        TransferPhase::Closing(h)
                    } else {
                        TransferPhase::Moving(h)
                    }
                },
                (TransferPhase::Moving(h), Err(e)) => final(self).phase == TransferPhase::Closing(h)
                    && final(self).failure == Some(e),
                (TransferPhase::Closing(_), Ok(_)) => final(self).phase == TransferPhase::Finished
                    && final(self).failure == old(self).failure,
                (TransferPhase::Closing(_), Err(e)) => final(self).phase == TransferPhase::Finished
                    && final(self).failure == match old(self).failure {
                        Some(f) => Some(f),
                        None => Some(e),
                    },
                _ => false,
            },
    {
        match self.phase {
            TransferPhase::Opening => match reply {
                Ok(b) => {
                    if b.len() >= 8 {
                        let h = read_u64_le(b.as_slice(), 0);
                        self.offset = 0;
                        if self.data.len() == 0 {
                            self.phase = TransferPhase::Closing(h);
                        } else {
                            self.phase = TransferPhase::Moving(h);
                        }
                    } else {
                        self.phase = TransferPhase::Finished;
                        self.failure = Some(
                            IdeviceError::AfcError(String::from_str("Failed to open file for writing")),
                        );
                    }
                },
                Err(e) => {
                    self.phase = TransferPhase::Finished;
                    self.failure = Some(e);
                },
            },
            TransferPhase::Moving(h) => match reply {
                Ok(_) => {
                    let end = self.next_end();
                    self.offset = end;
                    if end == self.data.len() {
                        self.phase = TransferPhase::Closing(h);
                    }
                },
                Err(e) => {
                    self.phase = TransferPhase::Closing(h);
                    self.failure = Some(e);
                },
            },
            TransferPhase::Closing(_) => {
                self.phase = TransferPhase::Finished;
                if let Err(e) = reply {
                    if self.failure.is_none() {
                        self.failure = Some(e);
                    }
                }
            },
            TransferPhase::Finished => {},
        }
    }

    /// `Ok` once every byte was written and the handle closed; else the first failure.
    pub fn result(self) -> (r: Result<(), IdeviceError>)
        requires
            self.phase == TransferPhase::Finished,
        ensures
            match self.failure {
                Some(e) => r == Err::<(), IdeviceError>(e),
                None => r is Ok,
            },
    {
        match self.failure {
            Some(e) => Err(e),
            None => Ok(()),
        }
    }
}

} // verus!
