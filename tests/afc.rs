use std::collections::HashMap;

use idevice::afc::{
    interpret_reply, open_payload, parse_directory_listing, parse_info, path_payload, rename_payload,
    split_tokens, AfcClient, AfcFileMode, AfcOperations, AfcPacketHeader,
};
use idevice::afc_file::{AfcRequest, FileRead, FileWrite, TransferPhase, CHUNK_SIZE};
use idevice::error::{AfcError, IdeviceError};
use idevice::house_arrest::{HouseArrestClient, VendKind};

#[test]
fn afc_header_round_trip() {
    for (op, len) in [(AfcOperations::ReadDir, 0u64), (AfcOperations::FileRefWrite, 65536), (AfcOperations::Status, 8)] {
        let h = AfcPacketHeader::new(op, len);
        let b = h.serialize();
        assert_eq!(b.len(), 40);
        assert_eq!(&b[32..40], &[0u8; 8]);
        let back = AfcPacketHeader::deserialize(&b).unwrap();
        assert_eq!(back, h);
        assert_eq!(back.entire_length, 40 + len);
        assert_eq!(back.this_length, 40 + len);
        assert_eq!(back.payload_len(), Ok(len));
    }
    assert_eq!(AfcPacketHeader::deserialize(&[0u8; 39]), Err(IdeviceError::UnexpectedResponse));
    let h = AfcPacketHeader::new(AfcOperations::GetFileInfo, 3);
    assert_eq!(h.operation, 0x0a);
    assert_eq!(&h.serialize()[0..8], &43u64.to_le_bytes());
}

#[test]
fn afc_path_payload_single_nul() {
    for p in ["/", "/tmp/x", "/Documents/résumé.txt", ""] {
        let b = path_payload(p);
        assert_eq!(b.len(), p.len() + 1);
        assert_eq!(*b.last().unwrap(), 0);
        assert_eq!(b.iter().filter(|&&x| x == 0).count(), 1);
        assert_eq!(&b[..p.len()], p.as_bytes());
    }
    assert_eq!(rename_payload("a", "bc"), b"a\0bc\0".to_vec());
}

#[test]
fn afc_open_mode_layout() {
    let modes = [
        (AfcFileMode::ReadOnly, 1u64),
        (AfcFileMode::WriteOnly, 2),
        (AfcFileMode::ReadWrite, 3),
        (AfcFileMode::WriteAppend, 4),
        (AfcFileMode::ReadWriteAppend, 5),
        (AfcFileMode::WriteTruncateAppend, 6),
    ];
    for (m, code) in modes {
        let b = open_payload(m, "/tmp/x");
        let mut want = code.to_le_bytes().to_vec();
        want.extend_from_slice(b"/tmp/x\0");
        assert_eq!(b, want);
        assert_eq!(m.code(), code);
    }
}

fn reply_ok(data: Vec<u8>) -> Result<Vec<u8>, IdeviceError> {
    Ok(data)
}

#[test]
fn afc_chunked_read_termination() {
    let mut r = FileRead::new("/big".to_string());
    let open = r.next_request().unwrap();
    assert_eq!(open.operation, AfcOperations::FileRefOpen);
    assert_eq!(open.payload, open_payload(AfcFileMode::ReadOnly, "/big"));
    r.on_reply(reply_ok(9u64.to_le_bytes().to_vec()));
    let mut requests = 0;
    let chunks = [65536usize, 65536, 1000];
    for size in chunks {
        let q = r.next_request().unwrap();
        assert_eq!(q.operation, AfcOperations::FileRefRead);
        let mut want = 9u64.to_le_bytes().to_vec();
        want.extend_from_slice(&CHUNK_SIZE.to_le_bytes());
        assert_eq!(q.payload, want);
        requests += 1;
        r.on_reply(reply_ok(vec![7u8; size]));
    }
    assert_eq!(requests, 3);
    assert_eq!(r.phase, TransferPhase::Closing(9));
    let close = r.next_request().unwrap();
    assert_eq!(close.operation, AfcOperations::FileRefClose);
    assert_eq!(close.payload, 9u64.to_le_bytes().to_vec());
    r.on_reply(reply_ok(vec![]));
    assert!(r.next_request().is_none());
    let content = r.result().unwrap();
    assert_eq!(content.len(), 2 * 65536 + 1000);
}

#[test]
fn afc_read_failure_still_closes() {
    let mut r = FileRead::new("/f".to_string());
    r.on_reply(reply_ok(5u64.to_le_bytes().to_vec()));
    r.on_reply(Err(IdeviceError::Afc(AfcError::ReadError)));
    assert_eq!(r.phase, TransferPhase::Closing(5));
    assert_eq!(r.next_request().unwrap().operation, AfcOperations::FileRefClose);
    r.on_reply(reply_ok(vec![]));
    assert_eq!(r.result(), Err(IdeviceError::Afc(AfcError::ReadError)));
    let mut short = FileRead::new("/f".to_string());
    short.on_reply(reply_ok(vec![1, 2]));
    assert_eq!(short.phase, TransferPhase::Finished);
    assert_eq!(short.result(), Err(IdeviceError::AfcError("Failed to open file".to_string())));
}

#[test]
fn afc_status_codes() {
    let mut seen = Vec::new();
    for code in (1u64..=23).chain(30..=33) {
        let e = AfcError::from_code(code);
        assert!(!matches!(e, AfcError::Code(_)));
        assert_eq!(e.code(), code);
        assert!(!seen.contains(&e));
        seen.push(e);
    }
    assert_eq!(AfcError::from_code(8), AfcError::ObjectNotFound);
    assert_eq!(AfcError::from_code(33), AfcError::DirNotEmpty);
    assert_eq!(AfcError::from_code(99), AfcError::Code(99));
    assert_eq!(AfcError::from_code(99).code(), 99);
    let status = AfcPacketHeader::new(AfcOperations::Status, 8);
    assert_eq!(interpret_reply(&status, 0u64.to_le_bytes().to_vec()), Ok(vec![0u8; 8]));
    assert_eq!(interpret_reply(&status, 10u64.to_le_bytes().to_vec()), Err(IdeviceError::Afc(AfcError::PermDenied)));
    assert_eq!(interpret_reply(&status, vec![1]), Err(IdeviceError::UnexpectedResponse));
    let data = AfcPacketHeader::new(AfcOperations::Data, 3);
    assert_eq!(interpret_reply(&data, vec![1, 2, 3]), Ok(vec![1, 2, 3]));
}

#[test]
fn afc_listing_and_info() {
    assert_eq!(split_tokens(b"a\0bc\0"), vec![b"a".to_vec(), b"bc".to_vec(), vec![]]);
    assert_eq!(split_tokens(b""), vec![Vec::<u8>::new()]);
    assert_eq!(parse_directory_listing(b".\0..\0x.txt\0"), vec![".", "..", "x.txt"]);
    assert_eq!(parse_directory_listing(b"ok\0\xff\0"), vec!["ok".to_string(), "\u{fffd}".to_string()]);
    let info = parse_info(b"st_size\x0012\0st_ifmt\0S_IFREG\0\0ignored\0x\0");
    assert_eq!(info, vec![("st_size".to_string(), "12".to_string()), ("st_ifmt".to_string(), "S_IFREG".to_string())]);
    assert_eq!(parse_info(b"k\0v\0lonely\0"), vec![("k".to_string(), "v".to_string())]);
}

#[test]
fn afc_session_numbers_packets() {
    let mut c = AfcClient::new(());
    let p0 = c.packet(AfcOperations::ReadDir, &path_payload("/"));
    let p1 = c.packet(AfcOperations::ReadDir, &path_payload("/"));
    assert_eq!(c.packet_num, 2);
    assert_eq!(AfcPacketHeader::deserialize(&p0).unwrap().packet_num, 0);
    assert_eq!(AfcPacketHeader::deserialize(&p1).unwrap().packet_num, 1);
    assert_eq!(&p0[40..], b"/\0");
}

/// An in-memory AFC peer that keeps files by path.
struct FakeDevice {
    files: HashMap<String, Vec<u8>>,
    open: HashMap<u64, (String, u64)>,
    next_handle: u64,
}

impl FakeDevice {
    fn serve(&mut self, q: &AfcRequest) -> Result<Vec<u8>, IdeviceError> {
        let p = &q.payload;
        match q.operation {
            AfcOperations::FileRefOpen => {
                let mode = u64::from_le_bytes(p[0..8].try_into().unwrap());
                let path = String::from_utf8(p[8..p.len() - 1].to_vec()).unwrap();
                if mode == 1 && !self.files.contains_key(&path) {
                    return Err(IdeviceError::Afc(AfcError::ObjectNotFound));
                }
                if mode == 3 {
                    self.files.insert(path.clone(), Vec::new());
                }
                self.next_handle += 1;
                self.open.insert(self.next_handle, (path, 0));
                Ok(self.next_handle.to_le_bytes().to_vec())
            }
            AfcOperations::FileRefWrite => {
                let h = u64::from_le_bytes(p[0..8].try_into().unwrap());
                let (path, _) = self.open.get(&h).unwrap().clone();
                self.files.get_mut(&path).unwrap().extend_from_slice(&p[8..]);
                Ok(vec![])
            }
            AfcOperations::FileRefRead => {
                let h = u64::from_le_bytes(p[0..8].try_into().unwrap());
                let want = u64::from_le_bytes(p[8..16].try_into().unwrap()) as usize;
                let (path, pos) = self.open.get(&h).unwrap().clone();
                let data = &self.files[&path];
                let start = (pos as usize).min(data.len());
                let end = (start + want).min(data.len());
                self.open.insert(h, (path.clone(), end as u64));
                Ok(data[start..end].to_vec())
            }
            AfcOperations::FileRefClose => {
                let h = u64::from_le_bytes(p[0..8].try_into().unwrap());
                self.open.remove(&h);
                Ok(vec![])
            }
            _ => Err(IdeviceError::Afc(AfcError::OpNotSupported)),
        }
    }
}

#[test]
fn afc_write_then_read_round_trip() {
    let mut dev = FakeDevice { files: HashMap::new(), open: HashMap::new(), next_handle: 0 };
    let mut w = FileWrite::new("/tmp/x".to_string(), AfcFileMode::ReadWrite, b"hello".to_vec());
    let mut writes = 0;
    while let Some(q) = w.next_request() {
        if q.operation == AfcOperations::FileRefOpen {
            assert_eq!(&q.payload[0..8], &3u64.to_le_bytes());
        }
        if q.operation == AfcOperations::FileRefWrite {
            writes += 1;
        }
        let r = dev.serve(&q);
        w.on_reply(r);
    }
    assert_eq!(writes, 1);
    assert_eq!(w.result(), Ok(()));
    assert!(dev.open.is_empty());
    let mut r = FileRead::new("/tmp/x".to_string());
    while let Some(q) = r.next_request() {
        let rep = dev.serve(&q);
        r.on_reply(rep);
    }
    assert!(dev.open.is_empty());
    assert_eq!(r.result(), Ok(b"hello".to_vec()));
}

#[test]
fn afc_write_in_chunks() {
    let mut dev = FakeDevice { files: HashMap::new(), open: HashMap::new(), next_handle: 0 };
    let data: Vec<u8> = (0..150_000u32).map(|i| (i % 251) as u8).collect();
    let mut w = FileWrite::new("/big".to_string(), AfcFileMode::ReadWrite, data.clone());
    let mut sizes = Vec::new();
    while let Some(q) = w.next_request() {
        if q.operation == AfcOperations::FileRefWrite {
            sizes.push(q.payload.len() - 8);
        }
        let r = dev.serve(&q);
        w.on_reply(r);
    }
    assert_eq!(sizes, vec![65536, 65536, 150_000 - 2 * 65536]);
    assert_eq!(dev.files["/big"], data);
    let mut missing = FileRead::new("/nope".to_string());
    while let Some(q) = missing.next_request() {
        let r = dev.serve(&q);
        missing.on_reply(r);
    }
    assert_eq!(missing.result(), Err(IdeviceError::Afc(AfcError::ObjectNotFound)));
}

#[test]
fn house_arrest_handoff_speaks_afc() {
    let ha = HouseArrestClient::new(vec![0u8; 0]);
    let _req = ha.vend_request(VendKind::Documents, "com.example.app");
    let mut afc = ha.into_afc();
    assert_eq!(afc.packet_num, 0);
    let payload = path_payload("/");
    let first = afc.packet(AfcOperations::ReadDir, &payload);
    assert_eq!(&first[0..8], &(40u64 + payload.len() as u64).to_le_bytes());
    assert_ne!(&first[0..4], &(payload.len() as u32).to_be_bytes());
}
