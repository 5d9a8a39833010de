//! The multiplexer's control protocol: packet framing, requests, and the replies'
//! interpretation.
use vstd::prelude::*;
use vstd::string::StringExecFns;
use crate::bytes::{
    append_bytes, copy_range, le_u32_at, lemma_read_within, lemma_u32_le_round_trip, push_u32_le,
    read_u32_le, u32_le,
};
use crate::error::IdeviceError;
use crate::plist_value::{PlistValue, dict_entries, entry_text, entry_value, text_entry, value_entry};
use crate::text::str_eq;

verus! {

pub const BINARY_PLIST_VERSION: u32 = 0;
pub const XML_PLIST_VERSION: u32 = 1;
pub const RESULT_MESSAGE_TYPE: u32 = 1;
pub const PLIST_MESSAGE_TYPE: u32 = 8;
pub const MUX_HEADER_LEN: u32 = 16;

/// The 16-byte header of a multiplexer packet.
#[derive(Debug, Clone, Copy, PartialEq, Eq, Structural)]
pub struct MuxHeader {
    /// The whole packet's length, header included.
    pub length: u32,
    pub version: u32,
    pub message_type: u32,
    pub tag: u32,
}

/// The packet that carries `body` as an XML property list under `tag`.
pub open spec fn mux_packet(body: Seq<u8>, tag: u32) -> Seq<u8> {
    u32_le((16 + body.len()) as u32) + u32_le(XML_PLIST_VERSION) + u32_le(PLIST_MESSAGE_TYPE)
        + u32_le(tag) + body
}

/// The header and body of a complete packet, or the error that it is refused with.
pub open spec fn mux_unpacket(p: Seq<u8>) -> Result<(MuxHeader, Seq<u8>), IdeviceError> {
    if p.len() < 16 || le_u32_at(p, 0) != p.len() {
        Err(IdeviceError::UnexpectedResponse)
    } else {
        Ok(
            (
                MuxHeader {
                    length: le_u32_at(p, 0),
                    version: le_u32_at(p, 4),
                    message_type: le_u32_at(p, 8),
                    tag: le_u32_at(p, 12),
                },
                p.subrange(16, p.len() as int),
            ),
        )
    }
}

/// Builds the packet that carries the XML property list `body` under `tag`.
pub fn encode_mux_packet(body: &[u8], tag: u32) -> (r: Vec<u8>)
    requires
        body@.len() <= u32::MAX - 16,
    ensures
        r@ == mux_packet(body@, tag),
{
    let mut out: Vec<u8> = Vec::new();
    push_u32_le(&mut out, 16 + body.len() as u32);
    push_u32_le(&mut out, XML_PLIST_VERSION);
    push_u32_le(&mut out, PLIST_MESSAGE_TYPE);
    push_u32_le(&mut out, tag);
    append_bytes(&mut out, body);
    out
}

impl MuxHeader {
    /// Reads a header from the first 16 bytes of `b`.
    pub fn parse(b: &[u8]) -> (r: MuxHeader)
        requires
            b@.len() >= 16,
        ensures
            r == (MuxHeader {
                length: le_u32_at(b@, 0),
                version: le_u32_at(b@, 4),
                message_type: le_u32_at(b@, 8),
                tag: le_u32_at(b@, 12),
            }),
    {
        MuxHeader {
            length: read_u32_le(b, 0),
            version: read_u32_le(b, 4),
            message_type: read_u32_le(b, 8),
            tag: read_u32_le(b, 12),
        }
    }

    /// How many body bytes follow this header.
    pub fn body_len(&self) -> (r: Result<usize, IdeviceError>)
        ensures
            match r {
                Ok(n) => self.length >= 16 && n == self.length - 16,
                Err(e) => self.length < 16 && e == IdeviceError::UnexpectedResponse,
            },
    {
        if self.length < MUX_HEADER_LEN {
            Err(IdeviceError::UnexpectedResponse)
        } else {
            Ok((self.length - MUX_HEADER_LEN) as usize)
        }
    }
}

/// Splits one complete packet into its header and body.
pub fn decode_mux_packet(p: &[u8]) -> (r: Result<(MuxHeader, Vec<u8>), IdeviceError>)
    ensures
        match (r, mux_unpacket(p@)) {
            (Ok((h, b)), Ok((sh, sb))) => h == sh && b@ == sb,
            (Err(e), Err(f)) => e == f,
            _ => false,
        },
{
    if p.len() < 16 {
        return Err(IdeviceError::UnexpectedResponse);
    }
    let h = MuxHeader::parse(p);
    if h.length as usize != p.len() {
        return Err(IdeviceError::UnexpectedResponse);
    }
    Ok((h, copy_range(p, 16, p.len())))
}

/// Decoding an encoded packet gives back the body, the XML version, the
/// property-list message type, the tag, and a length of 16 plus the body's.
pub proof fn lemma_mux_packet_round_trip(body: Seq<u8>, tag: u32)
    requires
        body.len() <= u32::MAX - 16,
    ensures
        mux_unpacket(mux_packet(body, tag)) == Ok::<(MuxHeader, Seq<u8>), IdeviceError>(
            (
                MuxHeader {
                    length: (16 + body.len()) as u32,
                    version: XML_PLIST_VERSION,
                    message_type: PLIST_MESSAGE_TYPE,
                    tag,
                },
                body,
            ),
        ),
{
    let p = mux_packet(body, tag);
    let len = (16 + body.len()) as u32;
    lemma_u32_le_round_trip(len);
    lemma_u32_le_round_trip(XML_PLIST_VERSION);
    lemma_u32_le_round_trip(PLIST_MESSAGE_TYPE);
    lemma_u32_le_round_trip(tag);
    lemma_read_within(p, u32_le(len), 0, 4);
    lemma_read_within(p.subrange(4, p.len() as int), u32_le(XML_PLIST_VERSION), 0, 4);
    assert forall|i: int| 0 <= i < 4 implies p[4 + i] == u32_le(XML_PLIST_VERSION)[i] by {}
    assert forall|i: int| 0 <= i < 4 implies p[8 + i] == u32_le(PLIST_MESSAGE_TYPE)[i] by {}
    assert forall|i: int| 0 <= i < 4 implies p[12 + i] == u32_le(tag)[i] by {}
    lemma_read_within(p, u32_le(XML_PLIST_VERSION), 4, 4);
    lemma_read_within(p, u32_le(PLIST_MESSAGE_TYPE), 8, 4);
    lemma_read_within(p, u32_le(tag), 12, 4);
    assert(p.subrange(16, p.len() as int) =~= body);
}

/// An IP address of a network-attached device.
#[derive(Debug, Clone, Copy, PartialEq, Eq)]
pub enum IpAddress {
    V4([u8; 4]),
    /// Eight 16-bit groups.
    V6([u16; 8]),
}

/// How a device is attached.
#[derive(Debug, Clone, PartialEq, Eq)]
pub enum Connection {
    Usb,
    Network(IpAddress),
    Unknown(String),
}

/// A device that the multiplexer lists.
#[derive(Debug, Clone, PartialEq, Eq)]
pub struct UsbmuxdDevice {
    pub connection_type: Connection,
    pub udid: String,
    /// The identifier that the multiplexer gave the device for this session.
    pub device_id: u32,
}

/// The upper-case hexadecimal digit for `n`.
pub open spec fn hex_char(n: u8) -> char {
    if n < 10 {
        (n + 48) as char
    } else {
        (n + 55) as char
    }
}

/// The two upper-case hexadecimal digits of `b`.
pub open spec fn hex_text(b: u8) -> Seq<char> {
    seq![hex_char(b / 16), hex_char(b % 16)]
}

/// The address bytes that a network entry carries, if they are data.
pub open spec fn address_bytes(props: PlistValue) -> Option<Seq<u8>> {
    match props.field("NetworkAddress"@) {
        Some(PlistValue::Data(d)) => Some(d@),
        _ => None,
    }
}

/// Whether a device's `Properties` can be read as a connection.
pub open spec fn connection_ok(props: PlistValue) -> bool {
    &&& props.text_field("ConnectionType"@) is Some
    &&& props.text_field("ConnectionType"@) == Some("Network"@) ==> match address_bytes(props) {
        Some(a) => a.len() >= 8 && (a[0] == 0x1e ==> a.len() >= 24),
        None => false,
    }
}

/// Whether `c` is the connection that `props` describes.
pub open spec fn connection_matches(c: Connection, props: PlistValue) -> bool {
    let kind = props.text_field("ConnectionType"@).unwrap();
    if kind == "Network"@ {
        let a = address_bytes(props).unwrap();
        if a[0] == 0x02 {
            match c {
                Connection::Network(IpAddress::V4(x)) => x@ == a.subrange(4, 8),
                _ => false,
            }
        } else if a[0] == 0x1e {
            match c {
                Connection::Network(IpAddress::V6(x)) => forall|k: int|
                    0 <= k < 8 ==> #[trigger] x@[k] == (a[8 + 2 * k] as u16) * 256 + (a[9 + 2 * k] as u16),
                _ => false,
            }
        } else {
            match c {
                Connection::Unknown(t) => t@ == "Network "@ + hex_text(a[0]),
                _ => false,
            }
        }
    } else if kind == "USB"@ {
        c is Usb
    } else {
        match c {
            Connection::Unknown(t) => t@ == kind,
            _ => false,
        }
    }
}

/// Whether one `DeviceList` entry can be read as a device.
pub open spec fn device_entry_ok(entry: PlistValue) -> bool {
    &&& entry.field("DeviceID"@) matches Some(PlistValue::Integer(i)) && 0 <= i <= u32::MAX
    &&& entry.field("Properties"@) matches Some(props) && props.text_field("SerialNumber"@) is Some
        && connection_ok(props)
}

/// Whether `d` is the device that the entry describes.
pub open spec fn device_matches(d: UsbmuxdDevice, entry: PlistValue) -> bool {
    let props = entry.field("Properties"@).unwrap();
    &&& entry.field("DeviceID"@) == Some(PlistValue::Integer(d.device_id as i128))
    &&& props.text_field("SerialNumber"@) == Some(d.udid@)
    &&& connection_matches(d.connection_type, props)
}

/// The `DeviceList` array of a reply, if it has one.
pub open spec fn device_list(response: PlistValue) -> Option<Seq<PlistValue>> {
    match response.field("DeviceList"@) {
        Some(PlistValue::Array(a)) => Some(a@),
        _ => None,
    }
}

/// Whether a `ListDevices` reply can be read whole.
pub open spec fn device_list_ok(response: PlistValue) -> bool {
    match device_list(response) {
        Some(l) => forall|i: int| 0 <= i < l.len() ==> device_entry_ok(#[trigger] l[i]),
        None => false,
    }
}

fn hex_digit(n: u8) -> (r: &'static str)
    requires
        n < 16,
    ensures
        r@ == seq![hex_char(n)],
{
    proof {
        reveal_strlit("0");
        reveal_strlit("1");
        reveal_strlit("2");
        reveal_strlit("3");
        reveal_strlit("4");
        reveal_strlit("5");
        reveal_strlit("6");
        reveal_strlit("7");
        reveal_strlit("8");
        reveal_strlit("9");
        reveal_strlit("A");
        reveal_strlit("B");
        reveal_strlit("C");
        reveal_strlit("D");
        reveal_strlit("E");
        reveal_strlit("F");
    }
    let r = match n {
        0 => "0",
        1 => "1",
        2 => "2",
        3 => "3",
        4 => "4",
        5 => "5",
        6 => "6",
        7 => "7",
        8 => "8",
        9 => "9",
        10 => "A",
        11 => "B",
        12 => "C",
        13 => "D",
        14 => "E",
        _ => "F",
    };
    assert(r@ =~= seq![hex_char(n)]);
    r
}

fn unknown_network(family: u8) -> (r: String)
    ensures
        r@ == "Network "@ + hex_text(family),
{
    let mut t = String::from_str("Network ");
    t.append(hex_digit(family / 16));
    t.append(hex_digit(family % 16));
    assert(t@ =~= "Network "@ + hex_text(family));
    t
}

fn read_connection(props: &PlistValue) -> (r: Result<Connection, IdeviceError>)
    ensures
        match r {
            Ok(c) => connection_ok(*props) && connection_matches(c, *props),
            Err(e) => !connection_ok(*props) && e == IdeviceError::UnexpectedResponse,
        },
{
    let kind = match props.get_text("ConnectionType") {
        Some(k) => k,
        None => return Err(IdeviceError::UnexpectedResponse),
    };
    if str_eq(kind.as_str(), "Network") {
        let a = match props.get("NetworkAddress") {
            Some(PlistValue::Data(d)) => d,
            _ => return Err(IdeviceError::UnexpectedResponse),
        };
        if a.len() < 8 {
            return Err(IdeviceError::UnexpectedResponse);
        }
        if a[0] == 0x02 {
            let x: [u8; 4] = [a[4], a[5], a[6], a[7]];
            assert(x@ =~= a@.subrange(4, 8));
            Ok(Connection::Network(IpAddress::V4(x)))
        } else if a[0] == 0x1e {
            if a.len() < 24 {
                return Err(IdeviceError::UnexpectedResponse);
            }
            let x: [u16; 8] = [
                (a[8] as u16) * 256 + a[9] as u16,
                (a[10] as u16) * 256 + a[11] as u16,
                (a[12] as u16) * 256 + a[13] as u16,
                (a[14] as u16) * 256 + a[15] as u16,
                (a[16] as u16) * 256 + a[17] as u16,
                (a[18] as u16) * 256 + a[19] as u16,
                (a[20] as u16) * 256 + a[21] as u16,
                (a[22] as u16) * 256 + a[23] as u16,
            ];
            assert forall|k: int| 0 <= k < 8 implies #[trigger] x@[k] == (a@[8 + 2 * k] as u16) * 256
                + (a@[9 + 2 * k] as u16) by {
                if k == 0 {} else if k == 1 {} else if k == 2 {} else if k == 3 {}
                else if k == 4 {} else if k == 5 {} else if k == 6 {} else {}
            }
            Ok(Connection::Network(IpAddress::V6(x)))
        } else {
            Ok(Connection::Unknown(unknown_network(a[0])))
        }
    } else if str_eq(kind.as_str(), "USB") {
        Ok(Connection::Usb)
    } else {
        Ok(Connection::Unknown(kind.clone()))
    }
}

fn read_device(entry: &PlistValue) -> (r: Result<UsbmuxdDevice, IdeviceError>)
    ensures
        match r {
            Ok(d) => device_entry_ok(*entry) && device_matches(d, *entry),
            Err(e) => !device_entry_ok(*entry) && e == IdeviceError::UnexpectedResponse,
        },
{
    let device_id: u32 = match entry.get("DeviceID") {
        Some(PlistValue::Integer(i)) => {
            if *i < 0 || *i > 0xffff_ffff {
                return Err(IdeviceError::UnexpectedResponse);
            }
            *i as u32
        },
        _ => return Err(IdeviceError::UnexpectedResponse),
    };
    let props = match entry.get("Properties") {
        Some(p) => p,
        None => return Err(IdeviceError::UnexpectedResponse),
    };
    let udid = match props.get_text("SerialNumber") {
        Some(s) => s.clone(),
        None => return Err(IdeviceError::UnexpectedResponse),
    };
    let connection_type = read_connection(props)?;
    Ok(UsbmuxdDevice { connection_type, udid, device_id })
}

/// Reads the devices of a `ListDevices` reply, in the order listed. A reply
/// without a `DeviceList` array, or with any entry that cannot be read (a
/// missing field, a network address too short for its family), is refused whole.
pub fn parse_device_list(response: &PlistValue) -> (r: Result<Vec<UsbmuxdDevice>, IdeviceError>)
    ensures
        match r {
            Ok(devs) => device_list_ok(*response) && devs@.len() == device_list(*response).unwrap().len()
                && forall|i: int|
                0 <= i < devs@.len() ==> device_matches(#[trigger] devs@[i], device_list(*response).unwrap()[i]),
            Err(e) => !device_list_ok(*response) && e == IdeviceError::UnexpectedResponse,
        },
{
    let list = match response.get("DeviceList") {
        Some(PlistValue::Array(a)) => a,
        _ => return Err(IdeviceError::UnexpectedResponse),
    };
    let mut devs: Vec<UsbmuxdDevice> = Vec::new();
    let mut i: usize = 0;
    while i < list.len()
        invariant
            device_list(*response) == Some(list@),
            0 <= i <= list@.len(),
            devs@.len() == i,
            forall|j: int| 0 <= j < i ==> device_entry_ok(#[trigger] list@[j]),
            forall|j: int| 0 <= j < i ==> device_matches(#[trigger] devs@[j], list@[j]),
        decreases list@.len() - i,
    {
        let d = read_device(&list[i]);
        match d {
            Ok(d) => devs.push(d),
            Err(e) => {
                let ghost l = device_list(*response).unwrap();
                assert(l[i as int] == list@[i as int]);
                assert(!device_entry_ok(l[i as int]));
                assert(!device_list_ok(*response));
                assert(e == IdeviceError::UnexpectedResponse);
                return Err(e);
            },
        }
        i = i + 1;
    }
    Ok(devs)
}

/// The textual identifier under which this library introduces itself.
pub const CLIENT_VERSION: &'static str = "idevice-rs";

/// A `ListDevices` request.
pub fn list_devices_request() -> (r: PlistValue)
    ensures
        dict_entries(r).len() == 3,
        entry_text(dict_entries(r)[0], "MessageType"@, "ListDevices"@),
        entry_text(dict_entries(r)[1], "ClientVersionString"@, CLIENT_VERSION@),
        entry_value(dict_entries(r)[2], "kLibUSBMuxVersion"@, PlistValue::Integer(3)),
{
    PlistValue::Dictionary(
        vec![
            text_entry("MessageType", "ListDevices"),
            text_entry("ClientVersionString", CLIENT_VERSION),
            value_entry("kLibUSBMuxVersion", PlistValue::Integer(3)),
        ],
    )
}

/// A `ReadPairRecord` request for the device `udid`.
pub fn pair_record_request(udid: &str) -> (r: PlistValue)
    ensures
        dict_entries(r).len() == 2,
        entry_text(dict_entries(r)[0], "MessageType"@, "ReadPairRecord"@),
        entry_text(dict_entries(r)[1], "PairRecordID"@, udid@),
{
    PlistValue::Dictionary(
        vec![text_entry("MessageType", "ReadPairRecord"), text_entry("PairRecordID", udid)],
    )
}

/// A `ReadBUID` request.
pub fn buid_request() -> (r: PlistValue)
    ensures
        dict_entries(r).len() == 1,
        entry_text(dict_entries(r)[0], "MessageType"@, "ReadBUID"@),
{
    PlistValue::Dictionary(vec![text_entry("MessageType", "ReadBUID")])
}

/// `port` with its two bytes swapped: the value whose in-memory bytes on a
/// little-endian host are the port in network order.
pub open spec fn network_order_port(port: u16) -> u16 {
    ((port % 256) * 256 + port / 256) as u16
}

/// A `Connect` request for `port` on the device `device_id`.
pub fn connect_request(device_id: u32, port: u16) -> (r: PlistValue)
    ensures
        dict_entries(r).len() == 3,
        entry_text(dict_entries(r)[0], "MessageType"@, "Connect"@),
        entry_value(dict_entries(r)[1], "DeviceID"@, PlistValue::Integer(device_id as i128)),
        entry_value(
            dict_entries(r)[2],
            "PortNumber"@,
            PlistValue::Integer(network_order_port(port) as i128),
        ),
{
    // The multiplexer reads `PortNumber` as a 16-bit number in network byte
    // order, so the field holds the port with its bytes already swapped.
    let swapped: u16 = (port % 256) * 256 + port / 256;
    PlistValue::Dictionary(
        vec![
            text_entry("MessageType", "Connect"),
            value_entry("DeviceID", PlistValue::Integer(device_id as i128)),
            value_entry("PortNumber", PlistValue::Integer(swapped as i128)),
        ],
    )
}

/// What a `Connect` reply means: `Ok` for `Number` 0, the matching error for
/// 1, 2, 3 and 6, and `UnexpectedResponse` for any other reply.
pub open spec fn connect_outcome(response: PlistValue) -> Result<(), IdeviceError> {
    match response.field("Number"@) {
        Some(PlistValue::Integer(n)) => if n == 0 {
            Ok(())
        } else if n == 1 {
            Err(IdeviceError::UsbBadCommand)
        } else if n == 2 {
            Err(IdeviceError::UsbBadDevice)
        } else if n == 3 {
            Err(IdeviceError::UsbConnectionRefused)
        } else if n == 6 {
            Err(IdeviceError::UsbBadVersion)
        } else {
            Err(IdeviceError::UnexpectedResponse)
        },
        _ => Err(IdeviceError::UnexpectedResponse),
    }
}

/// Interprets the reply to a `Connect` request. On `Ok` the channel now leads
/// to the device port; on an error the caller closes it.
pub fn connect_result(response: &PlistValue) -> (r: Result<(), IdeviceError>)
    ensures
        r == connect_outcome(*response),
{
    match response.get("Number") {
        Some(PlistValue::Integer(n)) => {
            let n = *n;
            if n == 0 {
                Ok(())
            } else if n == 1 {
                Err(IdeviceError::UsbBadCommand)
            } else if n == 2 {
                Err(IdeviceError::UsbBadDevice)
            } else if n == 3 {
                Err(IdeviceError::UsbConnectionRefused)
            } else if n == 6 {
                Err(IdeviceError::UsbBadVersion)
            } else {
                Err(IdeviceError::UnexpectedResponse)
            }
        },
        _ => Err(IdeviceError::UnexpectedResponse),
    }
}

/// The pairing record bytes of a `ReadPairRecord` reply.
pub fn parse_pair_record(response: PlistValue) -> (r: Result<Vec<u8>, IdeviceError>)
    ensures
        match response.field("PairRecordData"@) {
            Some(PlistValue::Data(d)) => r matches Ok(b) && b@ == d@,
            _ => r == Err::<Vec<u8>, IdeviceError>(IdeviceError::UnexpectedResponse),
        },
{
    match response.take("PairRecordData") {
        Some(PlistValue::Data(d)) => Ok(d),
        _ => Err(IdeviceError::UnexpectedResponse),
    }
}

/// The identifier of a `ReadBUID` reply.
pub fn parse_buid(response: PlistValue) -> (r: Result<String, IdeviceError>)
    ensures
        match response.text_field("BUID"@) {
            Some(t) => r matches Ok(s) && s@ == t,
            None => r == Err::<String, IdeviceError>(IdeviceError::UnexpectedResponse),
        },
{
    match response.take("BUID") {
        Some(PlistValue::String(s)) => Ok(s),
        _ => Err(IdeviceError::UnexpectedResponse),
    }
}

/// The first listed device whose identifier is `udid`.
pub fn find_device(devices: Vec<UsbmuxdDevice>, udid: &str) -> (r: Result<UsbmuxdDevice, IdeviceError>)
    ensures
        match r {
            Ok(d) => exists|i: int|
                0 <= i < devices@.len() && devices@[i] == d && d.udid@ == udid@ && forall|j: int|
                    0 <= j < i ==> (#[trigger] devices@[j]).udid@ != udid@,
            Err(e) => e == IdeviceError::DeviceNotFound && forall|j: int|
                0 <= j < devices@.len() ==> (#[trigger] devices@[j]).udid@ != udid@,
        },
{
    let mut i: usize = 0;
    while i < devices.len()
        invariant
            0 <= i <= devices@.len(),
            forall|j: int| 0 <= j < i ==> (#[trigger] devices@[j]).udid@ != udid@,
        decreases devices@.len() - i,
    {
        if str_eq(devices[i].udid.as_str(), udid) {
            let ghost old_devices = devices@;
            let mut devices = devices;
            let d = devices.swap_remove(i);
            assert(old_devices[i as int] == d);
            return Ok(d);
        }
        i = i + 1;
    }
    Err(IdeviceError::DeviceNotFound)
}

/// A control connection to the multiplexer over the byte stream `S`: every
/// request on it carries the same tag.
pub struct UsbmuxdConnection<S> {
    pub socket: S,
    pub tag: u32,
}

impl<S> UsbmuxdConnection<S> {
    pub fn new(socket: S, tag: u32) -> (r: Self)
        ensures
            r.socket == socket,
            r.tag == tag,
    {
        Self { socket, tag }
    }

    pub fn tag(&self) -> (r: u32)
        ensures
            r == self.tag,
    {
        self.tag
    }

    /// The packet that sends the XML property list `body` on this connection.
    pub fn packet(&self, body: &[u8]) -> (r: Vec<u8>)
        requires
            body@.len() <= u32::MAX - 16,
        ensures
            r@ == mux_packet(body@, self.tag),
    {
        encode_mux_packet(body, self.tag)
    }
}

pub const DEFAULT_PORT: u16 = 27015;
pub const SOCKET_FILE: &'static str = "/var/run/usbmuxd";

/// An IP address and a port.
#[derive(Debug, Clone, Copy, PartialEq, Eq)]
pub struct SocketAddress {
    pub ip: IpAddress,
    pub port: u16,
}

/// Where the multiplexer listens.
#[derive(Debug, Clone, PartialEq, Eq)]
pub enum UsbmuxdAddr {
    /// A local-domain socket, by its path.
    UnixSocket(String),
    /// A TCP endpoint.
    TcpSocket(SocketAddress),
}

/// Whether the UTF-8 text of `s` holds a `:`.
pub open spec fn has_colon(s: Seq<char>) -> bool {
    vstd::utf8::encode_utf8(s).contains(0x3au8)
}

/// The loopback endpoint on the default port: 127.0.0.1:27015.
pub open spec fn default_endpoint() -> SocketAddress {
    SocketAddress { ip: IpAddress::V4([127u8, 0u8, 0u8, 1u8]), port: DEFAULT_PORT }
}

fn contains_colon(v: &String) -> (r: bool)
    ensures
        r == has_colon(v@),
{
    let b = v.as_str().as_bytes();
    let mut colon = false;
    let mut i: usize = 0;
    while i < b.len()
        invariant
            b@ == vstd::utf8::encode_utf8(v@),
            0 <= i <= b@.len(),
            colon == exists|j: int| 0 <= j < i && b@[j] == 0x3au8,
        decreases b@.len() - i,
    {
        if b[i] == 0x3a {
            colon = true;
        }
        i = i + 1;
    }
    assert(colon == b@.contains(0x3au8));
    colon
}

impl UsbmuxdAddr {
    /// The platform default: the local socket where local sockets exist,
    /// else the loopback TCP port.
    pub fn platform_default(unix: bool) -> (r: UsbmuxdAddr)
        ensures
            unix ==> (r matches UsbmuxdAddr::UnixSocket(p) && p@ == SOCKET_FILE@),
            !unix ==> r == UsbmuxdAddr::TcpSocket(default_endpoint()),
    {
        if unix {
            UsbmuxdAddr::UnixSocket(String::from_str(SOCKET_FILE))
        } else {
            let ip: [u8; 4] = [127, 0, 0, 1];
            proof {
                assert(ip == [127u8, 0u8, 0u8, 1u8]);
            }
            UsbmuxdAddr::TcpSocket(SocketAddress { ip: IpAddress::V4(ip), port: DEFAULT_PORT })
        }
    }

    /// The address that the override setting `value` selects. Without a
    /// value, the platform default. Where local sockets exist, a value without
    /// `:` is a socket path. Any other value is a TCP endpoint: `endpoint` is
    /// what it reads as a socket address (`None` where it reads as none), and
    /// a value that is no socket address is refused.
    pub fn from_env_value(value: Option<String>, unix: bool, endpoint: Option<SocketAddress>) -> (r: Result<
        UsbmuxdAddr,
        IdeviceError,
    >)
        ensures
            match value {
                None => r matches Ok(a) && if unix {
                    a matches UsbmuxdAddr::UnixSocket(p) && p@ == SOCKET_FILE@
                } else {
                    a == UsbmuxdAddr::TcpSocket(default_endpoint())
                },
                Some(v) => if unix && !has_colon(v@) {
                    r matches Ok(UsbmuxdAddr::UnixSocket(p)) && p@ == v@
                } else {
                    match endpoint {
                        Some(e) => r == Ok::<UsbmuxdAddr, IdeviceError>(UsbmuxdAddr::TcpSocket(e)),
                        None => r == Err::<UsbmuxdAddr, IdeviceError>(IdeviceError::InvalidAddress),
                    }
                },
            },
    {
        match value {
            None => Ok(Self::platform_default(unix)),
            Some(v) => {
                if unix && !contains_colon(&v) {
                    Ok(UsbmuxdAddr::UnixSocket(v))
                } else {
                    match endpoint {
                        Some(e) => Ok(UsbmuxdAddr::TcpSocket(e)),
                        None => Err(IdeviceError::InvalidAddress),
                    }
                }
            },
        }
    }
}

} // verus!
