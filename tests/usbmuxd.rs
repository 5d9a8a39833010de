use idevice::error::IdeviceError;
use idevice::plist_value::PlistValue;
use idevice::plist_frame::{decode_plist_frame, encode_plist_frame, plist_encoding, plist_frame_len, PlistEncoding};
use idevice::provider::{start_service_reply, start_service_request, LOCKDOWN_PORT};
use idevice::usbmuxd::{
    connect_request, connect_result, decode_mux_packet, encode_mux_packet, find_device, list_devices_request,
    parse_buid, parse_device_list, parse_pair_record, Connection, IpAddress, MuxHeader, UsbmuxdAddr,
    SocketAddress, UsbmuxdConnection, UsbmuxdDevice, PLIST_MESSAGE_TYPE, XML_PLIST_VERSION,
};

fn s(t: &str) -> String {
    t.to_string()
}

fn text(t: &str) -> PlistValue {
    PlistValue::String(s(t))
}

fn entry(udid: &str, id: i128, kind: &str, addr: Option<Vec<u8>>) -> PlistValue {
    let mut props = vec![(s("ConnectionType"), text(kind)), (s("SerialNumber"), text(udid))];
    if let Some(a) = addr {
        props.push((s("NetworkAddress"), PlistValue::Data(a)));
    }
    PlistValue::Dictionary(vec![
        (s("DeviceID"), PlistValue::Integer(id)),
        (s("Properties"), PlistValue::Dictionary(props)),
    ])
}

fn reply(entries: Vec<PlistValue>) -> PlistValue {
    PlistValue::Dictionary(vec![(s("DeviceList"), PlistValue::Array(entries))])
}

fn text_of(v: &PlistValue) -> &str {
    match v {
        PlistValue::String(t) => t.as_str(),
        _ => panic!("not a string"),
    }
}

#[test]
fn mux_packet_round_trip() {
    let body = b"<?xml version=\"1.0\"?><plist/>".to_vec();
    let p = encode_mux_packet(&body, 77);
    assert_eq!(p.len(), 16 + body.len());
    assert_eq!(&p[0..4], &((16 + body.len()) as u32).to_le_bytes());
    let (h, b) = decode_mux_packet(&p).unwrap();
    assert_eq!(
        h,
        MuxHeader { length: (16 + body.len()) as u32, version: XML_PLIST_VERSION, message_type: PLIST_MESSAGE_TYPE, tag: 77 }
    );
    assert_eq!(h.version, 1);
    assert_eq!(h.message_type, 8);
    assert_eq!(b, body);
}

#[test]
fn mux_packet_empty_body_and_bad_length() {
    let p = encode_mux_packet(&[], 0);
    assert_eq!(p.len(), 16);
    let (h, b) = decode_mux_packet(&p).unwrap();
    assert_eq!(h.length, 16);
    assert!(b.is_empty());
    let mut bad = p.clone();
    bad[0] = 20;
    assert_eq!(decode_mux_packet(&bad), Err(IdeviceError::UnexpectedResponse));
    assert_eq!(decode_mux_packet(&p[..10]), Err(IdeviceError::UnexpectedResponse));
    let short = MuxHeader { length: 8, version: 1, message_type: 8, tag: 0 };
    assert_eq!(short.body_len(), Err(IdeviceError::UnexpectedResponse));
    let ok = MuxHeader::parse(&encode_mux_packet(b"abc", 5));
    assert_eq!(ok.body_len(), Ok(3));
}

#[test]
fn connection_packet_carries_tag() {
    let c = UsbmuxdConnection::new((), 9);
    assert_eq!(c.tag(), 9);
    let p = c.packet(b"x");
    assert_eq!(&p[12..16], &9u32.to_le_bytes());
}

#[test]
fn device_enumeration_mixed() {
    let mut v6 = vec![0x1e, 0, 0, 0, 0, 0, 0, 0];
    v6.extend_from_slice(&[0xfe, 0x80, 0, 0, 0, 0, 0, 0, 0, 0, 0, 0, 0, 0, 0x12, 0x34]);
    let r = reply(vec![
        entry("usb1", 1, "USB", None),
        entry("net4", 2, "Network", Some(vec![0x02, 0, 0, 0, 192, 168, 1, 9])),
        entry("net6", 3, "Network", Some(v6)),
        entry("netx", 4, "Network", Some(vec![0x0a, 0, 0, 0, 0, 0, 0, 0])),
        entry("odd", 5, "Bluetooth", None),
    ]);
    let devs = parse_device_list(&r).unwrap();
    assert_eq!(devs.len(), 5);
    assert_eq!(devs[0], UsbmuxdDevice { connection_type: Connection::Usb, udid: s("usb1"), device_id: 1 });
    assert_eq!(devs[1].connection_type, Connection::Network(IpAddress::V4([192, 168, 1, 9])));
    assert_eq!(
        devs[2].connection_type,
        Connection::Network(IpAddress::V6([0xfe80, 0, 0, 0, 0, 0, 0, 0x1234]))
    );
    assert_eq!(devs[3].connection_type, Connection::Unknown(s("Network 0A")));
    assert_eq!(devs[4].connection_type, Connection::Unknown(s("Bluetooth")));
    assert_eq!(devs[4].device_id, 5);
}

#[test]
fn device_enumeration_truncated_addresses() {
    let short4 = reply(vec![
        entry("usb1", 1, "USB", None),
        entry("net4", 2, "Network", Some(vec![0x02, 0, 0, 0, 10, 0, 0])),
    ]);
    assert_eq!(parse_device_list(&short4), Err(IdeviceError::UnexpectedResponse));
    let short6 = reply(vec![entry("net6", 3, "Network", Some(vec![0x1e, 0, 0, 0, 0, 0, 0, 0, 1, 2, 3]))]);
    assert_eq!(parse_device_list(&short6), Err(IdeviceError::UnexpectedResponse));
    let missing = reply(vec![entry("net", 3, "Network", None)]);
    assert_eq!(parse_device_list(&missing), Err(IdeviceError::UnexpectedResponse));
    let no_list = PlistValue::Dictionary(vec![]);
    assert_eq!(parse_device_list(&no_list), Err(IdeviceError::UnexpectedResponse));
    let too_big = reply(vec![entry("x", 1 << 33, "USB", None)]);
    assert_eq!(parse_device_list(&too_big), Err(IdeviceError::UnexpectedResponse));
}

#[test]
fn list_two_devices() {
    let r = reply(vec![
        entry("abc", 4, "USB", None),
        entry("def", 7, "Network", Some(vec![0x02, 0, 0, 0, 10, 0, 0, 5, 0, 0, 0, 0])),
    ]);
    let devs = parse_device_list(&r).unwrap();
    assert_eq!(devs.len(), 2);
    assert_eq!(devs[0].udid, "abc");
    assert_eq!(devs[0].device_id, 4);
    assert_eq!(devs[0].connection_type, Connection::Usb);
    assert_eq!(devs[1].udid, "def");
    assert_eq!(devs[1].device_id, 7);
    assert_eq!(devs[1].connection_type, Connection::Network(IpAddress::V4([10, 0, 0, 5])));
    let found = find_device(devs.clone(), "def").unwrap();
    assert_eq!(found.device_id, 7);
    assert_eq!(find_device(devs, "zzz"), Err(IdeviceError::DeviceNotFound));
}

#[test]
fn connect_port_byte_order() {
    let r = connect_request(42, 0x1234);
    match r {
        PlistValue::Dictionary(e) => {
            assert_eq!(e.len(), 3);
            assert_eq!(e[0].0, "MessageType");
            assert_eq!(text_of(&e[0].1), "Connect");
            assert_eq!(e[1].0, "DeviceID");
            assert!(matches!(e[1].1, PlistValue::Integer(42)));
            assert_eq!(e[2].0, "PortNumber");
            assert!(matches!(e[2].1, PlistValue::Integer(0x3412)));
        }
        _ => panic!("not a dictionary"),
    }
}

fn number(n: i128) -> PlistValue {
    PlistValue::Dictionary(vec![(s("MessageType"), text("Result")), (s("Number"), PlistValue::Integer(n))])
}

#[test]
fn connect_results() {
    assert_eq!(connect_result(&number(0)), Ok(()));
    assert_eq!(connect_result(&number(1)), Err(IdeviceError::UsbBadCommand));
    assert_eq!(connect_result(&number(2)), Err(IdeviceError::UsbBadDevice));
    assert_eq!(connect_result(&number(6)), Err(IdeviceError::UsbBadVersion));
    assert_eq!(connect_result(&number(4)), Err(IdeviceError::UnexpectedResponse));
    assert_eq!(connect_result(&PlistValue::Dictionary(vec![])), Err(IdeviceError::UnexpectedResponse));
}

#[test]
fn multiplexer_connect_refused() {
    assert_eq!(connect_result(&number(3)), Err(IdeviceError::UsbConnectionRefused));
}

#[test]
fn list_request_fields() {
    match list_devices_request() {
        PlistValue::Dictionary(e) => {
            assert_eq!(e[0].0, "MessageType");
            assert_eq!(text_of(&e[0].1), "ListDevices");
            assert_eq!(e[1].0, "ClientVersionString");
            assert_eq!(e[2].0, "kLibUSBMuxVersion");
            assert!(matches!(e[2].1, PlistValue::Integer(3)));
        }
        _ => panic!("not a dictionary"),
    }
}

#[test]
fn pair_record_and_buid() {
    let r = PlistValue::Dictionary(vec![(s("PairRecordData"), PlistValue::Data(vec![1, 2, 3]))]);
    assert_eq!(parse_pair_record(r), Ok(vec![1, 2, 3]));
    assert_eq!(parse_pair_record(PlistValue::Dictionary(vec![])), Err(IdeviceError::UnexpectedResponse));
    let b = PlistValue::Dictionary(vec![(s("BUID"), text("ABCD-1234"))]);
    assert_eq!(parse_buid(b), Ok(s("ABCD-1234")));
    let wrong = PlistValue::Dictionary(vec![(s("BUID"), PlistValue::Integer(1))]);
    assert_eq!(parse_buid(wrong), Err(IdeviceError::UnexpectedResponse));
}

#[test]
fn address_from_setting() {
    let lo = SocketAddress { ip: IpAddress::V4([127, 0, 0, 1]), port: 27015 };
    let other = SocketAddress { ip: IpAddress::V4([10, 0, 0, 2]), port: 27015 };
    assert_eq!(UsbmuxdAddr::from_env_value(None, true, None), Ok(UsbmuxdAddr::UnixSocket(s("/var/run/usbmuxd"))));
    assert_eq!(UsbmuxdAddr::from_env_value(None, false, None), Ok(UsbmuxdAddr::TcpSocket(lo)));
    assert_eq!(
        UsbmuxdAddr::from_env_value(Some(s("10.0.0.2:27015")), true, Some(other)),
        Ok(UsbmuxdAddr::TcpSocket(other))
    );
    assert_eq!(
        UsbmuxdAddr::from_env_value(Some(s("10.0.0.2:x")), true, None),
        Err(IdeviceError::InvalidAddress)
    );
    assert_eq!(
        UsbmuxdAddr::from_env_value(Some(s("/tmp/mux")), true, None),
        Ok(UsbmuxdAddr::UnixSocket(s("/tmp/mux")))
    );
    assert_eq!(UsbmuxdAddr::from_env_value(Some(s("/tmp/mux")), false, None), Err(IdeviceError::InvalidAddress));
}

#[test]
fn plist_frame_round_trip() {
    let body = b"<?xml version=\"1.0\"?><plist><dict/></plist>".to_vec();
    let f = encode_plist_frame(&body);
    assert_eq!(&f[0..4], &(body.len() as u32).to_be_bytes());
    assert_eq!(decode_plist_frame(&f), Ok(body.clone()));
    assert_eq!(plist_encoding(&body), Some(PlistEncoding::Xml));
    assert_eq!(plist_encoding(b"bplist00\x00"), Some(PlistEncoding::Binary));
    assert_eq!(plist_encoding(b"{}"), None);
    assert_eq!(decode_plist_frame(&f[..f.len() - 1]), Err(IdeviceError::UnexpectedResponse));
    assert_eq!(plist_frame_len(&[0x04, 0, 0, 1]), Err(IdeviceError::PlistMalformed));
    assert_eq!(plist_frame_len(&[0, 0, 1, 0]), Ok(256));
}

#[test]
fn start_service_exchange() {
    match start_service_request("com.apple.afc") {
        PlistValue::Dictionary(e) => {
            assert_eq!(text_of(&e[0].1), "StartService");
            assert_eq!(e[1].0, "Service");
            assert_eq!(text_of(&e[1].1), "com.apple.afc");
        }
        _ => panic!("not a dictionary"),
    }
    let r = PlistValue::Dictionary(vec![
        (s("Port"), PlistValue::Integer(49152)),
        (s("EnableServiceSSL"), PlistValue::Boolean(true)),
    ]);
    let st = start_service_reply(&r).unwrap();
    assert_eq!(st.port, 49152);
    assert!(st.enable_ssl);
    let bad = PlistValue::Dictionary(vec![(s("Port"), PlistValue::Integer(70000))]);
    assert_eq!(start_service_reply(&bad), Err(IdeviceError::UnexpectedResponse));
    assert_eq!(LOCKDOWN_PORT, 62078);
}
