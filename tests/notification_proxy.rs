use idevice::error::IdeviceError;
use idevice::notification_proxy::{
    decode_notifications, parse_inbound, parse_notification, post_frame, InboundFrame, NotificationProxyClient,
    NotificationType,
};

fn inbound(name: &str) -> Vec<u8> {
    let mut f = b"NP".to_vec();
    f.extend_from_slice(&(name.len() as u32).to_be_bytes());
    f.extend_from_slice(name.as_bytes());
    f
}

#[test]
fn notification_names() {
    assert_eq!(NotificationType::SyncDidFinish.as_str(), "com.apple.itunes-client.syncDidFinish");
    assert_eq!(NotificationType::PairingSucceeded.as_str(), "com.apple.mobile.paired");
    assert_eq!(NotificationType::from_str("com.apple.mobile.data_sync.didFinish"), NotificationType::DownloadDidFinish);
    assert_eq!(NotificationType::from_str("x.y"), NotificationType::Custom("x.y".to_string()));
    assert_eq!(NotificationType::Custom("a.b".to_string()).as_str(), "a.b");
    assert_eq!(parse_notification("app-installed"), NotificationType::AppInstalled);
    assert_eq!(parse_notification("sync-will-start"), NotificationType::SyncWillStart);
    assert_eq!(parse_notification("com.foo"), NotificationType::Custom("com.foo".to_string()));
}

#[test]
fn notification_frames() {
    let mut c = NotificationProxyClient::new(());
    let n = NotificationType::Custom("abc".to_string());
    assert_eq!(c.observe_notification(&n), Some(b"ON\0\0\0\x03abc".to_vec()));
    assert_eq!(c.observe_notification(&n), None);
    assert_eq!(c.observed, vec!["abc".to_string()]);
    assert_eq!(post_frame(&n), b"PN\0\0\0\x03abc".to_vec());
    assert_eq!(c.post_notification(&n), b"PN\0\0\0\x03abc".to_vec());
}

#[test]
fn notification_fan_out_order() {
    let mut c = NotificationProxyClient::new(());
    let a = "com.example.A";
    let b = "com.example.B";
    let cc = "com.example.C";
    for name in [a, b, cc] {
        assert!(c.observe_notification(&NotificationType::Custom(name.to_string())).is_some());
    }
    let mut stream = Vec::new();
    for name in [a, cc, cc, b, a] {
        stream.extend_from_slice(&inbound(name));
    }
    let got: Vec<String> = decode_notifications(&stream).iter().map(|n| n.as_str().to_string()).collect();
    assert_eq!(got, vec![a, cc, cc, b, a]);
}

#[test]
fn notification_observe_then_receive() {
    let mut c = NotificationProxyClient::new(());
    let n = NotificationType::SyncDidFinish;
    let frame = c.observe_notification(&n).unwrap();
    assert_eq!(&frame[0..2], b"ON");
    assert_eq!(c.start_listening(), Ok(()));
    let stream = inbound("com.apple.itunes-client.syncDidFinish");
    let got = decode_notifications(&stream);
    assert_eq!(got, vec![NotificationType::SyncDidFinish]);
    assert_eq!(got[0].as_str(), "com.apple.itunes-client.syncDidFinish");
}

#[test]
fn notification_reader_edges() {
    assert!(matches!(parse_inbound(b"N", 0), InboundFrame::Incomplete));
    assert!(matches!(parse_inbound(b"NP\0\0\0\x05ab", 0), InboundFrame::Incomplete));
    assert!(matches!(parse_inbound(b"ND", 0), InboundFrame::Shutdown));
    assert!(matches!(parse_inbound(b"XX", 0), InboundFrame::Skipped(2)));
    assert!(matches!(parse_inbound(b"NP\0\0\0\x01\xff", 0), InboundFrame::Skipped(7)));
    let mut stream = inbound("one");
    stream.extend_from_slice(b"NP\0\0\0\x01\xff");
    stream.extend_from_slice(&inbound("two"));
    stream.extend_from_slice(b"ND");
    stream.extend_from_slice(&inbound("after"));
    let got: Vec<String> = decode_notifications(&stream).iter().map(|n| n.as_str().to_string()).collect();
    assert_eq!(got, vec!["one", "two"]);
}

#[test]
fn notification_single_listener() {
    let mut c = NotificationProxyClient::new(());
    assert_eq!(c.start_listening(), Ok(()));
    assert_eq!(
        c.start_listening(),
        Err(IdeviceError::NotificationProxyError("Already listening for notifications".to_string()))
    );
    c.stop_listening();
    assert!(!c.listening);
    assert_eq!(c.start_listening(), Ok(()));
}
