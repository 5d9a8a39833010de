use idevice::error::IdeviceError;
use idevice::mounter::{
    expect_status, mount_image_request, parse_copy_devices, parse_developer_mode_status, parse_lookup_image,
    parse_personalization_manifest, personalized_command, receive_bytes_request, ImageMounter, ImageMounterHandle, MounterPhase, UploadProgress,
};
use idevice::plist_value::PlistValue;

fn s(t: &str) -> String {
    t.to_string()
}

fn status(t: &str) -> PlistValue {
    PlistValue::Dictionary(vec![(s("Status"), PlistValue::String(s(t)))])
}

#[test]
fn image_mount_success() {
    let image = vec![0u8; 1 << 20];
    let sig = vec![1u8, 2, 3];
    let mut m = ImageMounter::new(());
    match receive_bytes_request("Developer", image.len() as u64, sig.clone()) {
        PlistValue::Dictionary(e) => {
            assert_eq!(e[0].0, "Command");
            assert!(matches!(e[2].1, PlistValue::Integer(1048576)));
        }
        _ => panic!("not a dictionary"),
    }
    assert_eq!(expect_status(&status("ReceiveBytesAck"), "ReceiveBytesAck"), Ok(()));
    let mut p = UploadProgress::new(image.len() as u64, 65536);
    let mut sent = Vec::new();
    while !p.is_done() {
        let (a, b) = p.next_range();
        sent.extend_from_slice(&image[a as usize..b as usize]);
        p.on_chunk_sent();
    }
    assert_eq!(sent, image);
    assert_eq!(m.on_upload_reply("Developer", &status("Complete")), Ok(()));
    assert_eq!(m.phase, MounterPhase::Uploaded(s("Developer")));
    match mount_image_request("Developer", sig, None, None) {
        PlistValue::Dictionary(e) => assert_eq!(e.len(), 3),
        _ => panic!("not a dictionary"),
    }
    assert_eq!(m.on_mount_reply(&status("Complete")), Ok(()));
    assert_eq!(m.phase, MounterPhase::Mounted);
    let h = ImageMounterHandle(m);
    assert_eq!(h.0.phase, MounterPhase::Mounted);
}

#[test]
fn personalized_mount_progress() {
    let total = 4u64 << 20;
    let mut m = ImageMounter::new(());
    let mut p = UploadProgress::new(total, 64 << 10);
    let mut calls = Vec::new();
    while !p.is_done() {
        let report = p.on_chunk_sent();
        m.record_progress(report.0, report.1);
        calls.push(report);
    }
    assert_eq!(calls.len(), 64);
    assert!(calls.windows(2).all(|w| w[0].0 <= w[1].0));
    assert_eq!(*calls.last().unwrap(), (total, total));
    assert_eq!(m.progress, Some((total, total)));
    let mut odd = UploadProgress::new(100_000, 65536);
    assert_eq!(odd.on_chunk_sent(), (65536, 100_000));
    assert_eq!(odd.on_chunk_sent(), (100_000, 100_000));
    assert!(odd.is_done());
}

#[test]
fn mounter_failures_and_queries() {
    let mut m = ImageMounter::new(());
    let err = PlistValue::Dictionary(vec![
        (s("Status"), PlistValue::String(s("Error"))),
        (s("Error"), PlistValue::String(s("ImageMountFailed"))),
    ]);
    assert_eq!(m.on_mount_reply(&err), Err(IdeviceError::MounterError(s("ImageMountFailed"))));
    assert_eq!(m.phase, MounterPhase::Idle);
    let dev = PlistValue::Dictionary(vec![(s("DeveloperModeStatus"), PlistValue::Boolean(true))]);
    assert_eq!(parse_developer_mode_status(&dev), Ok(true));
    let sig = PlistValue::Dictionary(vec![(s("ImageSignature"), PlistValue::Array(vec![PlistValue::Data(vec![9])]))]);
    assert_eq!(parse_lookup_image(sig), Ok(vec![9]));
    assert_eq!(parse_lookup_image(PlistValue::Dictionary(vec![])), Ok(vec![]));
    let list = PlistValue::Dictionary(vec![(s("EntryList"), PlistValue::Array(vec![PlistValue::Boolean(false)]))]);
    assert_eq!(parse_copy_devices(list).unwrap().len(), 1);
    match personalized_command("QueryNonce", Some("DeveloperDiskImage")) {
        PlistValue::Dictionary(e) => assert_eq!(e.len(), 2),
        _ => panic!("not a dictionary"),
    }
}

#[test]
fn personalization_manifest_reply() {
    let ok = PlistValue::Dictionary(vec![(s("ImageSignature"), PlistValue::Data(vec![4, 5]))]);
    assert_eq!(parse_personalization_manifest(ok), Ok(vec![4, 5]));
    let missing = PlistValue::Dictionary(vec![(s("DetailedError"), PlistValue::String(s("no manifest here")))]);
    assert_eq!(parse_personalization_manifest(missing), Err(IdeviceError::MounterError(s("no manifest here"))));
    assert_eq!(
        parse_personalization_manifest(PlistValue::Dictionary(vec![])),
        Err(IdeviceError::MounterError(s("Manifest not found")))
    );
}
