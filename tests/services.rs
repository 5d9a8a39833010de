use idevice::amfi::{developer_mode_from_reply, developer_mode_query};
use idevice::diagnostics::{diagnostics_reply, diagnostics_request, DiagnosticsAction, DiagnosticsDomain};
use idevice::error::IdeviceError;
use idevice::file_relay::{archive_len, file_relay_reply, file_relay_request, FileRelaySource};
use idevice::house_arrest::{check_result, command_request, parse_application_info, parse_application_list};
use idevice::mobile_backup::{backup_request, read_confirmation, restore_request, BackupType};
use idevice::plist_value::PlistValue;
use idevice::screenshot::{screenshot_reply, screenshot_request};
use idevice::web_inspector::{applications_command, parse_applications, parse_websocket_url, webview_command};

fn s(t: &str) -> String {
    t.to_string()
}

fn text(t: &str) -> PlistValue {
    PlistValue::String(s(t))
}

fn dict(e: Vec<(&str, PlistValue)>) -> PlistValue {
    PlistValue::Dictionary(e.into_iter().map(|(k, v)| (s(k), v)).collect())
}

fn text_of(v: &PlistValue) -> &str {
    match v {
        PlistValue::String(t) => t.as_str(),
        _ => panic!("not a string"),
    }
}

fn entries(v: PlistValue) -> Vec<(String, PlistValue)> {
    match v {
        PlistValue::Dictionary(e) => e,
        _ => panic!("not a dictionary"),
    }
}

#[test]
fn diagnostics_requests_and_replies() {
    let e = entries(diagnostics_request(DiagnosticsAction::Domain(DiagnosticsDomain::GasGauge)));
    assert_eq!(e.len(), 2);
    assert_eq!(text_of(&e[0].1), "Diagnostics");
    assert_eq!(text_of(&e[1].1), "com.apple.mobile.gas_gauge");
    assert_eq!(text_of(&entries(diagnostics_request(DiagnosticsAction::Sleep))[0].1), "Sleep");
    assert_eq!(DiagnosticsDomain::NAND.as_str(), "com.apple.mobile.NAND");
    let fail = dict(vec![("Status", text("Failure")), ("Error", text("nope"))]);
    assert_eq!(diagnostics_reply(fail).unwrap_err(), IdeviceError::DiagnosticsError(s("nope")));
    let fail2 = dict(vec![("Status", text("Failure"))]);
    assert_eq!(diagnostics_reply(fail2).unwrap_err(), IdeviceError::DiagnosticsError(s("Unknown error")));
    let ok = dict(vec![("Status", text("Success")), ("Diagnostics", PlistValue::Integer(5))]);
    assert!(matches!(diagnostics_reply(ok), Ok(PlistValue::Integer(5))));
    let whole = dict(vec![("Status", text("Success"))]);
    assert!(matches!(diagnostics_reply(whole), Ok(PlistValue::Dictionary(_))));
}

#[test]
fn file_relay_sources_and_status() {
    let e = entries(file_relay_request(&[FileRelaySource::Logs, FileRelaySource::CrashReporterClearable, FileRelaySource::Logs]));
    assert_eq!(e[0].0, "Sources");
    match &e[0].1 {
        PlistValue::Array(a) => {
            let names: Vec<&str> = a.iter().map(text_of).collect();
            assert_eq!(names, vec!["Logs", "CrashReporter-Clearable"]);
        }
        _ => panic!("not an array"),
    }
    assert_eq!(file_relay_reply(&dict(vec![("Status", text("Complete"))])), Ok(()));
    assert_eq!(file_relay_reply(&dict(vec![])), Ok(()));
    assert_eq!(
        file_relay_reply(&dict(vec![("Status", text("Busy"))])),
        Err(IdeviceError::FileRelayError(s("Unexpected status: Busy")))
    );
    assert_eq!(
        file_relay_reply(&dict(vec![("Error", text("InvalidSource"))])),
        Err(IdeviceError::FileRelayError(s("InvalidSource")))
    );
    assert_eq!(archive_len(&[0, 0, 2, 0]), 512);
}

#[test]
fn house_arrest_replies() {
    let e = entries(command_request("VendDocuments", "com.x"));
    assert_eq!(text_of(&e[0].1), "VendDocuments");
    assert_eq!(text_of(&e[1].1), "com.x");
    assert_eq!(check_result(&dict(vec![("Status", text("Complete"))])), Ok(()));
    assert_eq!(
        check_result(&dict(vec![])),
        Err(IdeviceError::HouseArrestError(s("No status in response")))
    );
    assert_eq!(
        check_result(&dict(vec![("Status", text("Waiting"))])),
        Err(IdeviceError::HouseArrestError(s("Unexpected status: Waiting")))
    );
    assert_eq!(
        check_result(&dict(vec![("Error", text("ApplicationLookupFailed"))])),
        Err(IdeviceError::HouseArrestError(s("ApplicationLookupFailed")))
    );
    let apps = dict(vec![("ApplicationList", dict(vec![("com.a", dict(vec![])), ("com.b", dict(vec![]))]))]);
    assert_eq!(parse_application_list(apps), Ok(vec![s("com.a"), s("com.b")]));
    assert_eq!(
        parse_application_list(dict(vec![])),
        Err(IdeviceError::HouseArrestError(s("Failed to get application list")))
    );
    let info = dict(vec![("LookupResult", dict(vec![("Path", text("/var/x"))]))]);
    let got = parse_application_info(info).unwrap();
    assert_eq!(got[0].0, "Path");
    assert_eq!(
        parse_application_info(dict(vec![])).unwrap_err(),
        IdeviceError::HouseArrestError(s("Failed to get application info"))
    );
}

#[test]
fn backup_requests_and_confirmation() {
    let e = entries(backup_request(BackupType::Incremental, "/backups", Some("k")));
    assert_eq!(e.len(), 4);
    assert_eq!(text_of(&e[0].1), "InitiateBackup");
    assert_eq!(text_of(&e[1].1), "Incremental");
    assert_eq!(text_of(&e[2].1), "/backups");
    assert_eq!(e[3].0, "EncryptionKey");
    assert_eq!(entries(restore_request("/b", None)).len(), 2);
    assert_eq!(read_confirmation(&dict(vec![("Status", text("Success"))])), Ok(()));
    assert_eq!(read_confirmation(&dict(vec![])), Ok(()));
    assert_eq!(
        read_confirmation(&dict(vec![("Status", PlistValue::Integer(1)), ("Error", text("bad"))])),
        Err(IdeviceError::MobileBackupError(s("bad")))
    );
}

#[test]
fn screenshot_replies() {
    assert!(entries(screenshot_request()).is_empty());
    let ok = dict(vec![("Status", text("Success")), ("ImageData", PlistValue::Data(vec![0x4d, 0x4d]))]);
    assert_eq!(screenshot_reply(ok), Ok(vec![0x4d, 0x4d]));
    assert_eq!(
        screenshot_reply(dict(vec![])),
        Err(IdeviceError::ScreenshotError(s("No image data received")))
    );
    assert_eq!(
        screenshot_reply(dict(vec![("Status", text("Busy"))])),
        Err(IdeviceError::ScreenshotError(s("Unknown error")))
    );
}

#[test]
fn amfi_and_web_inspector() {
    assert_eq!(developer_mode_query(), b"Q".to_vec());
    assert!(developer_mode_from_reply(&[1, 0, 0, 0]));
    assert!(!developer_mode_from_reply(&[0, 1, 1, 1]));
    assert_eq!(applications_command(), vec![b'L']);
    assert_eq!(webview_command("ab"), b"C\0\0\0\x02ab".to_vec());
    let apps = dict(vec![(
        "Applications",
        PlistValue::Array(vec![dict(vec![("Name", text("Safari"))]), dict(vec![]), dict(vec![("Name", text("Mail"))])]),
    )]);
    assert_eq!(parse_applications(&apps), Ok(vec![s("Safari"), s("Mail")]));
    assert_eq!(
        parse_applications(&dict(vec![])),
        Err(IdeviceError::WebInspectorError(s("Invalid application list structure")))
    );
    assert_eq!(parse_websocket_url(&dict(vec![("WebSocketURL", text("ws://x"))])), Ok(s("ws://x")));
    assert_eq!(
        parse_websocket_url(&dict(vec![])),
        Err(IdeviceError::WebInspectorError(s("Missing WebSocket URL")))
    );
}
