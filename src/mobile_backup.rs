//! Mobile backup: the requests that start a backup or a restore, and the
//! reading of the confirmation.
use vstd::prelude::*;
use crate::error::IdeviceError;
use crate::plist_value::{PlistValue, dict_entries, entry_text, text_entry};
use crate::reply::{error_message, error_text};
use crate::text::str_eq;

verus! {

pub const MOBILE_BACKUP_SERVICE_NAME: &'static str = "com.apple.mobile.backup";

/// What kind of backup to make.
#[derive(Debug, Clone, Copy, PartialEq, Eq, Structural)]
pub enum BackupType {
    Full,
    Incremental,
}

pub open spec fn backup_type_name(t: BackupType) -> Seq<char> {
    match t {
        BackupType::Full => "Full"@,
        BackupType::Incremental => "Incremental"@,
    }
}

/// An `InitiateBackup` request into `target_dir`, with the encryption key where one is given.
pub fn backup_request(backup_type: BackupType, target_dir: &str, encryption_key: Option<&str>) -> (r: PlistValue)
    ensures
        entry_text(dict_entries(r)[0], "MessageName"@, "InitiateBackup"@),
        entry_text(dict_entries(r)[1], "BackupType"@, backup_type_name(backup_type)),
        entry_text(dict_entries(r)[2], "TargetDirectory"@, target_dir@),
        match encryption_key {
            Some(k) => dict_entries(r).len() == 4 && entry_text(dict_entries(r)[3], "EncryptionKey"@, k@),
            None => dict_entries(r).len() == 3,
        },
{
    let kind = match backup_type {
        BackupType::Full => "Full",
        BackupType::Incremental => "Incremental",
    };
    let mut entries = vec![
        text_entry("MessageName", "InitiateBackup"),
        text_entry("BackupType", kind),
        text_entry("TargetDirectory", target_dir),
    ];
    if let Some(k) = encryption_key {
        entries.push(text_entry("EncryptionKey", k));
    }
    PlistValue::Dictionary(entries)
}

/// An `InitiateRestore` request from `backup_dir`, with the encryption key where one is given.
pub fn restore_request(backup_dir: &str, encryption_key: Option<&str>) -> (r: PlistValue)
    ensures
        entry_text(dict_entries(r)[0], "MessageName"@, "InitiateRestore"@),
        entry_text(dict_entries(r)[1], "BackupDirectory"@, backup_dir@),
        match encryption_key {
            Some(k) => dict_entries(r).len() == 3 && entry_text(dict_entries(r)[2], "EncryptionKey"@, k@),
            None => dict_entries(r).len() == 2,
        },
{
    let mut entries = vec![
        text_entry("MessageName", "InitiateRestore"),
        text_entry("BackupDirectory", backup_dir),
    ];
    if let Some(k) = encryption_key {
        entries.push(text_entry("EncryptionKey", k));
    }
    PlistValue::Dictionary(entries)
}

/// A `GetBackupInfo` request.
pub fn backup_info_request() -> (r: PlistValue)
    ensures
        dict_entries(r).len() == 1,
        entry_text(dict_entries(r)[0], "MessageName"@, "GetBackupInfo"@),
{
    PlistValue::Dictionary(vec![text_entry("MessageName", "GetBackupInfo")])
}

/// Whether a confirmation fails: it has a `Status` that is not the text `Success`.
pub open spec fn confirmation_fails(response: PlistValue) -> bool {
    match response.field("Status"@) {
        Some(PlistValue::String(s)) => s@ != "Success"@,
        Some(_) => true,
        None => false,
    }
}

/// Reads the confirmation of a backup or restore request.
pub fn read_confirmation(response: &PlistValue) -> (r: Result<(), IdeviceError>)
    ensures
        confirmation_fails(*response) ==> (r matches Err(IdeviceError::MobileBackupError(m)) && m@
            == error_text(*response)),
        !confirmation_fails(*response) ==> r is Ok,
{
    let fails = match response.get("Status") {
        Some(PlistValue::String(s)) => !str_eq(s.as_str(), "Success"),
        Some(_) => true,
        None => false,
    };
    if fails {
        return Err(IdeviceError::MobileBackupError(error_message(response)));
    }
    Ok(())
}

} // verus!
