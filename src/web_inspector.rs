//! The web inspector: one-letter commands, and the reading of its replies.
use vstd::prelude::*;
use vstd::string::StringExecFns;
use crate::bytes::{append_bytes, push_u32_be, u32_be};
use crate::error::IdeviceError;
use crate::plist_value::PlistValue;

verus! {

pub const WEB_INSPECTOR_SERVICE_NAME: &'static str = "com.apple.webinspector";

/// The one-byte command that lists the inspectable applications: `L`.
pub fn applications_command() -> (r: Vec<u8>)
    ensures
        r@ == seq![0x4cu8],
{
    let r = vec![0x4cu8];
    assert(r@ =~= seq![0x4cu8]);
    r
}

/// The command that connects to `app_id`: the one-byte command `C`, the
/// identifier's length as four big-endian bytes, and the identifier.
pub fn webview_command(app_id: &str) -> (r: Vec<u8>)
    requires
        vstd::utf8::encode_utf8(app_id@).len() <= u32::MAX,
    ensures
        r@ == seq![0x43u8] + u32_be(vstd::utf8::encode_utf8(app_id@).len() as u32)
            + vstd::utf8::encode_utf8(app_id@),
{
    let b = app_id.as_bytes();
    let mut r = vec![0x43u8];
    push_u32_be(&mut r, b.len() as u32);
    append_bytes(&mut r, b);
    assert(r@ =~= seq![0x43u8] + u32_be(vstd::utf8::encode_utf8(app_id@).len() as u32)
        + vstd::utf8::encode_utf8(app_id@));
    r
}

/// The `Name` text of an application entry, where it has one.
pub open spec fn app_name(entry: PlistValue) -> Option<Seq<char>> {
    entry.text_field("Name"@)
}

/// The names of the application entries that have one, in order.
pub open spec fn app_names(entries: Seq<PlistValue>) -> Seq<Seq<char>>
    decreases entries.len(),
{
    if entries.len() == 0 {
        Seq::empty()
    } else {
        let init = app_names(entries.drop_last());
        match app_name(entries.last()) {
            Some(n) => init.push(n),
            None => init,
        }
    }
}

/// The application names of a list reply: its `Applications` array, and in it
/// the `Name` of each entry that has one.
pub fn parse_applications(reply: &PlistValue) -> (r: Result<Vec<String>, IdeviceError>)
    ensures
        match reply.field("Applications"@) {
            Some(PlistValue::Array(a)) => r matches Ok(names) && names@.len() == app_names(a@).len()
                && forall|i: int| 0 <= i < names@.len() ==> (#[trigger] names@[i])@ == app_names(a@)[i],
            _ => r matches Err(IdeviceError::WebInspectorError(m)) && m@
                == "Invalid application list structure"@,
        },
{
    let apps = match reply.get("Applications") {
        Some(PlistValue::Array(a)) => a,
        _ => return Err(IdeviceError::WebInspectorError(String::from_str("Invalid application list structure"))),
    };
    let mut names: Vec<String> = Vec::new();
    let mut i: usize = 0;
    assert(apps@.subrange(0, 0) =~= Seq::<PlistValue>::empty());
    while i < apps.len()
        invariant
            0 <= i <= apps@.len(),
            names@.len() == app_names(apps@.subrange(0, i as int)).len(),
            forall|j: int| 0 <= j < names@.len() ==> (#[trigger] names@[j])@ == app_names(apps@.subrange(0, i as int))[j],
        decreases apps@.len() - i,
    {
        assert(apps@.subrange(0, i + 1).drop_last() =~= apps@.subrange(0, i as int));
        if let Some(n) = apps[i].get_text("Name") {
            names.push(n.clone());
        }
        i = i + 1;
    }
    assert(apps@.subrange(0, apps@.len() as int) =~= apps@);
    Ok(names)
}

/// The `WebSocketURL` text of a connect reply.
pub fn parse_websocket_url(reply: &PlistValue) -> (r: Result<String, IdeviceError>)
    ensures
        match reply.text_field("WebSocketURL"@) {
            Some(u) => r matches Ok(s) && s@ == u,
            None => r matches Err(IdeviceError::WebInspectorError(m)) && m@ == "Missing WebSocket URL"@,
        },
{
    match reply.get_text("WebSocketURL") {
        Some(u) => Ok(u.clone()),
        None => Err(IdeviceError::WebInspectorError(String::from_str("Missing WebSocket URL"))),
    }
}

} // verus!
