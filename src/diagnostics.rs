//! The diagnostics relay: requests by action, and the reading of replies.
use vstd::prelude::*;
use crate::error::IdeviceError;
use crate::plist_value::{PlistValue, dict_entries, entry_text, text_entry};
use crate::reply::{error_message, error_text, status_differs, status_is_not};

verus! {

pub const DIAGNOSTICS_SERVICE_NAME: &'static str = "com.apple.mobile.diagnostics_relay";

/// What to ask the diagnostics relay for.
#[derive(Debug, Clone, Copy, PartialEq, Eq, Structural)]
pub enum DiagnosticsAction {
    All,
    Domain(DiagnosticsDomain),
    IORegistry,
    NetworkInterfaces,
    Restart,
    Shutdown,
    Sleep,
}

/// A diagnostics domain.
#[derive(Debug, Clone, Copy, PartialEq, Eq, Structural)]
pub enum DiagnosticsDomain {
    WiFi,
    GasGauge,
    NAND,
    HDMI,
}

pub open spec fn domain_name(d: DiagnosticsDomain) -> Seq<char> {
    match d {
        DiagnosticsDomain::WiFi => "com.apple.mobile.wifi"@,
        DiagnosticsDomain::GasGauge => "com.apple.mobile.gas_gauge"@,
        DiagnosticsDomain::NAND => "com.apple.mobile.NAND"@,
        DiagnosticsDomain::HDMI => "com.apple.mobile.HDMI"@,
    }
}

impl DiagnosticsDomain {
    pub fn as_str(&self) -> (r: &'static str)
        ensures
            r@ == domain_name(*self),
    {
        match self {
            DiagnosticsDomain::WiFi => "com.apple.mobile.wifi",
            DiagnosticsDomain::GasGauge => "com.apple.mobile.gas_gauge",
            DiagnosticsDomain::NAND => "com.apple.mobile.NAND",
            DiagnosticsDomain::HDMI => "com.apple.mobile.HDMI",
        }
    }
}

/// The `Request` word of an action.
pub open spec fn request_word(a: DiagnosticsAction) -> Seq<char> {
    match a {
        DiagnosticsAction::All => "All"@,
        DiagnosticsAction::Domain(_) => "Diagnostics"@,
        DiagnosticsAction::IORegistry => "IORegistry"@,
        DiagnosticsAction::NetworkInterfaces => "NetworkInterfaces"@,
        DiagnosticsAction::Restart => "Restart"@,
        DiagnosticsAction::Shutdown => "Shutdown"@,
        DiagnosticsAction::Sleep => "Sleep"@,
    }
}

/// The request for `action`: its `Request` word, and for a domain the
/// `Domain` name as well.
pub fn diagnostics_request(action: DiagnosticsAction) -> (r: PlistValue)
    ensures
        r is Dictionary,
        entry_text(dict_entries(r)[0], "Request"@, request_word(action)),
        match action {
            DiagnosticsAction::Domain(d) => dict_entries(r).len() == 2 && entry_text(
                dict_entries(r)[1],
                "Domain"@,
                domain_name(d),
            ),
            _ => dict_entries(r).len() == 1,
        },
{
    match action {
        DiagnosticsAction::All => PlistValue::Dictionary(vec![text_entry("Request", "All")]),
        DiagnosticsAction::Domain(d) => PlistValue::Dictionary(
            vec![text_entry("Request", "Diagnostics"), text_entry("Domain", d.as_str())],
        ),
        DiagnosticsAction::IORegistry => PlistValue::Dictionary(vec![text_entry("Request", "IORegistry")]),
        DiagnosticsAction::NetworkInterfaces => PlistValue::Dictionary(
            vec![text_entry("Request", "NetworkInterfaces")],
        ),
        DiagnosticsAction::Restart => PlistValue::Dictionary(vec![text_entry("Request", "Restart")]),
        DiagnosticsAction::Shutdown => PlistValue::Dictionary(vec![text_entry("Request", "Shutdown")]),
        DiagnosticsAction::Sleep => PlistValue::Dictionary(vec![text_entry("Request", "Sleep")]),
    }
}

/// Reads a diagnostics reply: a `Status` other than `Success` fails with the
/// reply's error message; else the `Diagnostics` value is returned, or the
/// whole reply where it has none.
pub fn diagnostics_reply(response: PlistValue) -> (r: Result<PlistValue, IdeviceError>)
    ensures
        status_differs(response, "Success"@) ==> (r matches Err(IdeviceError::DiagnosticsError(m))
            && m@ == error_text(response)),
        !status_differs(response, "Success"@) ==> match response.field("Diagnostics"@) {
            Some(d) => r == Ok::<PlistValue, IdeviceError>(d),
            None => r == Ok::<PlistValue, IdeviceError>(response),
        },
{
    if status_is_not(&response, "Success") {
        return Err(IdeviceError::DiagnosticsError(error_message(&response)));
    }
    if response.get("Diagnostics").is_some() {
        match response.take("Diagnostics") {
            Some(d) => Ok(d),
            None => Err(IdeviceError::UnexpectedResponse),
        }
    } else {
        Ok(response)
    }
}

} // verus!
