//! House arrest: vending an app's container, after which the same stream
//! speaks AFC.
use vstd::prelude::*;
use vstd::string::StringExecFns;
use crate::afc::{AFC_HEADER_LEN, AfcClient, AfcPacketHeader, header_bytes};
use crate::bytes::u64_le;
use crate::error::IdeviceError;
use crate::plist_value::{PlistValue, dict_entries, entry_text, text_entry};
use crate::reply::{error_message, error_text, status_text, unexpected_status};
use crate::text::str_eq;

verus! {

pub const HOUSE_ARREST_SERVICE_NAME: &'static str = "com.apple.mobile.house_arrest";

/// A request with a `Command` and an `Identifier`.
pub fn command_request(command: &str, bundle_id: &str) -> (r: PlistValue)
    ensures
        dict_entries(r).len() == 2,
        entry_text(dict_entries(r)[0], "Command"@, command@),
        entry_text(dict_entries(r)[1], "Identifier"@, bundle_id@),
{
    PlistValue::Dictionary(vec![text_entry("Command", command), text_entry("Identifier", bundle_id)])
}

/// Reads the reply to a vend request: an `Error` field fails with its
/// message, a missing `Status` fails, and a `Status` other than `Complete`
/// fails naming it.
pub fn check_result(response: &PlistValue) -> (r: Result<(), IdeviceError>)
    ensures
        response.field("Error"@) is Some ==> (r matches Err(IdeviceError::HouseArrestError(m)) && m@
            == error_text(*response)),
        response.field("Error"@) is None && response.field("Status"@) is None ==> (r matches Err(
            IdeviceError::HouseArrestError(m),
        ) && m@ == "No status in response"@),
        response.field("Error"@) is None && response.field("Status"@) is Some && status_text(*response)
            != "Complete"@ ==> (r matches Err(IdeviceError::HouseArrestError(m)) && m@
            == "Unexpected status: "@ + status_text(*response)),
        response.field("Error"@) is None && response.field("Status"@) is Some && status_text(*response)
            == "Complete"@ ==> r is Ok,
{
    if response.get("Error").is_some() {
        return Err(IdeviceError::HouseArrestError(error_message(response)));
    }
    if response.get("Status").is_none() {
        return Err(IdeviceError::HouseArrestError(String::from_str("No status in response")));
    }
    let complete = match response.get_text("Status") {
        Some(t) => str_eq(t.as_str(), "Complete"),
        None => false,
    };
    if !complete {
        proof {
            reveal_strlit("Complete");
        }
        return Err(IdeviceError::HouseArrestError(unexpected_status(response)));
    }
    Ok(())
}

/// The names under `ApplicationList` of a `ListApplications` reply.
pub fn parse_application_list(response: PlistValue) -> (r: Result<Vec<String>, IdeviceError>)
    ensures
        response.field("Error"@) is Some ==> (r matches Err(IdeviceError::HouseArrestError(m)) && m@
            == error_text(response)),
        response.field("Error"@) is None ==> match response.field("ApplicationList"@) {
            Some(PlistValue::Dictionary(apps)) => r matches Ok(names) && names@.len() == apps@.len()
                && forall|i: int| 0 <= i < names@.len() ==> (#[trigger] names@[i])@ == apps@[i].0@,
            _ => r matches Err(IdeviceError::HouseArrestError(m)) && m@ == "Failed to get application list"@,
        },
{
    if response.get("Error").is_some() {
        return Err(IdeviceError::HouseArrestError(error_message(&response)));
    }
    match response.take("ApplicationList") {
        Some(PlistValue::Dictionary(apps)) => {
            let mut names: Vec<String> = Vec::new();
            let mut i: usize = 0;
            while i < apps.len()
                invariant
                    0 <= i <= apps@.len(),
                    names@.len() == i,
                    forall|j: int| 0 <= j < i ==> (#[trigger] names@[j])@ == apps@[j].0@,
                decreases apps@.len() - i,
            {
                names.push(apps[i].0.clone());
                i = i + 1;
            }
            Ok(names)
        },
        _ => Err(IdeviceError::HouseArrestError(String::from_str("Failed to get application list"))),
    }
}

/// The entries under `LookupResult` of a `Lookup` reply.
pub fn parse_application_info(response: PlistValue) -> (r: Result<Vec<(String, PlistValue)>, IdeviceError>)
    ensures
        response.field("Error"@) is Some ==> (r matches Err(IdeviceError::HouseArrestError(m)) && m@
            == error_text(response)),
        response.field("Error"@) is None ==> match response.field("LookupResult"@) {
            Some(PlistValue::Dictionary(info)) => r == Ok::<Vec<(String, PlistValue)>, IdeviceError>(info),
            _ => r matches Err(IdeviceError::HouseArrestError(m)) && m@ == "Failed to get application info"@,
        },
{
    if response.get("Error").is_some() {
        return Err(IdeviceError::HouseArrestError(error_message(&response)));
    }
    match response.take("LookupResult") {
        Some(PlistValue::Dictionary(info)) => Ok(info),
        _ => Err(IdeviceError::HouseArrestError(String::from_str("Failed to get application info"))),
    }
}

/// Which container a vend request opens.
#[derive(Debug, Clone, Copy, PartialEq, Eq, Structural)]
pub enum VendKind {
    Documents,
    Container,
}

pub open spec fn vend_command(k: VendKind) -> Seq<char> {
    match k {
        VendKind::Documents => "VendDocuments"@,
        VendKind::Container => "VendContainer"@,
    }
}

/// A house arrest session over the byte stream `S`.
pub struct HouseArrestClient<S> {
    pub socket: S,
}

impl<S> HouseArrestClient<S> {
    pub fn new(socket: S) -> (r: Self)
        ensures
            r.socket == socket,
    {
        HouseArrestClient { socket }
    }

    /// The request that vends the container of `bundle_id`.
    pub fn vend_request(&self, kind: VendKind, bundle_id: &str) -> (r: PlistValue)
        ensures
            dict_entries(r).len() == 2,
            entry_text(dict_entries(r)[0], "Command"@, vend_command(kind)),
            entry_text(dict_entries(r)[1], "Identifier"@, bundle_id@),
    {
        match kind {
            VendKind::Documents => command_request("VendDocuments", bundle_id),
            VendKind::Container => command_request("VendContainer", bundle_id),
        }
    }

    /// Hands the stream over to a fresh AFC session once a vend request was
    /// answered `Complete`: the same stream, now numbered from zero.
    pub fn into_afc(self) -> (r: AfcClient<S>)
        ensures
            r.socket == self.socket,
            r.packet_num == 0,
    {
        AfcClient::new(self.socket)
    }
}

/// The first packet of the AFC session that a handoff starts, whatever its
/// operation and payload, opens with the eight little-endian bytes of its
/// `entire_length` (40 plus the payload), not with a four-byte plist length.
pub proof fn lemma_handoff_starts_with_afc_header(operation: u64, payload: Seq<u8>)
    requires
        payload.len() <= u64::MAX - AFC_HEADER_LEN,
    ensures
        ({
            let first = header_bytes(
                AfcPacketHeader {
                    entire_length: (AFC_HEADER_LEN + payload.len()) as u64,
                    this_length: (AFC_HEADER_LEN + payload.len()) as u64,
                    packet_num: 0,
                    operation,
                },
            ) + payload;
            first.subrange(0, 8) == u64_le((AFC_HEADER_LEN + payload.len()) as u64)
        }),
{
    let first = header_bytes(
        AfcPacketHeader {
            entire_length: (AFC_HEADER_LEN + payload.len()) as u64,
            this_length: (AFC_HEADER_LEN + payload.len()) as u64,
            packet_num: 0,
            operation,
        },
    ) + payload;
    assert(first.subrange(0, 8) =~= u64_le((AFC_HEADER_LEN + payload.len()) as u64));
}

} // verus!
