//! Service providers: where a device's services are reached, and the lockdown
//! `StartService` exchange that opens one.
use vstd::prelude::*;
use crate::error::IdeviceError;
use crate::plist_value::{PlistValue, dict_entries, entry_text, text_entry};
use crate::usbmuxd::{UsbmuxdAddr, UsbmuxdDevice};

verus! {

/// The device port where lockdown listens.
pub const LOCKDOWN_PORT: u16 = 62078;

/// Reaches a device's services through the multiplexer.
#[derive(Debug, Clone)]
pub struct UsbmuxdProvider {
    pub addr: UsbmuxdAddr,
    pub tag: u32,
    pub udid: String,
    pub device_id: u32,
    pub label: String,
}

/// Reaches a device's services over TCP, with a pairing record at hand.
#[derive(Debug, Clone)]
pub struct TcpProvider {
    /// The device's address, as host text.
    pub host: String,
    pub pairing_record: Vec<u8>,
    pub label: String,
}

/// Either way of reaching a device.
#[derive(Debug, Clone)]
pub enum ServiceProvider {
    Usbmuxd(UsbmuxdProvider),
    Tcp(TcpProvider),
}

impl UsbmuxdDevice {
    /// A provider for this device through the multiplexer at `addr`.
    pub fn to_provider(&self, addr: UsbmuxdAddr, tag: u32, label: String) -> (r: UsbmuxdProvider)
        ensures
            r.addr == addr,
            r.tag == tag,
            r.udid@ == self.udid@,
            r.device_id == self.device_id,
            r.label == label,
    {
        UsbmuxdProvider { addr, tag, udid: self.udid.clone(), device_id: self.device_id, label }
    }
}

/// The lockdown request that starts the service `name`.
pub fn start_service_request(name: &str) -> (r: PlistValue)
    ensures
        dict_entries(r).len() == 2,
        entry_text(dict_entries(r)[0], "Request"@, "StartService"@),
        entry_text(dict_entries(r)[1], "Service"@, name@),
{
    PlistValue::Dictionary(vec![text_entry("Request", "StartService"), text_entry("Service", name)])
}

/// Where a started service listens, and whether it speaks TLS.
#[derive(Debug, Clone, Copy, PartialEq, Eq, Structural)]
pub struct StartedService {
    pub port: u16,
    pub enable_ssl: bool,
}

/// Whether the reply's `EnableServiceSSL` is true; absent means false.
pub open spec fn ssl_wanted(reply: PlistValue) -> bool {
    reply.field("EnableServiceSSL"@) == Some(PlistValue::Boolean(true))
}

/// Reads a `StartService` reply: its `Port`, which must be a port number, and
/// whether TLS is wanted.
pub fn start_service_reply(reply: &PlistValue) -> (r: Result<StartedService, IdeviceError>)
    ensures
        match reply.field("Port"@) {
            Some(PlistValue::Integer(p)) => if 0 < p <= u16::MAX {
                r == Ok::<StartedService, IdeviceError>(
                    StartedService { port: p as u16, enable_ssl: ssl_wanted(*reply) },
                )
            } else {
                r == Err::<StartedService, IdeviceError>(IdeviceError::UnexpectedResponse)
            },
            _ => r == Err::<StartedService, IdeviceError>(IdeviceError::UnexpectedResponse),
        },
{
    let port: u16 = match reply.get("Port") {
        Some(PlistValue::Integer(p)) => {
            if *p <= 0 || *p > 0xffff {
                return Err(IdeviceError::UnexpectedResponse);
            }
            *p as u16
        },
        _ => return Err(IdeviceError::UnexpectedResponse),
    };
    let enable_ssl = match reply.get("EnableServiceSSL") {
        Some(PlistValue::Boolean(b)) => *b,
        _ => false,
    };
    Ok(StartedService { port, enable_ssl })
}

} // verus!
