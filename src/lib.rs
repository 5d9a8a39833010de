//! A host-side client library for the services of Apple mobile devices: the
//! multiplexer's control protocol, the property-list and AFC framings, the AFC
//! file protocol, the notification proxy, the image mounter, and the smaller
//! plist-framed services. Each module states its protocol rules as verified
//! contracts; moving bytes over sockets is left to the caller.

pub mod afc;
pub mod amfi;
pub mod afc_file;
pub mod bytes;
pub mod diagnostics;
pub mod error;
pub mod file_relay;
pub mod house_arrest;
pub mod mobile_backup;
pub mod mounter;
pub mod notification_proxy;
pub mod plist_frame;
pub mod plist_value;
pub mod provider;
pub mod reply;
pub mod screenshot;
pub mod text;
pub mod usbmuxd;
pub mod web_inspector;
