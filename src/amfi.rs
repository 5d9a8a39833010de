//! AMFI: the developer-mode query.
use vstd::prelude::*;

verus! {

pub const AMFI_SERVICE_NAME: &'static str = "com.apple.amfi";
pub const COMPANION_PROXY_SERVICE_NAME: &'static str = "com.apple.companion_proxy";

/// The one-byte query: `Q`.
pub fn developer_mode_query() -> (r: Vec<u8>)
    ensures
        r@ == seq![0x51u8],
{
    let mut q: Vec<u8> = Vec::new();
    q.push(0x51);
    assert(q@ =~= seq![0x51u8]);
    q
}

/// Reads the four-byte answer: developer mode is on when its first byte is not zero.
pub fn developer_mode_from_reply(reply: &[u8]) -> (r: bool)
    requires
        reply@.len() >= 4,
    ensures
        r == (reply@[0] != 0),
{
    reply[0] != 0
}

} // verus!
