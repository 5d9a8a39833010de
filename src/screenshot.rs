//! The screenshot service: an empty request, and image bytes in the reply.
use vstd::prelude::*;
use vstd::string::StringExecFns;
use crate::error::IdeviceError;
use crate::plist_value::{PlistValue, dict_entries};
use crate::reply::{error_message, error_text, status_differs, status_is_not};

verus! {

pub const SCREENSHOTR_SERVICE_NAME: &'static str = "com.apple.screenshotr";

/// The request for a screenshot: an empty dictionary.
pub fn screenshot_request() -> (r: PlistValue)
    ensures
        r is Dictionary,
        dict_entries(r).len() == 0,
{
    PlistValue::Dictionary(Vec::new())
}

/// The image bytes of a screenshot reply.
pub fn screenshot_reply(response: PlistValue) -> (r: Result<Vec<u8>, IdeviceError>)
    ensures
        status_differs(response, "Success"@) ==> (r matches Err(IdeviceError::ScreenshotError(m))
            && m@ == error_text(response)),
        !status_differs(response, "Success"@) ==> match response.field("ImageData"@) {
            Some(PlistValue::Data(d)) => r matches Ok(b) && b@ == d@,
            _ => r matches Err(IdeviceError::ScreenshotError(m)) && m@ == "No image data received"@,
        },
{
    if status_is_not(&response, "Success") {
        return Err(IdeviceError::ScreenshotError(error_message(&response)));
    }
    match response.take("ImageData") {
        Some(PlistValue::Data(d)) => Ok(d),
        _ => Err(IdeviceError::ScreenshotError(String::from_str("No image data received"))),
    }
}

} // verus!
