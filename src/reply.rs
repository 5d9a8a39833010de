//! Reading the `Status` and `Error` fields that service replies share.
use vstd::prelude::*;
use vstd::string::StringExecFns;
use crate::plist_value::PlistValue;
use crate::text::str_eq;

verus! {

/// The message a reply gives for a failure: its `Error` text, else "Unknown error".
pub open spec fn error_text(response: PlistValue) -> Seq<char> {
    match response.text_field("Error"@) {
        Some(t) => t,
        None => "Unknown error"@,
    }
}

pub fn error_message(response: &PlistValue) -> (r: String)
    ensures
        r@ == error_text(*response),
{
    match response.get_text("Error") {
        Some(t) => t.clone(),
        None => String::from_str("Unknown error"),
    }
}

/// Whether the reply has a `Status` text other than `expected`.
pub open spec fn status_differs(response: PlistValue, expected: Seq<char>) -> bool {
    match response.text_field("Status"@) {
        Some(t) => t != expected,
        None => false,
    }
}

pub fn status_is_not(response: &PlistValue, expected: &str) -> (r: bool)
    ensures
        r == status_differs(*response, expected@),
{
    match response.get_text("Status") {
        Some(t) => !str_eq(t.as_str(), expected),
        None => false,
    }
}

/// The text under `Status` where it is one; else the empty text.
pub open spec fn status_text(response: PlistValue) -> Seq<char> {
    match response.text_field("Status"@) {
        Some(t) => t,
        None => Seq::empty(),
    }
}

/// "Unexpected status: " followed by the reply's status text.
pub fn unexpected_status(response: &PlistValue) -> (r: String)
    ensures
        r@ == "Unexpected status: "@ + status_text(*response),
{
    let head = String::from_str("Unexpected status: ");
    match response.get_text("Status") {
        Some(t) => head.concat(t.as_str()),
        None => {
            assert(head@ + Seq::<char>::empty() =~= head@);
            head
        },
    }
}

} // verus!
