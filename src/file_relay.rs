//! The file relay: which sources to ask for, and the reading of its reply.
use vstd::prelude::*;
use crate::bytes::{be_u32_at, read_u32_be};
use crate::error::IdeviceError;
use crate::plist_value::{PlistValue, dict_entries, is_text};
use crate::reply::{error_message, error_text, status_text, unexpected_status};
use crate::text::str_eq;
use vstd::string::StringExecFns;

verus! {

pub const FILE_RELAY_SERVICE_NAME: &'static str = "com.apple.mobile.file_relay";

/// A set of files the relay can gather.
#[derive(Debug, Clone, Copy, PartialEq, Eq, Structural, Hash)]
pub enum FileRelaySource {
    AppleSupport,
    Network,
    VPN,
    Wifi,
    UserDatabases,
    CrashReporter,
    Tmp,
    SystemConfiguration,
    Keyboard,
    Logs,
    Lockdown,
    MobileInstallation,
    CrashReporterClearable,
    Diagnostics,
    All,
}

pub open spec fn source_name(s: FileRelaySource) -> Seq<char> {
    match s {
        FileRelaySource::AppleSupport => "AppleSupport"@,
        FileRelaySource::Network => "Network"@,
        FileRelaySource::VPN => "VPN"@,
        FileRelaySource::Wifi => "Wifi"@,
        FileRelaySource::UserDatabases => "UserDatabases"@,
        FileRelaySource::CrashReporter => "CrashReporter"@,
        FileRelaySource::Tmp => "Tmp"@,
        FileRelaySource::SystemConfiguration => "SystemConfiguration"@,
        FileRelaySource::Keyboard => "Keyboard"@,
        FileRelaySource::Logs => "Logs"@,
        FileRelaySource::Lockdown => "Lockdown"@,
        FileRelaySource::MobileInstallation => "MobileInstallation"@,
        FileRelaySource::CrashReporterClearable => "CrashReporter-Clearable"@,
        FileRelaySource::Diagnostics => "Diagnostics"@,
        FileRelaySource::All => "All"@,
    }
}

impl FileRelaySource {
    pub fn as_str(&self) -> (r: &'static str)
        ensures
            r@ == source_name(*self),
    {
        match self {
            FileRelaySource::AppleSupport => "AppleSupport",
            FileRelaySource::Network => "Network",
            FileRelaySource::VPN => "VPN",
            FileRelaySource::Wifi => "Wifi",
            FileRelaySource::UserDatabases => "UserDatabases",
            FileRelaySource::CrashReporter => "CrashReporter",
            FileRelaySource::Tmp => "Tmp",
            FileRelaySource::SystemConfiguration => "SystemConfiguration",
            FileRelaySource::Keyboard => "Keyboard",
            FileRelaySource::Logs => "Logs",
            FileRelaySource::Lockdown => "Lockdown",
            FileRelaySource::MobileInstallation => "MobileInstallation",
            FileRelaySource::CrashReporterClearable => "CrashReporter-Clearable",
            FileRelaySource::Diagnostics => "Diagnostics",
            FileRelaySource::All => "All",
        }
    }
}

/// The sources of `s` with repeats left out, each where it first occurs.
pub open spec fn distinct_sources(s: Seq<FileRelaySource>) -> Seq<FileRelaySource>
    decreases s.len(),
{
    if s.len() == 0 {
        Seq::empty()
    } else if s.drop_last().contains(s.last()) {
        distinct_sources(s.drop_last())
    } else {
        distinct_sources(s.drop_last()).push(s.last())
    }
}

pub proof fn lemma_distinct_sources_contains(s: Seq<FileRelaySource>, x: FileRelaySource)
    ensures
        distinct_sources(s).contains(x) == s.contains(x),
    decreases s.len(),
{
    if s.len() > 0 {
        lemma_distinct_sources_contains(s.drop_last(), x);
        if s.last() == x {
            assert(s.contains(x)) by {
                assert(s[s.len() - 1] == x);
            }
            if !s.drop_last().contains(x) {
                assert(distinct_sources(s).last() == x);
            }
        }
        if s.drop_last().contains(x) {
            let j = choose|j: int| 0 <= j < s.drop_last().len() && s.drop_last()[j] == x;
            assert(s[j] == x);
        }
        if s.contains(x) && s.last() != x {
            let j = choose|j: int| 0 <= j < s.len() && s[j] == x;
            assert(s.drop_last()[j] == x);
        }
        if distinct_sources(s).contains(x) && !distinct_sources(s.drop_last()).contains(x) {
            let d = distinct_sources(s.drop_last());
            if !s.drop_last().contains(s.last()) {
                let j = choose|j: int| 0 <= j < distinct_sources(s).len() && distinct_sources(s)[j] == x;
                if j < d.len() {
                    assert(d[j] == x);
                }
            }
        }
        if distinct_sources(s.drop_last()).contains(x) && !s.drop_last().contains(s.last()) {
            let d = distinct_sources(s.drop_last());
            let j = choose|j: int| 0 <= j < d.len() && d[j] == x;
            assert(distinct_sources(s)[j] == x);
        }
    }
}

/// The request for `sources`: a `Sources` array that names each requested
/// source once, in the order first requested.
pub fn file_relay_request(sources: &[FileRelaySource]) -> (r: PlistValue)
    ensures
        dict_entries(r).len() == 1,
        dict_entries(r)[0].0@ == "Sources"@,
        dict_entries(r)[0].1 matches PlistValue::Array(a) && a@.len() == distinct_sources(sources@).len()
            && forall|i: int|
            0 <= i < a@.len() ==> is_text(#[trigger] a@[i], source_name(distinct_sources(sources@)[i])),
{
    let mut picked: Vec<FileRelaySource> = Vec::new();
    let mut names: Vec<PlistValue> = Vec::new();
    let mut i: usize = 0;
    while i < sources.len()
        invariant
            0 <= i <= sources@.len(),
            picked@ == distinct_sources(sources@.subrange(0, i as int)),
            names@.len() == picked@.len(),
            forall|j: int|
                0 <= j < names@.len() ==> is_text(#[trigger] names@[j], source_name(picked@[j])),
        decreases sources@.len() - i,
    {
        let s = sources[i];
        let ghost prefix = sources@.subrange(0, i as int);
        assert(sources@.subrange(0, i + 1).drop_last() =~= prefix);
        let mut seen = false;
        let mut k: usize = 0;
        while k < picked.len()
            invariant
                0 <= k <= picked@.len(),
                seen == exists|j: int| 0 <= j < k && picked@[j] == s,
            decreases picked@.len() - k,
        {
            if picked[k] == s {
                seen = true;
            }
            k = k + 1;
        }
        proof {
            lemma_distinct_sources_contains(prefix, s);
            assert(seen == picked@.contains(s));
        }
        if !seen {
            picked.push(s);
            names.push(PlistValue::String(String::from_str(s.as_str())));
        }
        i = i + 1;
    }
    assert(sources@.subrange(0, sources@.len() as int) =~= sources@);
    PlistValue::Dictionary(vec![(String::from_str("Sources"), PlistValue::Array(names))])
}

/// Reads the reply to a request: an `Error` field fails with its message; a
/// `Status` other than `Complete` fails naming it; else the archive follows.
pub fn file_relay_reply(response: &PlistValue) -> (r: Result<(), IdeviceError>)
    ensures
        response.field("Error"@) is Some ==> (r matches Err(IdeviceError::FileRelayError(m)) && m@
            == error_text(*response)),
        response.field("Error"@) is None && response.field("Status"@) is Some && status_text(*response)
            != "Complete"@ ==> (r matches Err(IdeviceError::FileRelayError(m)) && m@
            == "Unexpected status: "@ + status_text(*response)),
        response.field("Error"@) is None && (response.field("Status"@) is None || status_text(*response)
            == "Complete"@) ==> r is Ok,
{
    if response.get("Error").is_some() {
        return Err(IdeviceError::FileRelayError(error_message(response)));
    }
    if response.get("Status").is_some() {
        let complete = match response.get_text("Status") {
            Some(t) => str_eq(t.as_str(), "Complete"),
            None => false,
        };
        if !complete {
            proof {
                reveal_strlit("Complete");
            }
            return Err(IdeviceError::FileRelayError(unexpected_status(response)));
        }
    }
    Ok(())
}

/// The length of the archive that follows a `Complete` reply, from its
/// four-byte big-endian prefix.
pub fn archive_len(prefix: &[u8]) -> (r: usize)
    requires
        prefix@.len() >= 4,
    ensures
        r == be_u32_at(prefix@, 0),
{
    read_u32_be(prefix, 0) as usize
}

} // verus!
