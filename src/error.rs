//! The closed set of failures the library reports.
use vstd::prelude::*;

verus! {

/// A non-zero status code that an AFC peer returns in a `STATUS` reply.
#[derive(Debug, Clone, Copy, PartialEq, Eq, Structural)]
pub enum AfcError {
    UnknownError,
    OpHeaderInvalid,
    NoResources,
    ReadError,
    WriteError,
    UnknownPacketType,
    InvalidArg,
    ObjectNotFound,
    ObjectIsDir,
    PermDenied,
    ServiceNotConnected,
    OpTimeout,
    TooMuchData,
    EndOfData,
    OpNotSupported,
    ObjectExists,
    ObjectBusy,
    NoSpaceLeft,
    OpWouldBlock,
    IoError,
    OpInterrupted,
    OpInProgress,
    InternalError,
    MuxError,
    NoMem,
    NotEnoughData,
    DirNotEmpty,
    /// A code outside the table; it is kept as received.
    Code(u64),
}

/// The error that status code `code` stands for.
pub open spec fn afc_error_of(code: u64) -> AfcError {
    if code == 1 {
        AfcError::UnknownError
    } else if code == 2 {
        AfcError::OpHeaderInvalid
    } else if code == 3 {
        AfcError::NoResources
    } else if code == 4 {
        AfcError::ReadError
    } else if code == 5 {
        AfcError::WriteError
    } else if code == 6 {
        AfcError::UnknownPacketType
    } else if code == 7 {
        AfcError::InvalidArg
    } else if code == 8 {
        AfcError::ObjectNotFound
    } else if code == 9 {
        AfcError::ObjectIsDir
    } else if code == 10 {
        AfcError::PermDenied
    } else if code == 11 {
        AfcError::ServiceNotConnected
    } else if code == 12 {
        AfcError::OpTimeout
    } else if code == 13 {
        AfcError::TooMuchData
    } else if code == 14 {
        AfcError::EndOfData
    } else if code == 15 {
        AfcError::OpNotSupported
    } else if code == 16 {
        AfcError::ObjectExists
    } else if code == 17 {
        AfcError::ObjectBusy
    } else if code == 18 {
        AfcError::NoSpaceLeft
    } else if code == 19 {
        AfcError::OpWouldBlock
    } else if code == 20 {
        AfcError::IoError
    } else if code == 21 {
        AfcError::OpInterrupted
    } else if code == 22 {
        AfcError::OpInProgress
    } else if code == 23 {
        AfcError::InternalError
    } else if code == 30 {
        AfcError::MuxError
    } else if code == 31 {
        AfcError::NoMem
    } else if code == 32 {
        AfcError::NotEnoughData
    } else if code == 33 {
        AfcError::DirNotEmpty
    } else {
        AfcError::Code(code)
    }
}

/// The status code that `e` is reported with.
pub open spec fn afc_code_of(e: AfcError) -> u64 {
    match e {
        AfcError::UnknownError => 1,
        AfcError::OpHeaderInvalid => 2,
        AfcError::NoResources => 3,
        AfcError::ReadError => 4,
        AfcError::WriteError => 5,
        AfcError::UnknownPacketType => 6,
        AfcError::InvalidArg => 7,
        AfcError::ObjectNotFound => 8,
        AfcError::ObjectIsDir => 9,
        AfcError::PermDenied => 10,
        AfcError::ServiceNotConnected => 11,
        AfcError::OpTimeout => 12,
        AfcError::TooMuchData => 13,
        AfcError::EndOfData => 14,
        AfcError::OpNotSupported => 15,
        AfcError::ObjectExists => 16,
        AfcError::ObjectBusy => 17,
        AfcError::NoSpaceLeft => 18,
        AfcError::OpWouldBlock => 19,
        AfcError::IoError => 20,
        AfcError::OpInterrupted => 21,
        AfcError::OpInProgress => 22,
        AfcError::InternalError => 23,
        AfcError::MuxError => 30,
        AfcError::NoMem => 31,
        AfcError::NotEnoughData => 32,
        AfcError::DirNotEmpty => 33,
        AfcError::Code(c) => c,
    }
}

impl AfcError {
    pub fn from_code(code: u64) -> (r: AfcError)
        ensures
            r == afc_error_of(code),
    {
        match code {
            1 => AfcError::UnknownError,
            2 => AfcError::OpHeaderInvalid,
            3 => AfcError::NoResources,
            4 => AfcError::ReadError,
            5 => AfcError::WriteError,
            6 => AfcError::UnknownPacketType,
            7 => AfcError::InvalidArg,
            8 => AfcError::ObjectNotFound,
            9 => AfcError::ObjectIsDir,
            10 => AfcError::PermDenied,
            11 => AfcError::ServiceNotConnected,
            12 => AfcError::OpTimeout,
            13 => AfcError::TooMuchData,
            14 => AfcError::EndOfData,
            15 => AfcError::OpNotSupported,
            16 => AfcError::ObjectExists,
            17 => AfcError::ObjectBusy,
            18 => AfcError::NoSpaceLeft,
            19 => AfcError::OpWouldBlock,
            20 => AfcError::IoError,
            21 => AfcError::OpInterrupted,
            22 => AfcError::OpInProgress,
            23 => AfcError::InternalError,
            30 => AfcError::MuxError,
            31 => AfcError::NoMem,
            32 => AfcError::NotEnoughData,
            33 => AfcError::DirNotEmpty,
            _ => AfcError::Code(code),
        }
    }

    pub fn code(&self) -> (r: u64)
        ensures
            r == afc_code_of(*self),
    {
        match self {
            AfcError::UnknownError => 1,
            AfcError::OpHeaderInvalid => 2,
            AfcError::NoResources => 3,
            AfcError::ReadError => 4,
            AfcError::WriteError => 5,
            AfcError::UnknownPacketType => 6,
            AfcError::InvalidArg => 7,
            AfcError::ObjectNotFound => 8,
            AfcError::ObjectIsDir => 9,
            AfcError::PermDenied => 10,
            AfcError::ServiceNotConnected => 11,
            AfcError::OpTimeout => 12,
            AfcError::TooMuchData => 13,
            AfcError::EndOfData => 14,
            AfcError::OpNotSupported => 15,
            AfcError::ObjectExists => 16,
            AfcError::ObjectBusy => 17,
            AfcError::NoSpaceLeft => 18,
            AfcError::OpWouldBlock => 19,
            AfcError::IoError => 20,
            AfcError::OpInterrupted => 21,
            AfcError::OpInProgress => 22,
            AfcError::InternalError => 23,
            AfcError::MuxError => 30,
            AfcError::NoMem => 31,
            AfcError::NotEnoughData => 32,
            AfcError::DirNotEmpty => 33,
            AfcError::Code(c) => *c,
        }
    }
}

/// Every non-zero status code maps to an error that reports that same code back,
/// so two distinct codes never map to the same error; a code outside the table
/// becomes `Code` holding the number itself.
pub proof fn lemma_status_codes_distinct(code: u64, other: u64)
    requires
        code != 0,
        other != 0,
    ensures
        afc_code_of(afc_error_of(code)) == code,
        code != other ==> afc_error_of(code) != afc_error_of(other),
        !(1 <= code <= 23 || 30 <= code <= 33) ==> afc_error_of(code) == AfcError::Code(code),
{
}

/// What went wrong in a call of the library.
#[derive(Debug, Clone, PartialEq, Eq)]
pub enum IdeviceError {
    AfcError(String),
    AmfiError(String),
    CompanionProxyError(String),
    CoreDeviceProxyError(String),
    DebugProxyError(String),
    DiagnosticsError(String),
    DvtError(String),
    FileRelayError(String),
    HeartbeatError(String),
    HouseArrestError(String),
    InstallationProxyError(String),
    InstproxyError(String),
    MisagentError(String),
    MobileBackupError(String),
    MounterError(String),
    NotificationProxyError(String),
    ScreenshotError(String),
    SimulateLocationError(String),
    TcpTunnelError(String),
    UsbmuxdError(String),
    WebInspectorError(String),
    XpcError(String),
    /// An AFC peer answered with a non-zero status code.
    Afc(AfcError),
    /// A frame or a reply did not have the shape the protocol prescribes.
    UnexpectedResponse,
    /// A length prefix announced more than the framing accepts.
    PlistMalformed,
    InvalidArg,
    /// A setting that should name a socket address names none.
    InvalidAddress,
    DeviceNotFound,
    UsbBadCommand,
    UsbBadDevice,
    UsbConnectionRefused,
    UsbBadVersion,
}

} // verus!
