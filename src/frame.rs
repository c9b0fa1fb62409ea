//! Command, response and error codes of the XCP wire format, and the generic
//! command and response frames.

use vstd::prelude::*;

verus! {

/// Command codes of the XCP catalog. Only Connect, GetSeed and Unlock have
/// command and response types in this library; the others are the fixed
/// byte table of the protocol.
#[derive(Debug, PartialEq, Eq, Structural, Clone, Copy)]
pub enum XcpCommandCode {
    Connect,
    Disconnect,
    GetStatus,
    Synch,
    GetCommModeInfo,
    GetId,
    SetRequest,
    GetSeed,
    Unlock,
    SetMta,
    Upload,
    ShortUpload,
    BuildChecksum,
    TransportLayerCmd,
    UserCmd,
    Download,
    DownloadNext,
    DownloadMax,
    ShortDownload,
    ModifyBits,
    SetCalPage,
    GetCalPage,
    GetPagProcessorInfo,
    GetSegmentInfo,
    GetPageInfo,
    SetSegmentMode,
    GetSegmentMode,
    CopyCalPage,
    ClearDaqList,
    SetDaqPtr,
    WriteDaq,
    SetDaqListMode,
    GetDaqListMode,
    StartStopDaqList,
    StartStopSynch,
    GetDaqClock,
    ReadDaq,
    GetDaqProcessorInfo,
    GetDaqResolutionInfo,
    GetDaqListInfo,
    GetDaqEventInfo,
    FreeDaq,
    AllocDaq,
    AllocOdt,
    AllocOdtEntry,
    ProgramStart,
    ProgramClear,
    Program,
    ProgramReset,
    GetPgmProcessorInfo,
    GetSectorInfo,
    ProgramPrepare,
    ProgramFormat,
    ProgramNext,
    ProgramMax,
    ProgramVerify,
    Unknown,
}

/// Whether a byte is one of the catalog's command codes (a contiguous range).
pub open spec fn is_command_code(code: u8) -> bool {
    0xC8 <= code
}

impl XcpCommandCode {
    /// The byte that stands for this command on the wire.
    pub open spec fn code_of(self) -> u8 {
        match self {
            XcpCommandCode::Connect => 0xFF,
            XcpCommandCode::Disconnect => 0xFE,
            XcpCommandCode::GetStatus => 0xFD,
            XcpCommandCode::Synch => 0xFC,
            XcpCommandCode::GetCommModeInfo => 0xFB,
            XcpCommandCode::GetId => 0xFA,
            XcpCommandCode::SetRequest => 0xF9,
            XcpCommandCode::GetSeed => 0xF8,
            XcpCommandCode::Unlock => 0xF7,
            XcpCommandCode::SetMta => 0xF6,
            XcpCommandCode::Upload => 0xF5,
            XcpCommandCode::ShortUpload => 0xF4,
            XcpCommandCode::BuildChecksum => 0xF3,
            XcpCommandCode::TransportLayerCmd => 0xF2,
            XcpCommandCode::UserCmd => 0xF1,
            XcpCommandCode::Download => 0xF0,
            XcpCommandCode::DownloadNext => 0xEF,
            XcpCommandCode::DownloadMax => 0xEE,
            XcpCommandCode::ShortDownload => 0xED,
            XcpCommandCode::ModifyBits => 0xEC,
            XcpCommandCode::SetCalPage => 0xEB,
            XcpCommandCode::GetCalPage => 0xEA,
            XcpCommandCode::GetPagProcessorInfo => 0xE9,
            XcpCommandCode::GetSegmentInfo => 0xE8,
            XcpCommandCode::GetPageInfo => 0xE7,
            XcpCommandCode::SetSegmentMode => 0xE6,
            XcpCommandCode::GetSegmentMode => 0xE5,
            XcpCommandCode::CopyCalPage => 0xE4,
            XcpCommandCode::ClearDaqList => 0xE3,
            XcpCommandCode::SetDaqPtr => 0xE2,
            XcpCommandCode::WriteDaq => 0xE1,
            XcpCommandCode::SetDaqListMode => 0xE0,
            XcpCommandCode::GetDaqListMode => 0xDF,
            XcpCommandCode::StartStopDaqList => 0xDE,
            XcpCommandCode::StartStopSynch => 0xDD,
            XcpCommandCode::GetDaqClock => 0xDC,
            XcpCommandCode::ReadDaq => 0xDB,
            XcpCommandCode::GetDaqProcessorInfo => 0xDA,
            XcpCommandCode::GetDaqResolutionInfo => 0xD9,
            XcpCommandCode::GetDaqListInfo => 0xD8,
            XcpCommandCode::GetDaqEventInfo => 0xD7,
            XcpCommandCode::FreeDaq => 0xD6,
            XcpCommandCode::AllocDaq => 0xD5,
            XcpCommandCode::AllocOdt => 0xD4,
            XcpCommandCode::AllocOdtEntry => 0xD3,
            XcpCommandCode::ProgramStart => 0xD2,
            XcpCommandCode::ProgramClear => 0xD1,
            XcpCommandCode::Program => 0xD0,
            XcpCommandCode::ProgramReset => 0xCF,
            XcpCommandCode::GetPgmProcessorInfo => 0xCE,
            XcpCommandCode::GetSectorInfo => 0xCD,
            XcpCommandCode::ProgramPrepare => 0xCC,
            XcpCommandCode::ProgramFormat => 0xCB,
            XcpCommandCode::ProgramNext => 0xCA,
            XcpCommandCode::ProgramMax => 0xC9,
            XcpCommandCode::ProgramVerify => 0xC8,
            XcpCommandCode::Unknown => 0x00,
        }
    }

    /// Convert a raw command code to an `XcpCommandCode` enum variant.
    pub fn from_code(code: u8) -> (r: XcpCommandCode)
        ensures
            is_command_code(code) ==> r.code_of() == code,
            !is_command_code(code) ==> r == XcpCommandCode::Unknown,
    {
        match code {
            0xFF => XcpCommandCode::Connect,
            0xFE => XcpCommandCode::Disconnect,
            0xFD => XcpCommandCode::GetStatus,
            0xFC => XcpCommandCode::Synch,
            0xFB => XcpCommandCode::GetCommModeInfo,
            0xFA => XcpCommandCode::GetId,
            0xF9 => XcpCommandCode::SetRequest,
            0xF8 => XcpCommandCode::GetSeed,
            0xF7 => XcpCommandCode::Unlock,
            0xF6 => XcpCommandCode::SetMta,
            0xF5 => XcpCommandCode::Upload,
            0xF4 => XcpCommandCode::ShortUpload,
            0xF3 => XcpCommandCode::BuildChecksum,
            0xF2 => XcpCommandCode::TransportLayerCmd,
            0xF1 => XcpCommandCode::UserCmd,
            0xF0 => XcpCommandCode::Download,
            0xEF => XcpCommandCode::DownloadNext,
            0xEE => XcpCommandCode::DownloadMax,
            0xED => XcpCommandCode::ShortDownload,
            0xEC => XcpCommandCode::ModifyBits,
            0xEB => XcpCommandCode::SetCalPage,
            0xEA => XcpCommandCode::GetCalPage,
            0xE9 => XcpCommandCode::GetPagProcessorInfo,
            0xE8 => XcpCommandCode::GetSegmentInfo,
            0xE7 => XcpCommandCode::GetPageInfo,
            0xE6 => XcpCommandCode::SetSegmentMode,
            0xE5 => XcpCommandCode::GetSegmentMode,
            0xE4 => XcpCommandCode::CopyCalPage,
            0xE3 => XcpCommandCode::ClearDaqList,
            0xE2 => XcpCommandCode::SetDaqPtr,
            0xE1 => XcpCommandCode::WriteDaq,
            0xE0 => XcpCommandCode::SetDaqListMode,
            0xDF => XcpCommandCode::GetDaqListMode,
            0xDE => XcpCommandCode::StartStopDaqList,
            0xDD => XcpCommandCode::StartStopSynch,
            0xDC => XcpCommandCode::GetDaqClock,
            0xDB => XcpCommandCode::ReadDaq,
            0xDA => XcpCommandCode::GetDaqProcessorInfo,
            0xD9 => XcpCommandCode::GetDaqResolutionInfo,
            0xD8 => XcpCommandCode::GetDaqListInfo,
            0xD7 => XcpCommandCode::GetDaqEventInfo,
            0xD6 => XcpCommandCode::FreeDaq,
            0xD5 => XcpCommandCode::AllocDaq,
            0xD4 => XcpCommandCode::AllocOdt,
            0xD3 => XcpCommandCode::AllocOdtEntry,
            0xD2 => XcpCommandCode::ProgramStart,
            0xD1 => XcpCommandCode::ProgramClear,
            0xD0 => XcpCommandCode::Program,
            0xCF => XcpCommandCode::ProgramReset,
            0xCE => XcpCommandCode::GetPgmProcessorInfo,
            0xCD => XcpCommandCode::GetSectorInfo,
            0xCC => XcpCommandCode::ProgramPrepare,
            0xCB => XcpCommandCode::ProgramFormat,
            0xCA => XcpCommandCode::ProgramNext,
            0xC9 => XcpCommandCode::ProgramMax,
            0xC8 => XcpCommandCode::ProgramVerify,
            _ => XcpCommandCode::Unknown,
        }
    }

    /// Convert an `XcpCommandCode` enum variant to its raw command code.
    pub fn to_code(&self) -> (r: u8)
        ensures
            r == self.code_of(),
    {
        match self {
            XcpCommandCode::Connect => 0xFF,
            XcpCommandCode::Disconnect => 0xFE,
            XcpCommandCode::GetStatus => 0xFD,
            XcpCommandCode::Synch => 0xFC,
            XcpCommandCode::GetCommModeInfo => 0xFB,
            XcpCommandCode::GetId => 0xFA,
            XcpCommandCode::SetRequest => 0xF9,
            XcpCommandCode::GetSeed => 0xF8,
            XcpCommandCode::Unlock => 0xF7,
            XcpCommandCode::SetMta => 0xF6,
            XcpCommandCode::Upload => 0xF5,
            XcpCommandCode::ShortUpload => 0xF4,
            XcpCommandCode::BuildChecksum => 0xF3,
            XcpCommandCode::TransportLayerCmd => 0xF2,
            XcpCommandCode::UserCmd => 0xF1,
            XcpCommandCode::Download => 0xF0,
            XcpCommandCode::DownloadNext => 0xEF,
            XcpCommandCode::DownloadMax => 0xEE,
            XcpCommandCode::ShortDownload => 0xED,
            XcpCommandCode::ModifyBits => 0xEC,
            XcpCommandCode::SetCalPage => 0xEB,
            XcpCommandCode::GetCalPage => 0xEA,
            XcpCommandCode::GetPagProcessorInfo => 0xE9,
            XcpCommandCode::GetSegmentInfo => 0xE8,
            XcpCommandCode::GetPageInfo => 0xE7,
            XcpCommandCode::SetSegmentMode => 0xE6,
            XcpCommandCode::GetSegmentMode => 0xE5,
            XcpCommandCode::CopyCalPage => 0xE4,
            XcpCommandCode::ClearDaqList => 0xE3,
            XcpCommandCode::SetDaqPtr => 0xE2,
            XcpCommandCode::WriteDaq => 0xE1,
            XcpCommandCode::SetDaqListMode => 0xE0,
            XcpCommandCode::GetDaqListMode => 0xDF,
            XcpCommandCode::StartStopDaqList => 0xDE,
            XcpCommandCode::StartStopSynch => 0xDD,
            XcpCommandCode::GetDaqClock => 0xDC,
            XcpCommandCode::ReadDaq => 0xDB,
            XcpCommandCode::GetDaqProcessorInfo => 0xDA,
            XcpCommandCode::GetDaqResolutionInfo => 0xD9,
            XcpCommandCode::GetDaqListInfo => 0xD8,
            XcpCommandCode::GetDaqEventInfo => 0xD7,
            XcpCommandCode::FreeDaq => 0xD6,
            XcpCommandCode::AllocDaq => 0xD5,
            XcpCommandCode::AllocOdt => 0xD4,
            XcpCommandCode::AllocOdtEntry => 0xD3,
            XcpCommandCode::ProgramStart => 0xD2,
            XcpCommandCode::ProgramClear => 0xD1,
            XcpCommandCode::Program => 0xD0,
            XcpCommandCode::ProgramReset => 0xCF,
            XcpCommandCode::GetPgmProcessorInfo => 0xCE,
            XcpCommandCode::GetSectorInfo => 0xCD,
            XcpCommandCode::ProgramPrepare => 0xCC,
            XcpCommandCode::ProgramFormat => 0xCB,
            XcpCommandCode::ProgramNext => 0xCA,
            XcpCommandCode::ProgramMax => 0xC9,
            XcpCommandCode::ProgramVerify => 0xC8,
            XcpCommandCode::Unknown => 0x00,
        }
    }
}

/// Error codes carried by a negative response.
#[derive(Debug, PartialEq, Eq, Structural, Clone, Copy)]
pub enum XcpErrorCode {
    /// Command processor synchronization.
    ErrCmdSynch,
    /// Command was not executed.
    ErrCmdBusy,
    /// Command rejected because DAQ is running.
    ErrDaqActive,
    /// Command rejected because PGM is running.
    ErrPgmActive,
    /// Unknown command or not implemented optional command.
    ErrCmdUnknown,
    /// Command syntax invalid.
    ErrCmdSyntax,
    /// Command syntax valid but command parameter(s) out of range.
    ErrOutOfRange,
    /// The memory location is write protected.
    ErrWriteProtected,
    /// The memory location is not accessible.
    ErrAccessDenied,
    /// Access denied, Seed & Key is required.
    ErrAccessLocked,
    /// Selected page not available.
    ErrPageNotValid,
    /// Selected mode not available.
    ErrModeNotValid,
    /// Selected segment not valid.
    ErrSegmentNotValid,
    /// Sequence error.
    ErrSequence,
    /// DAQ configuration not valid.
    ErrDaqConfig,
    /// Memory overflow error.
    ErrMemoryOverflow,
    /// Generic error.
    ErrGeneric,
    /// The slave internal program verify routine detects an error.
    ErrVerify,
    /// Access to the requested resource is temporary not possible.
    ErrResourceTemporaryNotAccessible,
    /// Unknown sub command or not implemented optional sub command.
    ErrSubcmdUnknown,
    ErrUnknown,
}

/// Whether a byte is one of the assigned error codes.
pub open spec fn is_error_code(code: u8) -> bool {
    code == 0x00 || (0x10 <= code && code <= 0x12) || (0x20 <= code && code <= 0x2A) || (0x30
        <= code && code <= 0x34)
}

impl XcpErrorCode {
    /// The byte that stands for this error on the wire; the unknown-error
    /// sentinel has the unassigned byte 0xFF.
    pub open spec fn code_of(self) -> u8 {
        match self {
            XcpErrorCode::ErrCmdSynch => 0x00,
            XcpErrorCode::ErrCmdBusy => 0x10,
            XcpErrorCode::ErrDaqActive => 0x11,
            XcpErrorCode::ErrPgmActive => 0x12,
            XcpErrorCode::ErrCmdUnknown => 0x20,
            XcpErrorCode::ErrCmdSyntax => 0x21,
            XcpErrorCode::ErrOutOfRange => 0x22,
            XcpErrorCode::ErrWriteProtected => 0x23,
            XcpErrorCode::ErrAccessDenied => 0x24,
            XcpErrorCode::ErrAccessLocked => 0x25,
            XcpErrorCode::ErrPageNotValid => 0x26,
            XcpErrorCode::ErrModeNotValid => 0x27,
            XcpErrorCode::ErrSegmentNotValid => 0x28,
            XcpErrorCode::ErrSequence => 0x29,
            XcpErrorCode::ErrDaqConfig => 0x2A,
            XcpErrorCode::ErrMemoryOverflow => 0x30,
            XcpErrorCode::ErrGeneric => 0x31,
            XcpErrorCode::ErrVerify => 0x32,
            XcpErrorCode::ErrResourceTemporaryNotAccessible => 0x33,
            XcpErrorCode::ErrSubcmdUnknown => 0x34,
            XcpErrorCode::ErrUnknown => 0xFF,
        }
    }

    /// Converts a u8 code to an XcpError; an unassigned byte gives the
    /// unknown-error sentinel.
    pub fn from_code(code: u8) -> (r: Self)
        ensures
            is_error_code(code) ==> r.code_of() == code,
            !is_error_code(code) ==> r == XcpErrorCode::ErrUnknown,
    {
        match code {
            0x00 => XcpErrorCode::ErrCmdSynch,
            0x10 => XcpErrorCode::ErrCmdBusy,
            0x11 => XcpErrorCode::ErrDaqActive,
            0x12 => XcpErrorCode::ErrPgmActive,
            0x20 => XcpErrorCode::ErrCmdUnknown,
            0x21 => XcpErrorCode::ErrCmdSyntax,
            0x22 => XcpErrorCode::ErrOutOfRange,
            0x23 => XcpErrorCode::ErrWriteProtected,
            0x24 => XcpErrorCode::ErrAccessDenied,
            0x25 => XcpErrorCode::ErrAccessLocked,
            0x26 => XcpErrorCode::ErrPageNotValid,
            0x27 => XcpErrorCode::ErrModeNotValid,
            0x28 => XcpErrorCode::ErrSegmentNotValid,
            0x29 => XcpErrorCode::ErrSequence,
            0x2A => XcpErrorCode::ErrDaqConfig,
            0x30 => XcpErrorCode::ErrMemoryOverflow,
            0x31 => XcpErrorCode::ErrGeneric,
            0x32 => XcpErrorCode::ErrVerify,
            0x33 => XcpErrorCode::ErrResourceTemporaryNotAccessible,
            0x34 => XcpErrorCode::ErrSubcmdUnknown,
            _ => XcpErrorCode::ErrUnknown,
        }
    }

    /// The raw error code.
    pub fn to_code(&self) -> (r: u8)
        ensures
            r == self.code_of(),
    {
        match self {
            XcpErrorCode::ErrCmdSynch => 0x00,
            XcpErrorCode::ErrCmdBusy => 0x10,
            XcpErrorCode::ErrDaqActive => 0x11,
            XcpErrorCode::ErrPgmActive => 0x12,
            XcpErrorCode::ErrCmdUnknown => 0x20,
            XcpErrorCode::ErrCmdSyntax => 0x21,
            XcpErrorCode::ErrOutOfRange => 0x22,
            XcpErrorCode::ErrWriteProtected => 0x23,
            XcpErrorCode::ErrAccessDenied => 0x24,
            XcpErrorCode::ErrAccessLocked => 0x25,
            XcpErrorCode::ErrPageNotValid => 0x26,
            XcpErrorCode::ErrModeNotValid => 0x27,
            XcpErrorCode::ErrSegmentNotValid => 0x28,
            XcpErrorCode::ErrSequence => 0x29,
            XcpErrorCode::ErrDaqConfig => 0x2A,
            XcpErrorCode::ErrMemoryOverflow => 0x30,
            XcpErrorCode::ErrGeneric => 0x31,
            XcpErrorCode::ErrVerify => 0x32,
            XcpErrorCode::ErrResourceTemporaryNotAccessible => 0x33,
            XcpErrorCode::ErrSubcmdUnknown => 0x34,
            XcpErrorCode::ErrUnknown => 0xFF,
        }
    }
}

/// First byte of a response frame.
#[derive(Debug, PartialEq, Eq, Structural, Clone, Copy)]
pub enum XcpResponseCode {
    PositiveResponse,
    NegativeResponse,
    UnknownResponse,
}

impl XcpResponseCode {
    /// The byte that stands for this response code on the wire.
    pub open spec fn code_of(self) -> u8 {
        match self {
            XcpResponseCode::PositiveResponse => 0xFF,
            XcpResponseCode::NegativeResponse => 0xFE,
            XcpResponseCode::UnknownResponse => 0x00,
        }
    }

    /// Convert a raw response code to an `XcpResponseCode` enum variant.
    pub fn from_code(code: u8) -> (r: XcpResponseCode)
        ensures
            code == 0xFF ==> r == XcpResponseCode::PositiveResponse,
            code == 0xFE ==> r == XcpResponseCode::NegativeResponse,
            code != 0xFF && code != 0xFE ==> r == XcpResponseCode::UnknownResponse,
    {
        match code {
            0xFF => XcpResponseCode::PositiveResponse,
            0xFE => XcpResponseCode::NegativeResponse,
            _ => XcpResponseCode::UnknownResponse,
        }
    }

    /// Convert an `XcpResponseCode` enum variant to its raw response code.
    pub fn to_code(&self) -> (r: u8)
        ensures
            r == self.code_of(),
    {
        match self {
            XcpResponseCode::PositiveResponse => 0xFF,
            XcpResponseCode::NegativeResponse => 0xFE,
            XcpResponseCode::UnknownResponse => 0x00,
        }
    }
}

/// The catalog entry of a byte: the inverse of `code_of`.
spec fn command_of(code: u8) -> XcpCommandCode {
    match code {
        0xFF => XcpCommandCode::Connect,
        0xFE => XcpCommandCode::Disconnect,
        0xFD => XcpCommandCode::GetStatus,
        0xFC => XcpCommandCode::Synch,
        0xFB => XcpCommandCode::GetCommModeInfo,
        0xFA => XcpCommandCode::GetId,
        0xF9 => XcpCommandCode::SetRequest,
        0xF8 => XcpCommandCode::GetSeed,
        0xF7 => XcpCommandCode::Unlock,
        0xF6 => XcpCommandCode::SetMta,
        0xF5 => XcpCommandCode::Upload,
        0xF4 => XcpCommandCode::ShortUpload,
        0xF3 => XcpCommandCode::BuildChecksum,
        0xF2 => XcpCommandCode::TransportLayerCmd,
        0xF1 => XcpCommandCode::UserCmd,
        0xF0 => XcpCommandCode::Download,
        0xEF => XcpCommandCode::DownloadNext,
        0xEE => XcpCommandCode::DownloadMax,
        0xED => XcpCommandCode::ShortDownload,
        0xEC => XcpCommandCode::ModifyBits,
        0xEB => XcpCommandCode::SetCalPage,
        0xEA => XcpCommandCode::GetCalPage,
        0xE9 => XcpCommandCode::GetPagProcessorInfo,
        0xE8 => XcpCommandCode::GetSegmentInfo,
        0xE7 => XcpCommandCode::GetPageInfo,
        0xE6 => XcpCommandCode::SetSegmentMode,
        0xE5 => XcpCommandCode::GetSegmentMode,
        0xE4 => XcpCommandCode::CopyCalPage,
        0xE3 => XcpCommandCode::ClearDaqList,
        0xE2 => XcpCommandCode::SetDaqPtr,
        0xE1 => XcpCommandCode::WriteDaq,
        0xE0 => XcpCommandCode::SetDaqListMode,
        0xDF => XcpCommandCode::GetDaqListMode,
        0xDE => XcpCommandCode::StartStopDaqList,
        0xDD => XcpCommandCode::StartStopSynch,
        0xDC => XcpCommandCode::GetDaqClock,
        0xDB => XcpCommandCode::ReadDaq,
        0xDA => XcpCommandCode::GetDaqProcessorInfo,
        0xD9 => XcpCommandCode::GetDaqResolutionInfo,
        0xD8 => XcpCommandCode::GetDaqListInfo,
        0xD7 => XcpCommandCode::GetDaqEventInfo,
        0xD6 => XcpCommandCode::FreeDaq,
        0xD5 => XcpCommandCode::AllocDaq,
        0xD4 => XcpCommandCode::AllocOdt,
        0xD3 => XcpCommandCode::AllocOdtEntry,
        0xD2 => XcpCommandCode::ProgramStart,
        0xD1 => XcpCommandCode::ProgramClear,
        0xD0 => XcpCommandCode::Program,
        0xCF => XcpCommandCode::ProgramReset,
        0xCE => XcpCommandCode::GetPgmProcessorInfo,
        0xCD => XcpCommandCode::GetSectorInfo,
        0xCC => XcpCommandCode::ProgramPrepare,
        0xCB => XcpCommandCode::ProgramFormat,
        0xCA => XcpCommandCode::ProgramNext,
        0xC9 => XcpCommandCode::ProgramMax,
        0xC8 => XcpCommandCode::ProgramVerify,
        _ => XcpCommandCode::Unknown,
    }
}

proof fn lemma_command_of_code(c: XcpCommandCode)
    ensures
        command_of(c.code_of()) == c,
        c != XcpCommandCode::Unknown <==> is_command_code(c.code_of()),
{
    match c {
        XcpCommandCode::Connect => {},
        XcpCommandCode::Disconnect => {},
        XcpCommandCode::GetStatus => {},
        XcpCommandCode::Synch => {},
        XcpCommandCode::GetCommModeInfo => {},
        XcpCommandCode::GetId => {},
        XcpCommandCode::SetRequest => {},
        XcpCommandCode::GetSeed => {},
        XcpCommandCode::Unlock => {},
        XcpCommandCode::SetMta => {},
        XcpCommandCode::Upload => {},
        XcpCommandCode::ShortUpload => {},
        XcpCommandCode::BuildChecksum => {},
        XcpCommandCode::TransportLayerCmd => {},
        XcpCommandCode::UserCmd => {},
        XcpCommandCode::Download => {},
        XcpCommandCode::DownloadNext => {},
        XcpCommandCode::DownloadMax => {},
        XcpCommandCode::ShortDownload => {},
        XcpCommandCode::ModifyBits => {},
        XcpCommandCode::SetCalPage => {},
        XcpCommandCode::GetCalPage => {},
        XcpCommandCode::GetPagProcessorInfo => {},
        XcpCommandCode::GetSegmentInfo => {},
        XcpCommandCode::GetPageInfo => {},
        XcpCommandCode::SetSegmentMode => {},
        XcpCommandCode::GetSegmentMode => {},
        XcpCommandCode::CopyCalPage => {},
        XcpCommandCode::ClearDaqList => {},
        XcpCommandCode::SetDaqPtr => {},
        XcpCommandCode::WriteDaq => {},
        XcpCommandCode::SetDaqListMode => {},
        XcpCommandCode::GetDaqListMode => {},
        XcpCommandCode::StartStopDaqList => {},
        XcpCommandCode::StartStopSynch => {},
        XcpCommandCode::GetDaqClock => {},
        XcpCommandCode::ReadDaq => {},
        XcpCommandCode::GetDaqProcessorInfo => {},
        XcpCommandCode::GetDaqResolutionInfo => {},
        XcpCommandCode::GetDaqListInfo => {},
        XcpCommandCode::GetDaqEventInfo => {},
        XcpCommandCode::FreeDaq => {},
        XcpCommandCode::AllocDaq => {},
        XcpCommandCode::AllocOdt => {},
        XcpCommandCode::AllocOdtEntry => {},
        XcpCommandCode::ProgramStart => {},
        XcpCommandCode::ProgramClear => {},
        XcpCommandCode::Program => {},
        XcpCommandCode::ProgramReset => {},
        XcpCommandCode::GetPgmProcessorInfo => {},
        XcpCommandCode::GetSectorInfo => {},
        XcpCommandCode::ProgramPrepare => {},
        XcpCommandCode::ProgramFormat => {},
        XcpCommandCode::ProgramNext => {},
        XcpCommandCode::ProgramMax => {},
        XcpCommandCode::ProgramVerify => {},
        XcpCommandCode::Unknown => {},
    }
}

/// Reading back the byte of any command code gives that command code: every
/// `r` that `from_code` may return on `c.code_of()` is `c`.
pub proof fn command_code_round_trip(c: XcpCommandCode, r: XcpCommandCode)
    requires
        is_command_code(c.code_of()) ==> r.code_of() == c.code_of(),
        !is_command_code(c.code_of()) ==> r == XcpCommandCode::Unknown,
    ensures
        r == c,
{
    lemma_command_of_code(c);
    lemma_command_of_code(r);
}

/// The error entry of a byte: the inverse of `code_of`.
spec fn error_of(code: u8) -> XcpErrorCode {
    match code {
        0x00 => XcpErrorCode::ErrCmdSynch,
        0x10 => XcpErrorCode::ErrCmdBusy,
        0x11 => XcpErrorCode::ErrDaqActive,
        0x12 => XcpErrorCode::ErrPgmActive,
        0x20 => XcpErrorCode::ErrCmdUnknown,
        0x21 => XcpErrorCode::ErrCmdSyntax,
        0x22 => XcpErrorCode::ErrOutOfRange,
        0x23 => XcpErrorCode::ErrWriteProtected,
        0x24 => XcpErrorCode::ErrAccessDenied,
        0x25 => XcpErrorCode::ErrAccessLocked,
        0x26 => XcpErrorCode::ErrPageNotValid,
        0x27 => XcpErrorCode::ErrModeNotValid,
        0x28 => XcpErrorCode::ErrSegmentNotValid,
        0x29 => XcpErrorCode::ErrSequence,
        0x2A => XcpErrorCode::ErrDaqConfig,
        0x30 => XcpErrorCode::ErrMemoryOverflow,
        0x31 => XcpErrorCode::ErrGeneric,
        0x32 => XcpErrorCode::ErrVerify,
        0x33 => XcpErrorCode::ErrResourceTemporaryNotAccessible,
        0x34 => XcpErrorCode::ErrSubcmdUnknown,
        _ => XcpErrorCode::ErrUnknown,
    }
}

proof fn lemma_error_of_code(e: XcpErrorCode)
    ensures
        error_of(e.code_of()) == e,
        e != XcpErrorCode::ErrUnknown <==> is_error_code(e.code_of()),
{
    match e {
        XcpErrorCode::ErrCmdSynch => {},
        XcpErrorCode::ErrCmdBusy => {},
        XcpErrorCode::ErrDaqActive => {},
        XcpErrorCode::ErrPgmActive => {},
        XcpErrorCode::ErrCmdUnknown => {},
        XcpErrorCode::ErrCmdSyntax => {},
        XcpErrorCode::ErrOutOfRange => {},
        XcpErrorCode::ErrWriteProtected => {},
        XcpErrorCode::ErrAccessDenied => {},
        XcpErrorCode::ErrAccessLocked => {},
        XcpErrorCode::ErrPageNotValid => {},
        XcpErrorCode::ErrModeNotValid => {},
        XcpErrorCode::ErrSegmentNotValid => {},
        XcpErrorCode::ErrSequence => {},
        XcpErrorCode::ErrDaqConfig => {},
        XcpErrorCode::ErrMemoryOverflow => {},
        XcpErrorCode::ErrGeneric => {},
        XcpErrorCode::ErrVerify => {},
        XcpErrorCode::ErrResourceTemporaryNotAccessible => {},
        XcpErrorCode::ErrSubcmdUnknown => {},
        XcpErrorCode::ErrUnknown => {},
    }
}

/// Reading back the byte of any error code gives that error code: every `r`
/// that `from_code` may return on `e.code_of()` is `e`.
pub proof fn error_code_round_trip(e: XcpErrorCode, r: XcpErrorCode)
    requires
        is_error_code(e.code_of()) ==> r.code_of() == e.code_of(),
        !is_error_code(e.code_of()) ==> r == XcpErrorCode::ErrUnknown,
    ensures
        r == e,
{
    lemma_error_of_code(e);
    lemma_error_of_code(r);
}

/// Reading back the byte of a response code gives that response code.
pub proof fn response_code_round_trip(c: XcpResponseCode, r: XcpResponseCode)
    requires
        c.code_of() == 0xFF ==> r == XcpResponseCode::PositiveResponse,
        c.code_of() == 0xFE ==> r == XcpResponseCode::NegativeResponse,
        c.code_of() != 0xFF && c.code_of() != 0xFE ==> r == XcpResponseCode::UnknownResponse,
    ensures
        r == c,
{
}


/// A command that encodes to the payload of one frame: its code byte first,
/// then its fields in wire order.
pub trait XcpCommand {
    /// The payload bytes of the command.
    spec fn encoding(&self) -> Seq<u8>;

    /// The catalog code of the command.
    spec fn code(&self) -> XcpCommandCode;

    fn to_can_frame(&self) -> (r: Vec<u8>)
        ensures
            r@ == self.encoding(),
            r@.len() >= 1,
            r@[0] == self.code().code_of(),
    ;

    fn get_code(&self) -> (r: XcpCommandCode)
        ensures
            r == self.code(),
    ;
}

/// Generic structure representing an XCP command frame.
#[derive(Debug)]
pub struct XcpCommandFrame<T: XcpCommand> {
    pub data: T,
}

impl<T: XcpCommand> XcpCommandFrame<T> {
    /// Convert the command frame into a CAN frame data vector.
    pub fn to_can_frame(&self) -> (r: Vec<u8>)
        ensures
            r@ == self.data.encoding(),
            r@.len() >= 1,
            r@[0] == self.data.code().code_of(),
    {
        self.data.to_can_frame()
    }
}

/// A positive or negative response, decoded from the payload of one frame
/// whose byte 0 is the response code; fields are read from index 1 on.
pub trait XcpResponse: Sized {
    /// The least payload length, response code included, that holds every
    /// field of the response.
    spec fn min_frame_len() -> nat;

    /// Whether `self` is what the payload `frame` decodes to.
    spec fn decoded_from(&self, frame: Seq<u8>) -> bool;

    fn required_len() -> (r: usize)
        ensures
            r as nat == Self::min_frame_len(),
    ;

    fn from_can_frame(frame: &[u8]) -> (r: Self)
        requires
            frame@.len() >= Self::min_frame_len(),
        ensures
            r.decoded_from(frame@),
    ;
}

/// Generic structure representing an XCP response frame.
#[derive(Debug)]
pub struct XcpResponseFrame<T: XcpResponse> {
    pub data: T,
}

impl<T: XcpResponse> XcpResponseFrame<T> {
    /// Decode a CAN frame into an XCP response frame.
    pub fn from_can_frame(frame: &[u8]) -> (r: Self)
        requires
            frame@.len() >= T::min_frame_len(),
        ensures
            r.data.decoded_from(frame@),
    {
        XcpResponseFrame { data: T::from_can_frame(frame) }
    }
}

} // verus!
