//! The packet protocol: the closed opcode and status tables and the
//! typed byte codec over a packet's payload.
//!
//! Wire layout (bit-exact):
//!
//! ```text
//! Request : [type:u8][opcode:u8][payload...]
//! Reply   : [type:u8][opcode:u8][status:u8][payload...]
//! ```
//!
//! All multi-byte integers are little-endian; filenames occupy exactly
//! [`FILENAME_LEN`] bytes, NUL-padded; bounded strings occupy exactly
//! their bound, NUL-padded.

use vstd::prelude::*;
use crate::error::Error;
use crate::wire::{
    le16, le32, u16_le, u32_le, i8_of_byte, byte_of_i8, i16_of, i32_of, zeros, padded_field,
    before_nul, strip_nuls, lemma_nul_pos_unique, lemma_before_nul_padded_field,
    lemma_strip_padded_field,
};
use vstd::utf8::{
    valid_utf8, decode_utf8, encode_utf8, is_ascii_chars, is_ascii_chars_encode_utf8,
    encode_utf8_valid_utf8, encode_utf8_decode_utf8,
};
use vstd::string::StringSliceAdditionalSpecFns;
use vstd::std_specs::cmp::PartialEqSpec;

verus! {

/// Length of the filename field, including its NUL terminator.
pub const FILENAME_LEN: usize = 20;

/// Largest message the hardware accepts, header bytes included.
pub const MAX_PACKET_LEN: usize = 64;

/// Message opcodes: the closed set of command codes the brick knows.
///
/// Direct commands (motor, sensor, sound and program control) have the
/// high bit clear; system calls (filesystem, module and device-info
/// operations) have the high bit set.
#[derive(Copy, Clone, Debug, PartialEq, Eq, Structural)]
#[allow(missing_docs)]
pub enum Opcode {
    DirectStartProgram,
    DirectStopProgram,
    DirectPlaySoundFile,
    DirectPlayTone,
    DirectSetOutState,
    DirectSetInMode,
    DirectGetOutState,
    DirectGetInVals,
    DirectResetInVal,
    DirectMessageWrite,
    DirectResetPosition,
    DirectGetBattLevel,
    DirectStopSound,
    DirectKeepAlive,
    DirectLsGetStatus,
    DirectLsWrite,
    DirectLsRead,
    DirectGetCurrProgram,
    DirectGetButtonState,
    DirectMessageRead,
    DirectDatalogRead,
    DirectDatalogSetTimes,
    DirectBtGetContactCount,
    DirectBtGetContactName,
    DirectBtGetConnCount,
    DirectBtGetConnName,
    DirectSetProperty,
    DirectGetProperty,
    DirectUpdateResetCount,
    SystemOpenread,
    SystemOpenwrite,
    SystemRead,
    SystemWrite,
    SystemClose,
    SystemDelete,
    SystemFindfirst,
    SystemFindnext,
    SystemVersions,
    SystemOpenwritelinear,
    SystemOpenreadlinear,
    SystemOpenwritedata,
    SystemOpenappenddata,
    SystemCropdatafile,
    SystemFindfirstmodule,
    SystemFindnextmodule,
    SystemClosemodhandle,
    SystemIomapread,
    SystemIomapwrite,
    SystemBootcmd,
    SystemSetbrickname,
    SystemBtgetaddr,
    SystemDeviceinfo,
    SystemDeleteuserflash,
    SystemPollcmdlen,
    SystemPollcmd,
    SystemRenamefile,
    SystemBtfactoryreset,
    SystemResizeDataFile,
    SystemSeekFromStart,
    SystemSeekFromCurrent,
    SystemSeekFromEnd,
}

impl Opcode {
    /// The byte that carries this opcode on the wire.
    pub open spec fn value(self) -> u8 {
        match self {
            Opcode::DirectStartProgram => 0x00,
            Opcode::DirectStopProgram => 0x01,
            Opcode::DirectPlaySoundFile => 0x02,
            Opcode::DirectPlayTone => 0x03,
            Opcode::DirectSetOutState => 0x04,
            Opcode::DirectSetInMode => 0x05,
            Opcode::DirectGetOutState => 0x06,
            Opcode::DirectGetInVals => 0x07,
            Opcode::DirectResetInVal => 0x08,
            Opcode::DirectMessageWrite => 0x09,
            Opcode::DirectResetPosition => 0x0A,
            Opcode::DirectGetBattLevel => 0x0B,
            Opcode::DirectStopSound => 0x0C,
            Opcode::DirectKeepAlive => 0x0D,
            Opcode::DirectLsGetStatus => 0x0E,
            Opcode::DirectLsWrite => 0x0F,
            Opcode::DirectLsRead => 0x10,
            Opcode::DirectGetCurrProgram => 0x11,
            Opcode::DirectGetButtonState => 0x12,
            Opcode::DirectMessageRead => 0x13,
            Opcode::DirectDatalogRead => 0x19,
            Opcode::DirectDatalogSetTimes => 0x1A,
            Opcode::DirectBtGetContactCount => 0x1B,
            Opcode::DirectBtGetContactName => 0x1C,
            Opcode::DirectBtGetConnCount => 0x1D,
            Opcode::DirectBtGetConnName => 0x1E,
            Opcode::DirectSetProperty => 0x1F,
            Opcode::DirectGetProperty => 0x20,
            Opcode::DirectUpdateResetCount => 0x21,
            Opcode::SystemOpenread => 0x80,
            Opcode::SystemOpenwrite => 0x81,
            Opcode::SystemRead => 0x82,
            Opcode::SystemWrite => 0x83,
            Opcode::SystemClose => 0x84,
            Opcode::SystemDelete => 0x85,
            Opcode::SystemFindfirst => 0x86,
            Opcode::SystemFindnext => 0x87,
            Opcode::SystemVersions => 0x88,
            Opcode::SystemOpenwritelinear => 0x89,
            Opcode::SystemOpenreadlinear => 0x8A,
            Opcode::SystemOpenwritedata => 0x8B,
            Opcode::SystemOpenappenddata => 0x8C,
            Opcode::SystemCropdatafile => 0x8D,
            Opcode::SystemFindfirstmodule => 0x90,
            Opcode::SystemFindnextmodule => 0x91,
            Opcode::SystemClosemodhandle => 0x92,
            Opcode::SystemIomapread => 0x94,
            Opcode::SystemIomapwrite => 0x95,
            Opcode::SystemBootcmd => 0x97,
            Opcode::SystemSetbrickname => 0x98,
            Opcode::SystemBtgetaddr => 0x9A,
            Opcode::SystemDeviceinfo => 0x9B,
            Opcode::SystemDeleteuserflash => 0xA0,
            Opcode::SystemPollcmdlen => 0xA1,
            Opcode::SystemPollcmd => 0xA2,
            Opcode::SystemRenamefile => 0xA3,
            Opcode::SystemBtfactoryreset => 0xA4,
            Opcode::SystemResizeDataFile => 0xD0,
            Opcode::SystemSeekFromStart => 0xD1,
            Opcode::SystemSeekFromCurrent => 0xD2,
            Opcode::SystemSeekFromEnd => 0xD3,
        }
    }

    /// Whether this member of the table is a system call, going by its
    /// name: `System*` variants are, `Direct*` variants are not.
    pub open spec fn spec_is_system(self) -> bool {
        self.value() >= 0x80
    }

    /// The byte that carries this opcode on the wire.
    pub fn as_u8(self) -> (r: u8)
        ensures
            r == self.value(),
    {
        match self {
            Opcode::DirectStartProgram => 0x00,
            Opcode::DirectStopProgram => 0x01,
            Opcode::DirectPlaySoundFile => 0x02,
            Opcode::DirectPlayTone => 0x03,
            Opcode::DirectSetOutState => 0x04,
            Opcode::DirectSetInMode => 0x05,
            Opcode::DirectGetOutState => 0x06,
            Opcode::DirectGetInVals => 0x07,
            Opcode::DirectResetInVal => 0x08,
            Opcode::DirectMessageWrite => 0x09,
            Opcode::DirectResetPosition => 0x0A,
            Opcode::DirectGetBattLevel => 0x0B,
            Opcode::DirectStopSound => 0x0C,
            Opcode::DirectKeepAlive => 0x0D,
            Opcode::DirectLsGetStatus => 0x0E,
            Opcode::DirectLsWrite => 0x0F,
            Opcode::DirectLsRead => 0x10,
            Opcode::DirectGetCurrProgram => 0x11,
            Opcode::DirectGetButtonState => 0x12,
            Opcode::DirectMessageRead => 0x13,
            Opcode::DirectDatalogRead => 0x19,
            Opcode::DirectDatalogSetTimes => 0x1A,
            Opcode::DirectBtGetContactCount => 0x1B,
            Opcode::DirectBtGetContactName => 0x1C,
            Opcode::DirectBtGetConnCount => 0x1D,
            Opcode::DirectBtGetConnName => 0x1E,
            Opcode::DirectSetProperty => 0x1F,
            Opcode::DirectGetProperty => 0x20,
            Opcode::DirectUpdateResetCount => 0x21,
            Opcode::SystemOpenread => 0x80,
            Opcode::SystemOpenwrite => 0x81,
            Opcode::SystemRead => 0x82,
            Opcode::SystemWrite => 0x83,
            Opcode::SystemClose => 0x84,
            Opcode::SystemDelete => 0x85,
            Opcode::SystemFindfirst => 0x86,
            Opcode::SystemFindnext => 0x87,
            Opcode::SystemVersions => 0x88,
            Opcode::SystemOpenwritelinear => 0x89,
            Opcode::SystemOpenreadlinear => 0x8A,
            Opcode::SystemOpenwritedata => 0x8B,
            Opcode::SystemOpenappenddata => 0x8C,
            Opcode::SystemCropdatafile => 0x8D,
            Opcode::SystemFindfirstmodule => 0x90,
            Opcode::SystemFindnextmodule => 0x91,
            Opcode::SystemClosemodhandle => 0x92,
            Opcode::SystemIomapread => 0x94,
            Opcode::SystemIomapwrite => 0x95,
            Opcode::SystemBootcmd => 0x97,
            Opcode::SystemSetbrickname => 0x98,
            Opcode::SystemBtgetaddr => 0x9A,
            Opcode::SystemDeviceinfo => 0x9B,
            Opcode::SystemDeleteuserflash => 0xA0,
            Opcode::SystemPollcmdlen => 0xA1,
            Opcode::SystemPollcmd => 0xA2,
            Opcode::SystemRenamefile => 0xA3,
            Opcode::SystemBtfactoryreset => 0xA4,
            Opcode::SystemResizeDataFile => 0xD0,
            Opcode::SystemSeekFromStart => 0xD1,
            Opcode::SystemSeekFromCurrent => 0xD2,
            Opcode::SystemSeekFromEnd => 0xD3,
        }
    }

    /// Determine whether the opcode is a system call (`true`) or a
    /// direct command (`false`): exactly the high bit of its byte.
    pub fn is_system(self) -> (r: bool)
        ensures
            r == self.spec_is_system(),
    {
        let v = self.as_u8();
        proof {
            assert((v & 0x80 != 0) == (v >= 0x80)) by (bit_vector);
        }
        v & 0x80 != 0
    }

    /// The opcode carried by the given byte, or a parse failure for a
    /// byte outside the closed set.
    pub fn try_from_u8(code: u8) -> (r: Result<Opcode, Error>)
        ensures
            r is Ok <==> is_opcode_value(code),
            match r {
                Ok(op) => op.value() == code,
                Err(e) => e matches Error::Parse(_),
            },
    {
        match code {
            0x00 => Ok(Opcode::DirectStartProgram),
            0x01 => Ok(Opcode::DirectStopProgram),
            0x02 => Ok(Opcode::DirectPlaySoundFile),
            0x03 => Ok(Opcode::DirectPlayTone),
            0x04 => Ok(Opcode::DirectSetOutState),
            0x05 => Ok(Opcode::DirectSetInMode),
            0x06 => Ok(Opcode::DirectGetOutState),
            0x07 => Ok(Opcode::DirectGetInVals),
            0x08 => Ok(Opcode::DirectResetInVal),
            0x09 => Ok(Opcode::DirectMessageWrite),
            0x0A => Ok(Opcode::DirectResetPosition),
            0x0B => Ok(Opcode::DirectGetBattLevel),
            0x0C => Ok(Opcode::DirectStopSound),
            0x0D => Ok(Opcode::DirectKeepAlive),
            0x0E => Ok(Opcode::DirectLsGetStatus),
            0x0F => Ok(Opcode::DirectLsWrite),
            0x10 => Ok(Opcode::DirectLsRead),
            0x11 => Ok(Opcode::DirectGetCurrProgram),
            0x12 => Ok(Opcode::DirectGetButtonState),
            0x13 => Ok(Opcode::DirectMessageRead),
            0x19 => Ok(Opcode::DirectDatalogRead),
            0x1A => Ok(Opcode::DirectDatalogSetTimes),
            0x1B => Ok(Opcode::DirectBtGetContactCount),
            0x1C => Ok(Opcode::DirectBtGetContactName),
            0x1D => Ok(Opcode::DirectBtGetConnCount),
            0x1E => Ok(Opcode::DirectBtGetConnName),
            0x1F => Ok(Opcode::DirectSetProperty),
            0x20 => Ok(Opcode::DirectGetProperty),
            0x21 => Ok(Opcode::DirectUpdateResetCount),
            0x80 => Ok(Opcode::SystemOpenread),
            0x81 => Ok(Opcode::SystemOpenwrite),
            0x82 => Ok(Opcode::SystemRead),
            0x83 => Ok(Opcode::SystemWrite),
            0x84 => Ok(Opcode::SystemClose),
            0x85 => Ok(Opcode::SystemDelete),
            0x86 => Ok(Opcode::SystemFindfirst),
            0x87 => Ok(Opcode::SystemFindnext),
            0x88 => Ok(Opcode::SystemVersions),
            0x89 => Ok(Opcode::SystemOpenwritelinear),
            0x8A => Ok(Opcode::SystemOpenreadlinear),
            0x8B => Ok(Opcode::SystemOpenwritedata),
            0x8C => Ok(Opcode::SystemOpenappenddata),
            0x8D => Ok(Opcode::SystemCropdatafile),
            0x90 => Ok(Opcode::SystemFindfirstmodule),
            0x91 => Ok(Opcode::SystemFindnextmodule),
            0x92 => Ok(Opcode::SystemClosemodhandle),
            0x94 => Ok(Opcode::SystemIomapread),
            0x95 => Ok(Opcode::SystemIomapwrite),
            0x97 => Ok(Opcode::SystemBootcmd),
            0x98 => Ok(Opcode::SystemSetbrickname),
            0x9A => Ok(Opcode::SystemBtgetaddr),
            0x9B => Ok(Opcode::SystemDeviceinfo),
            0xA0 => Ok(Opcode::SystemDeleteuserflash),
            0xA1 => Ok(Opcode::SystemPollcmdlen),
            0xA2 => Ok(Opcode::SystemPollcmd),
            0xA3 => Ok(Opcode::SystemRenamefile),
            0xA4 => Ok(Opcode::SystemBtfactoryreset),
            0xD0 => Ok(Opcode::SystemResizeDataFile),
            0xD1 => Ok(Opcode::SystemSeekFromStart),
            0xD2 => Ok(Opcode::SystemSeekFromCurrent),
            0xD3 => Ok(Opcode::SystemSeekFromEnd),
            _ => Err(Error::Parse("Invalid opcode")),
        }
    }
}

/// Whether the byte carries a member of the closed opcode set.
pub open spec fn is_opcode_value(v: u8) -> bool {
    ||| v <= 0x13
    ||| 0x19 <= v <= 0x21
    ||| 0x80 <= v <= 0x8D
    ||| 0x90 <= v <= 0x92
    ||| v == 0x94
    ||| v == 0x95
    ||| v == 0x97
    ||| v == 0x98
    ||| v == 0x9A
    ||| v == 0x9B
    ||| 0xA0 <= v <= 0xA4
    ||| 0xD0 <= v <= 0xD3
}

/// Law: over the whole closed opcode set, being a system call agrees
/// with the high bit of the wire byte.
pub proof fn lemma_is_system_is_high_bit(op: Opcode)
    ensures
        op.spec_is_system() == ((op.value() & 0x80) != 0),
{
    let v = op.value();
    assert((v & 0x80 != 0) == (v >= 0x80)) by (bit_vector);
}

/// Device status codes: the closed set of status bytes a reply can
/// carry.  `Success` is the zero byte; every other member names one
/// specific failure.
#[derive(Copy, Clone, Debug, PartialEq, Eq, Structural)]
#[allow(missing_docs)]
pub enum DeviceError {
    Success,
    InProgress,
    QueueEmpty,
    NoMoreHandles,
    NoSpace,
    NoMoreFiles,
    EofExpected,
    Eof,
    NotALinearFile,
    FileNotFound,
    HandleAlreadyClosed,
    NoLinearSpace,
    Undefined,
    FileBusy,
    NoWriteBuffers,
    AppendNotPossible,
    FileIsFull,
    FileExists,
    ModuleNotFound,
    OutOfBounds,
    IllegalName,
    IllegalHandle,
    RequestFailed,
    UnknownCommand,
    InsanePacket,
    ValueOutOfRange,
    BusError,
    BufferFull,
    InvalidChannel,
    UnconfiguredChannel,
    NoActiveProgram,
    IllegalSize,
    IllegalQueueId,
    InvalidField,
    BadInputOrOutput,
    InsufficientMemory,
    BadArguments,
}

impl DeviceError {
    /// The status byte that carries this condition on the wire.
    pub open spec fn value(self) -> u8 {
        match self {
            DeviceError::Success => 0x00,
            DeviceError::InProgress => 0x20,
            DeviceError::QueueEmpty => 0x40,
            DeviceError::NoMoreHandles => 0x81,
            DeviceError::NoSpace => 0x82,
            DeviceError::NoMoreFiles => 0x83,
            DeviceError::EofExpected => 0x84,
            DeviceError::Eof => 0x85,
            DeviceError::NotALinearFile => 0x86,
            DeviceError::FileNotFound => 0x87,
            DeviceError::HandleAlreadyClosed => 0x88,
            DeviceError::NoLinearSpace => 0x89,
            DeviceError::Undefined => 0x8A,
            DeviceError::FileBusy => 0x8B,
            DeviceError::NoWriteBuffers => 0x8C,
            DeviceError::AppendNotPossible => 0x8D,
            DeviceError::FileIsFull => 0x8E,
            DeviceError::FileExists => 0x8F,
            DeviceError::ModuleNotFound => 0x90,
            DeviceError::OutOfBounds => 0x91,
            DeviceError::IllegalName => 0x92,
            DeviceError::IllegalHandle => 0x93,
            DeviceError::RequestFailed => 0xBD,
            DeviceError::UnknownCommand => 0xBE,
            DeviceError::InsanePacket => 0xBF,
            DeviceError::ValueOutOfRange => 0xC0,
            DeviceError::BusError => 0xDD,
            DeviceError::BufferFull => 0xDE,
            DeviceError::InvalidChannel => 0xDF,
            DeviceError::UnconfiguredChannel => 0xE0,
            DeviceError::NoActiveProgram => 0xEC,
            DeviceError::IllegalSize => 0xED,
            DeviceError::IllegalQueueId => 0xEE,
            DeviceError::InvalidField => 0xEF,
            DeviceError::BadInputOrOutput => 0xF0,
            DeviceError::InsufficientMemory => 0xFB,
            DeviceError::BadArguments => 0xFF,
        }
    }

    /// The status byte that carries this condition on the wire.
    pub fn as_u8(self) -> (r: u8)
        ensures
            r == self.value(),
    {
        match self {
            DeviceError::Success => 0x00,
            DeviceError::InProgress => 0x20,
            DeviceError::QueueEmpty => 0x40,
            DeviceError::NoMoreHandles => 0x81,
            DeviceError::NoSpace => 0x82,
            DeviceError::NoMoreFiles => 0x83,
            DeviceError::EofExpected => 0x84,
            DeviceError::Eof => 0x85,
            DeviceError::NotALinearFile => 0x86,
            DeviceError::FileNotFound => 0x87,
            DeviceError::HandleAlreadyClosed => 0x88,
            DeviceError::NoLinearSpace => 0x89,
            DeviceError::Undefined => 0x8A,
            DeviceError::FileBusy => 0x8B,
            DeviceError::NoWriteBuffers => 0x8C,
            DeviceError::AppendNotPossible => 0x8D,
            DeviceError::FileIsFull => 0x8E,
            DeviceError::FileExists => 0x8F,
            DeviceError::ModuleNotFound => 0x90,
            DeviceError::OutOfBounds => 0x91,
            DeviceError::IllegalName => 0x92,
            DeviceError::IllegalHandle => 0x93,
            DeviceError::RequestFailed => 0xBD,
            DeviceError::UnknownCommand => 0xBE,
            DeviceError::InsanePacket => 0xBF,
            DeviceError::ValueOutOfRange => 0xC0,
            DeviceError::BusError => 0xDD,
            DeviceError::BufferFull => 0xDE,
            DeviceError::InvalidChannel => 0xDF,
            DeviceError::UnconfiguredChannel => 0xE0,
            DeviceError::NoActiveProgram => 0xEC,
            DeviceError::IllegalSize => 0xED,
            DeviceError::IllegalQueueId => 0xEE,
            DeviceError::InvalidField => 0xEF,
            DeviceError::BadInputOrOutput => 0xF0,
            DeviceError::InsufficientMemory => 0xFB,
            DeviceError::BadArguments => 0xFF,
        }
    }

    /// The condition carried by the given status byte, or a parse
    /// failure for a byte outside the closed set.  The parse failure is
    /// a distinct outcome, never coerced into a named condition.
    pub fn try_from_u8(code: u8) -> (r: Result<DeviceError, Error>)
        ensures
            r is Ok <==> is_status_value(code),
            match r {
                Ok(d) => d.value() == code,
                Err(e) => e matches Error::Parse(_),
            },
    {
        match code {
            0x00 => Ok(DeviceError::Success),
            0x20 => Ok(DeviceError::InProgress),
            0x40 => Ok(DeviceError::QueueEmpty),
            0x81 => Ok(DeviceError::NoMoreHandles),
            0x82 => Ok(DeviceError::NoSpace),
            0x83 => Ok(DeviceError::NoMoreFiles),
            0x84 => Ok(DeviceError::EofExpected),
            0x85 => Ok(DeviceError::Eof),
            0x86 => Ok(DeviceError::NotALinearFile),
            0x87 => Ok(DeviceError::FileNotFound),
            0x88 => Ok(DeviceError::HandleAlreadyClosed),
            0x89 => Ok(DeviceError::NoLinearSpace),
            0x8A => Ok(DeviceError::Undefined),
            0x8B => Ok(DeviceError::FileBusy),
            0x8C => Ok(DeviceError::NoWriteBuffers),
            0x8D => Ok(DeviceError::AppendNotPossible),
            0x8E => Ok(DeviceError::FileIsFull),
            0x8F => Ok(DeviceError::FileExists),
            0x90 => Ok(DeviceError::ModuleNotFound),
            0x91 => Ok(DeviceError::OutOfBounds),
            0x92 => Ok(DeviceError::IllegalName),
            0x93 => Ok(DeviceError::IllegalHandle),
            0xBD => Ok(DeviceError::RequestFailed),
            0xBE => Ok(DeviceError::UnknownCommand),
            0xBF => Ok(DeviceError::InsanePacket),
            0xC0 => Ok(DeviceError::ValueOutOfRange),
            0xDD => Ok(DeviceError::BusError),
            0xDE => Ok(DeviceError::BufferFull),
            0xDF => Ok(DeviceError::InvalidChannel),
            0xE0 => Ok(DeviceError::UnconfiguredChannel),
            0xEC => Ok(DeviceError::NoActiveProgram),
            0xED => Ok(DeviceError::IllegalSize),
            0xEE => Ok(DeviceError::IllegalQueueId),
            0xEF => Ok(DeviceError::InvalidField),
            0xF0 => Ok(DeviceError::BadInputOrOutput),
            0xFB => Ok(DeviceError::InsufficientMemory),
            0xFF => Ok(DeviceError::BadArguments),
            _ => Err(Error::Parse("Invalid status")),
        }
    }

    /// What the condition means, in words.
    pub open spec fn spec_message(self) -> Seq<char> {
        match self {
            DeviceError::Success => "None"@,
            DeviceError::InProgress => "pending communication transaction in progress"@,
            DeviceError::QueueEmpty => "specified mailbox queue is empty"@,
            DeviceError::NoMoreHandles => "no more handles"@,
            DeviceError::NoSpace => "no space"@,
            DeviceError::NoMoreFiles => "no more files"@,
            DeviceError::EofExpected => "end of file expected"@,
            DeviceError::Eof => "end of file"@,
            DeviceError::NotALinearFile => "not a linear file"@,
            DeviceError::FileNotFound => "file not found"@,
            DeviceError::HandleAlreadyClosed => "handle already closed"@,
            DeviceError::NoLinearSpace => "no linear space"@,
            DeviceError::Undefined => "undefined error"@,
            DeviceError::FileBusy => "file is busy"@,
            DeviceError::NoWriteBuffers => "no write buffers"@,
            DeviceError::AppendNotPossible => "append not possible"@,
            DeviceError::FileIsFull => "file is full"@,
            DeviceError::FileExists => "file exists"@,
            DeviceError::ModuleNotFound => "module not found"@,
            DeviceError::OutOfBounds => "out of bounds"@,
            DeviceError::IllegalName => "File does not exist"@,
            DeviceError::IllegalHandle => "illegal handle"@,
            DeviceError::RequestFailed => "request failed (i.e. specified file not found)"@,
            DeviceError::UnknownCommand => "unknown command opcode"@,
            DeviceError::InsanePacket => "insane packet (?)"@,
            DeviceError::ValueOutOfRange => "data contains out-of-range values"@,
            DeviceError::BusError => "communication bus error"@,
            DeviceError::BufferFull => "no free memory in communication buffer"@,
            DeviceError::InvalidChannel => "specified channel/connection is not valid"@,
            DeviceError::UnconfiguredChannel
                => "specified channel/connection not configured or busy"@,
            DeviceError::NoActiveProgram => "No active program"@,
            DeviceError::IllegalSize => "illegal size specified"@,
            DeviceError::IllegalQueueId => "illegal mailbox queue ID specified"@,
            DeviceError::InvalidField => "attempted to access invalid field of a structure"@,
            DeviceError::BadInputOrOutput => "bad input or output specified"@,
            DeviceError::InsufficientMemory => "insufficient memory available"@,
            DeviceError::BadArguments => "bad arguments"@,
        }
    }

    /// What the condition means, in words.
    pub fn message(self) -> (r: &'static str)
        ensures
            r@ == self.spec_message(),
    {
        match self {
            DeviceError::Success => "None",
            DeviceError::InProgress => "pending communication transaction in progress",
            DeviceError::QueueEmpty => "specified mailbox queue is empty",
            DeviceError::NoMoreHandles => "no more handles",
            DeviceError::NoSpace => "no space",
            DeviceError::NoMoreFiles => "no more files",
            DeviceError::EofExpected => "end of file expected",
            DeviceError::Eof => "end of file",
            DeviceError::NotALinearFile => "not a linear file",
            DeviceError::FileNotFound => "file not found",
            DeviceError::HandleAlreadyClosed => "handle already closed",
            DeviceError::NoLinearSpace => "no linear space",
            DeviceError::Undefined => "undefined error",
            DeviceError::FileBusy => "file is busy",
            DeviceError::NoWriteBuffers => "no write buffers",
            DeviceError::AppendNotPossible => "append not possible",
            DeviceError::FileIsFull => "file is full",
            DeviceError::FileExists => "file exists",
            DeviceError::ModuleNotFound => "module not found",
            DeviceError::OutOfBounds => "out of bounds",
            DeviceError::IllegalName => "File does not exist",
            DeviceError::IllegalHandle => "illegal handle",
            DeviceError::RequestFailed => "request failed (i.e. specified file not found)",
            DeviceError::UnknownCommand => "unknown command opcode",
            DeviceError::InsanePacket => "insane packet (?)",
            DeviceError::ValueOutOfRange => "data contains out-of-range values",
            DeviceError::BusError => "communication bus error",
            DeviceError::BufferFull => "no free memory in communication buffer",
            DeviceError::InvalidChannel => "specified channel/connection is not valid",
            DeviceError::UnconfiguredChannel
                => "specified channel/connection not configured or busy",
            DeviceError::NoActiveProgram => "No active program",
            DeviceError::IllegalSize => "illegal size specified",
            DeviceError::IllegalQueueId => "illegal mailbox queue ID specified",
            DeviceError::InvalidField => "attempted to access invalid field of a structure",
            DeviceError::BadInputOrOutput => "bad input or output specified",
            DeviceError::InsufficientMemory => "insufficient memory available",
            DeviceError::BadArguments => "bad arguments",
        }
    }

    /// Map the status to a `Result`: the zero status is success, every
    /// other member is the corresponding classified device failure.
    pub fn error(self) -> (r: Result<(), Error>)
        ensures
            match r {
                Ok(()) => self is Success,
                Err(e) => !(self is Success) && (e matches Error::Device(d) && d == self),
            },
    {
        if matches!(self, DeviceError::Success) {
            Ok(())
        } else {
            Err(Error::Device(self))
        }
    }
}

/// Whether the byte carries a member of the closed status set.
pub open spec fn is_status_value(v: u8) -> bool {
    ||| v == 0x00
    ||| v == 0x20
    ||| v == 0x40
    ||| 0x81 <= v <= 0x93
    ||| 0xBD <= v <= 0xC0
    ||| 0xDD <= v <= 0xE0
    ||| 0xEC <= v <= 0xF0
    ||| v == 0xFB
    ||| v == 0xFF
}

/// Types of packet, to differentiate between direct commands, system
/// calls and replies.
#[derive(Copy, Clone, Debug, PartialEq, Eq, Structural)]
#[allow(missing_docs)]
pub enum PacketType {
    Direct,
    System,
    Reply,
    DirectReplyNotRequired,
    SystemReplyNotRequired,
}

impl PacketType {
    /// The byte that carries this packet type on the wire.
    pub open spec fn value(self) -> u8 {
        match self {
            PacketType::Direct => 0x00,
            PacketType::System => 0x01,
            PacketType::Reply => 0x02,
            PacketType::DirectReplyNotRequired => 0x80,
            PacketType::SystemReplyNotRequired => 0x81,
        }
    }

    /// The byte that carries this packet type on the wire.
    pub fn as_u8(self) -> (r: u8)
        ensures
            r == self.value(),
    {
        match self {
            PacketType::Direct => 0x00,
            PacketType::System => 0x01,
            PacketType::Reply => 0x02,
            PacketType::DirectReplyNotRequired => 0x80,
            PacketType::SystemReplyNotRequired => 0x81,
        }
    }

    /// The packet type carried by the given byte, or a parse failure
    /// for a byte outside the closed set.
    pub fn try_from_u8(code: u8) -> (r: Result<PacketType, Error>)
        ensures
            r is Ok <==> is_packet_type_value(code),
            match r {
                Ok(t) => t.value() == code,
                Err(e) => e matches Error::Parse(_),
            },
    {
        match code {
            0x00 => Ok(PacketType::Direct),
            0x01 => Ok(PacketType::System),
            0x02 => Ok(PacketType::Reply),
            0x80 => Ok(PacketType::DirectReplyNotRequired),
            0x81 => Ok(PacketType::SystemReplyNotRequired),
            _ => Err(Error::Parse("Invalid packet type")),
        }
    }
}

/// Whether the byte carries a member of the closed packet-type set.
pub open spec fn is_packet_type_value(v: u8) -> bool {
    v == 0x00 || v == 0x01 || v == 0x02 || v == 0x80 || v == 0x81
}

/// A packet: a type tag, an opcode, and a payload of bytes.
///
/// On the write side fields are appended to the end of `data`; on the
/// read side `data_offset` is the cursor that each typed read
/// advances.  Outgoing packets carry no status byte; an incoming reply
/// carries its status as the first payload byte, consumed explicitly
/// by [`Packet::check_status`].
#[derive(Debug)]
pub struct Packet {
    /// Header: the type of packet.
    pub typ: PacketType,
    /// Header: the packet's opcode.
    pub opcode: Opcode,
    /// The serialised field bytes.  For a packet under construction,
    /// just the payload; for a parsed packet, the whole incoming
    /// buffer, with the cursor standing past the two header bytes.
    pub data: Vec<u8>,
    /// When parsing, the cursor into `data`.
    pub data_offset: usize,
}

impl Packet {
    /// The cursor never stands past the end of the payload.
    pub open spec fn wf(self) -> bool {
        self.data_offset <= self.data@.len()
    }

    /// The payload bytes the cursor has not consumed yet (none when
    /// the cursor stands past the end).
    pub open spec fn remaining(self) -> Seq<u8> {
        if self.data_offset <= self.data@.len() {
            self.data@.skip(self.data_offset as int)
        } else {
            Seq::empty()
        }
    }

    /// The other packet carries the same header and payload; only the
    /// cursor may differ.
    pub open spec fn same_buffer(self, other: Packet) -> bool {
        &&& other.typ == self.typ
        &&& other.opcode == self.opcode
        &&& other.data@ == self.data@
    }

    /// The other packet is this one with `bytes` appended to the
    /// payload; header and cursor stand unchanged.
    pub open spec fn appended(self, other: Packet, bytes: Seq<u8>) -> bool {
        &&& other.typ == self.typ
        &&& other.opcode == self.opcode
        &&& other.data_offset == self.data_offset
        &&& other.data@ == self.data@ + bytes
    }

    /// A fresh outgoing packet for the given opcode, with an empty
    /// payload.  The type tag always agrees with the opcode's class:
    /// `System` for a system call, `Direct` for a direct command.
    pub fn new(opcode: Opcode) -> (p: Packet)
        ensures
            p.opcode == opcode,
            p.typ == (if opcode.spec_is_system() {
                PacketType::System
            } else {
                PacketType::Direct
            }),
            p.data@ == Seq::<u8>::empty(),
            p.data_offset == 0,
            p.wf(),
    {
        Packet {
            typ: if opcode.is_system() {
                PacketType::System
            } else {
                PacketType::Direct
            },
            opcode,
            data: Vec::new(),
            data_offset: 0,
        }
    }

    /// Parse an incoming buffer: validate the type byte and the opcode
    /// byte against their closed tables and keep the rest as payload,
    /// with the cursor at the first payload byte.
    pub fn parse(buf: &[u8]) -> (r: Result<Packet, Error>)
        ensures
            r is Ok <==> buf@.len() >= 2 && is_packet_type_value(buf@[0]) && is_opcode_value(
                buf@[1],
            ),
            match r {
                Ok(p) => {
                    &&& p.typ.value() == buf@[0]
                    &&& p.opcode.value() == buf@[1]
                    &&& p.data@ == buf@
                    &&& p.data_offset == 2
                    &&& p.wf()
                    &&& p.remaining() == buf@.skip(2)
                },
                Err(e) => e matches Error::Parse(_),
            },
    {
        if buf.len() < 2 {
            return Err(Error::Parse("Reached end of input"));
        }
        let typ = PacketType::try_from_u8(buf[0])?;
        let opcode = Opcode::try_from_u8(buf[1])?;
        let data = vstd::slice::slice_to_vec(buf);
        Ok(Packet { typ, opcode, data, data_offset: 2 })
    }

    /// Consume the status byte and classify it: the zero status is
    /// success; a recognised non-zero status is the corresponding
    /// device failure; a byte outside the closed status set is a parse
    /// failure, distinct from every named condition.
    pub fn check_status(&mut self) -> (r: Result<(), Error>)
        requires
            old(self).wf(),
        ensures
            final(self).wf(),
            old(self).same_buffer(*final(self)),
            match r {
                Ok(()) => {
                    &&& old(self).remaining().len() >= 1
                    &&& old(self).remaining()[0] == 0
                    &&& final(self).data_offset == old(self).data_offset + 1
                },
                Err(e) => match e {
                    Error::Device(d) => {
                        &&& old(self).remaining().len() >= 1
                        &&& d.value() == old(self).remaining()[0]
                        &&& d.value() != 0
                        &&& final(self).data_offset == old(self).data_offset + 1
                    },
                    Error::Parse(_) => {
                        ||| (old(self).remaining().len() == 0 && final(self).data_offset == old(
                            self,
                        ).data_offset)
                        ||| (old(self).remaining().len() >= 1 && !is_status_value(
                            old(self).remaining()[0],
                        ) && final(self).data_offset == old(self).data_offset + 1)
                    },
                    _ => false,
                },
            },
    {
        let status = self.read_u8()?;
        let status = DeviceError::try_from_u8(status)?;
        status.error()
    }

    /// Serialise the packet for the wire: the type byte, the opcode
    /// byte, then the payload in field order.  Fails when the whole
    /// message would not fit the hardware's maximum message size.
    pub fn serialise(&self) -> (r: Result<Vec<u8>, Error>)
        ensures
            r is Ok <==> self.data@.len() + 2 <= MAX_PACKET_LEN,
            match r {
                Ok(v) => v@ == seq![self.typ.value(), self.opcode.value()] + self.data@,
                Err(e) => e matches Error::Serialise(_),
            },
    {
        if self.data.len() > MAX_PACKET_LEN - 2 {
            return Err(Error::Serialise("Packet too long"));
        }
        let mut out: Vec<u8> = Vec::new();
        out.push(self.typ.as_u8());
        out.push(self.opcode.as_u8());
        append_bytes(&mut out, self.data.as_slice());
        proof {
            assert(out@ =~= seq![self.typ.value(), self.opcode.value()] + self.data@);
        }
        Ok(out)
    }
}

/// Append every byte of a slice to a vector.
fn append_bytes(v: &mut Vec<u8>, s: &[u8])
    ensures
        final(v)@ == old(v)@ + s@,
{
    let mut i: usize = 0;
    while i < s.len()
        invariant
            i <= s@.len(),
            v@ == old(v)@ + s@.take(i as int),
        decreases s@.len() - i,
    {
        v.push(s[i]);
        proof {
            assert(v@ =~= old(v)@ + s@.take(i + 1));
        }
        i = i + 1;
    }
    proof {
        assert(old(v)@ + s@.take(s@.len() as int) =~= old(v)@ + s@);
    }
}

/// Write-side operations: each appends one typed field to the payload.
impl Packet {
    /// Append a filename field: exactly [`FILENAME_LEN`] bytes, the
    /// ASCII name followed by NUL padding.  Fails when the name plus
    /// its terminator exceeds the field, or when it is not ASCII.
    pub fn push_filename(&mut self, name: &str) -> (r: Result<(), Error>)
        ensures
            r is Ok <==> name.spec_bytes().len() + 1 <= FILENAME_LEN && name.is_ascii(),
            match r {
                Ok(()) => old(self).appended(
                    *final(self),
                    padded_field(name.spec_bytes(), FILENAME_LEN as nat),
                ),
                Err(e) => *final(self) == *old(self) && (e matches Error::Serialise(_)),
            },
    {
        let bytes = name.as_bytes();
        if bytes.len() >= FILENAME_LEN {
            Err(Error::Serialise("Filename too long"))
        } else if !name.is_ascii() {
            Err(Error::Serialise("Filename must be ascii"))
        } else {
            self.push_padded_bytes(bytes, FILENAME_LEN);
            Ok(())
        }
    }

    /// Append a bounded string field: exactly `max_len` bytes, the
    /// text's bytes followed by NUL padding.  Fails when the text plus
    /// its terminator exceeds the bound.
    pub fn push_str(&mut self, s: &str, max_len: usize) -> (r: Result<(), Error>)
        ensures
            r is Ok <==> s.spec_bytes().len() + 1 <= max_len,
            match r {
                Ok(()) => old(self).appended(
                    *final(self),
                    padded_field(s.spec_bytes(), max_len as nat),
                ),
                Err(e) => *final(self) == *old(self) && (e matches Error::Serialise(_)),
            },
    {
        let bytes = s.as_bytes();
        if bytes.len() >= max_len {
            return Err(Error::Serialise("String too long"));
        }
        self.push_padded_bytes(bytes, max_len);
        Ok(())
    }

    /// Append the given bytes and then NUL padding, so that exactly
    /// `n` bytes are added in all.
    fn push_padded_bytes(&mut self, bytes: &[u8], n: usize)
        requires
            bytes@.len() <= n,
        ensures
            old(self).appended(*final(self), padded_field(bytes@, n as nat)),
    {
        let ghost pre = *old(self);
        append_bytes(&mut self.data, bytes);
        let mut i: usize = bytes.len();
        while i < n
            invariant
                bytes@.len() <= i <= n,
                self.typ == pre.typ,
                self.opcode == pre.opcode,
                self.data_offset == pre.data_offset,
                self.data@ == pre.data@ + bytes@ + zeros((i - bytes@.len()) as nat),
            decreases n - i,
        {
            self.data.push(0);
            proof {
                assert(self.data@ =~= pre.data@ + bytes@ + zeros((i + 1 - bytes@.len()) as nat));
            }
            i = i + 1;
        }
        proof {
            assert(pre.data@ + bytes@ + zeros(0) =~= pre.data@ + bytes@);
            assert(self.data@ =~= pre.data@ + padded_field(bytes@, n as nat));
        }
    }

    /// Append a boolean as one byte: 1 for true, 0 for false.
    pub fn push_bool(&mut self, val: bool)
        ensures
            old(self).appended(*final(self), seq![if val { 1u8 } else { 0u8 }]),
    {
        self.data.push(if val { 1 } else { 0 });
        proof {
            assert(self.data@ =~= old(self).data@ + seq![if val { 1u8 } else { 0u8 }]);
        }
    }

    /// Append one byte.
    pub fn push_u8(&mut self, val: u8)
        ensures
            old(self).appended(*final(self), seq![val]),
    {
        self.data.push(val);
        proof {
            assert(self.data@ =~= old(self).data@ + seq![val]);
        }
    }

    /// Append an 8-bit signed value as its two's-complement byte.
    pub fn push_i8(&mut self, val: i8)
        ensures
            old(self).appended(*final(self), seq![byte_of_i8(val)]),
    {
        let b: u8 = if val >= 0 {
            val as u8
        } else {
            (val as i16 + 0x100) as u8
        };
        self.data.push(b);
        proof {
            assert(self.data@ =~= old(self).data@ + seq![byte_of_i8(val)]);
        }
    }

    /// Append a 16-bit value as two little-endian bytes.
    pub fn push_u16(&mut self, val: u16)
        ensures
            old(self).appended(*final(self), u16_le(val)),
    {
        self.data.push((val % 0x100) as u8);
        self.data.push((val / 0x100) as u8);
        proof {
            assert(self.data@ =~= old(self).data@ + u16_le(val));
        }
    }

    /// Append a 32-bit value as four little-endian bytes.
    pub fn push_u32(&mut self, val: u32)
        ensures
            old(self).appended(*final(self), u32_le(val)),
    {
        self.data.push((val % 0x100) as u8);
        self.data.push((val / 0x100 % 0x100) as u8);
        self.data.push((val / 0x10000 % 0x100) as u8);
        self.data.push((val / 0x1000000) as u8);
        proof {
            assert(self.data@ =~= old(self).data@ + u32_le(val));
        }
    }

    /// Append raw bytes as they stand, with no length or terminator.
    pub fn push_slice(&mut self, data: &[u8])
        ensures
            old(self).appended(*final(self), data@),
    {
        append_bytes(&mut self.data, data);
    }
}

/// Read-side operations: each consumes one typed field at the cursor.
///
/// A multi-byte integer is read as repeated single-byte reads; when a
/// later byte of such a field is missing, the earlier bytes stay
/// consumed.  The fixed-width field reads (`read_slice`,
/// `read_filename`, `read_string`) check their whole width first and
/// consume nothing when it is missing.
impl Packet {
    /// Read one byte.
    pub fn read_u8(&mut self) -> (r: Result<u8, Error>)
        requires
            old(self).wf(),
        ensures
            final(self).wf(),
            old(self).same_buffer(*final(self)),
            match r {
                Ok(b) => {
                    &&& old(self).remaining().len() >= 1
                    &&& b == old(self).remaining()[0]
                    &&& final(self).data_offset == old(self).data_offset + 1
                },
                Err(e) => {
                    &&& old(self).remaining().len() == 0
                    &&& *final(self) == *old(self)
                    &&& e matches Error::Parse(_)
                },
            },
    {
        if self.data_offset < self.data.len() {
            let b = self.data[self.data_offset];
            self.data_offset = self.data_offset + 1;
            Ok(b)
        } else {
            Err(Error::Parse("Reached end of input"))
        }
    }

    /// Read a boolean: any non-zero byte is true.
    pub fn read_bool(&mut self) -> (r: Result<bool, Error>)
        requires
            old(self).wf(),
        ensures
            final(self).wf(),
            old(self).same_buffer(*final(self)),
            match r {
                Ok(b) => {
                    &&& old(self).remaining().len() >= 1
                    &&& b == (old(self).remaining()[0] != 0)
                    &&& final(self).data_offset == old(self).data_offset + 1
                },
                Err(e) => {
                    &&& old(self).remaining().len() == 0
                    &&& *final(self) == *old(self)
                    &&& e matches Error::Parse(_)
                },
            },
    {
        let b = self.read_u8()?;
        Ok(b != 0)
    }

    /// Read an 8-bit signed value from its two's-complement byte.
    pub fn read_i8(&mut self) -> (r: Result<i8, Error>)
        requires
            old(self).wf(),
        ensures
            final(self).wf(),
            old(self).same_buffer(*final(self)),
            match r {
                Ok(v) => {
                    &&& old(self).remaining().len() >= 1
                    &&& v as int == i8_of_byte(old(self).remaining()[0])
                    &&& final(self).data_offset == old(self).data_offset + 1
                },
                Err(e) => {
                    &&& old(self).remaining().len() == 0
                    &&& *final(self) == *old(self)
                    &&& e matches Error::Parse(_)
                },
            },
    {
        let b = self.read_u8()?;
        if b < 0x80 {
            Ok(b as i8)
        } else {
            Ok((b as i16 - 0x100) as i8)
        }
    }

    /// Read a 16-bit little-endian value.
    pub fn read_u16(&mut self) -> (r: Result<u16, Error>)
        requires
            old(self).wf(),
        ensures
            final(self).wf(),
            old(self).same_buffer(*final(self)),
            match r {
                Ok(v) => {
                    &&& old(self).remaining().len() >= 2
                    &&& v == le16(old(self).remaining()[0], old(self).remaining()[1])
                    &&& final(self).data_offset == old(self).data_offset + 2
                },
                Err(e) => {
                    &&& old(self).remaining().len() < 2
                    &&& final(self).remaining().len() == 0
                    &&& e matches Error::Parse(_)
                },
            },
    {
        let b0 = self.read_u8()?;
        let b1 = self.read_u8()?;
        Ok(b0 as u16 + b1 as u16 * 0x100)
    }

    /// Read a 16-bit little-endian value and take its signed reading.
    pub fn read_i16(&mut self) -> (r: Result<i16, Error>)
        requires
            old(self).wf(),
        ensures
            final(self).wf(),
            old(self).same_buffer(*final(self)),
            match r {
                Ok(v) => {
                    &&& old(self).remaining().len() >= 2
                    &&& v as int == i16_of(le16(old(self).remaining()[0], old(self).remaining()[1]))
                    &&& final(self).data_offset == old(self).data_offset + 2
                },
                Err(e) => {
                    &&& old(self).remaining().len() < 2
                    &&& final(self).remaining().len() == 0
                    &&& e matches Error::Parse(_)
                },
            },
    {
        let u = self.read_u16()?;
        if u < 0x8000 {
            Ok(u as i16)
        } else {
            Ok((u as i32 - 0x10000) as i16)
        }
    }

    /// Read a 32-bit little-endian value.
    pub fn read_u32(&mut self) -> (r: Result<u32, Error>)
        requires
            old(self).wf(),
        ensures
            final(self).wf(),
            old(self).same_buffer(*final(self)),
            match r {
                Ok(v) => {
                    &&& old(self).remaining().len() >= 4
                    &&& v == le32(
                        old(self).remaining()[0],
                        old(self).remaining()[1],
                        old(self).remaining()[2],
                        old(self).remaining()[3],
                    )
                    &&& final(self).data_offset == old(self).data_offset + 4
                },
                Err(e) => {
                    &&& old(self).remaining().len() < 4
                    &&& final(self).remaining().len() == 0
                    &&& e matches Error::Parse(_)
                },
            },
    {
        let b0 = self.read_u8()?;
        let b1 = self.read_u8()?;
        let b2 = self.read_u8()?;
        let b3 = self.read_u8()?;
        Ok(b0 as u32 + b1 as u32 * 0x100 + b2 as u32 * 0x10000 + b3 as u32 * 0x1000000)
    }

    /// Read a 32-bit little-endian value and take its signed reading.
    pub fn read_i32(&mut self) -> (r: Result<i32, Error>)
        requires
            old(self).wf(),
        ensures
            final(self).wf(),
            old(self).same_buffer(*final(self)),
            match r {
                Ok(v) => {
                    &&& old(self).remaining().len() >= 4
                    &&& v as int == i32_of(
                        le32(
                            old(self).remaining()[0],
                            old(self).remaining()[1],
                            old(self).remaining()[2],
                            old(self).remaining()[3],
                        ),
                    )
                    &&& final(self).data_offset == old(self).data_offset + 4
                },
                Err(e) => {
                    &&& old(self).remaining().len() < 4
                    &&& final(self).remaining().len() == 0
                    &&& e matches Error::Parse(_)
                },
            },
    {
        let u = self.read_u32()?;
        if u < 0x80000000 {
            Ok(u as i32)
        } else {
            Ok((u as i64 - 0x100000000) as i32)
        }
    }

    /// Read exactly `len` raw bytes, or fail consuming nothing when
    /// fewer remain.
    pub fn read_slice(&mut self, len: usize) -> (r: Result<Vec<u8>, Error>)
        requires
            old(self).wf(),
        ensures
            final(self).wf(),
            old(self).same_buffer(*final(self)),
            match r {
                Ok(v) => {
                    &&& old(self).remaining().len() >= len
                    &&& v@ == old(self).remaining().take(len as int)
                    &&& final(self).data_offset == old(self).data_offset + len
                },
                Err(e) => {
                    &&& old(self).remaining().len() < len
                    &&& *final(self) == *old(self)
                    &&& e matches Error::Parse(_)
                },
            },
    {
        if len > self.data.len() - self.data_offset {
            return Err(Error::Parse("Requested slice too long"));
        }
        let mut v: Vec<u8> = Vec::new();
        let mut i: usize = 0;
        while i < len
            invariant
                0 <= i <= len,
                len <= self.data@.len() - self.data_offset,
                self.data_offset + len <= usize::MAX,
                v@ == self.remaining().take(i as int),
            decreases len - i,
        {
            v.push(self.data[self.data_offset + i]);
            proof {
                assert(v@ =~= self.remaining().take(i + 1));
            }
            i = i + 1;
        }
        self.data_offset = self.data_offset + len;
        Ok(v)
    }

    /// Read a filename field: consume exactly [`FILENAME_LEN`] bytes,
    /// keep what stands before the first NUL byte, and decode it as
    /// UTF-8 text.
    pub fn read_filename(&mut self) -> (r: Result<String, Error>)
        requires
            old(self).wf(),
        ensures
            final(self).wf(),
            old(self).same_buffer(*final(self)),
            match r {
                Ok(s) => {
                    let text = before_nul(old(self).remaining().take(FILENAME_LEN as int));
                    &&& old(self).remaining().len() >= FILENAME_LEN
                    &&& valid_utf8(text)
                    &&& s@ == decode_utf8(text)
                    &&& final(self).data_offset == old(self).data_offset + FILENAME_LEN
                },
                Err(Error::Parse(_)) => {
                    &&& old(self).remaining().len() < FILENAME_LEN
                    &&& *final(self) == *old(self)
                },
                Err(Error::InvalidString) => {
                    &&& old(self).remaining().len() >= FILENAME_LEN
                    &&& !valid_utf8(before_nul(old(self).remaining().take(FILENAME_LEN as int)))
                    &&& final(self).data_offset == old(self).data_offset + FILENAME_LEN
                },
                Err(_) => false,
            },
    {
        if FILENAME_LEN > self.data.len() - self.data_offset {
            return Err(Error::Parse("Requested slice too long"));
        }
        let ghost field = self.remaining().take(FILENAME_LEN as int);
        let mut n: usize = 0;
        while n < FILENAME_LEN && self.data[self.data_offset + n] != 0
            invariant
                0 <= n <= FILENAME_LEN,
                FILENAME_LEN <= self.data@.len() - self.data_offset,
                self.data_offset + FILENAME_LEN <= usize::MAX,
                field == self.remaining().take(FILENAME_LEN as int),
                forall|j: int| 0 <= j < n ==> field[j] != 0,
            decreases FILENAME_LEN - n,
        {
            n = n + 1;
        }
        proof {
            lemma_nul_pos_unique(field, n as int);
        }
        let v = self.read_slice(n)?;
        proof {
            assert(v@ =~= before_nul(field));
        }
        self.data_offset = self.data_offset + (FILENAME_LEN - n);
        string_from_utf8(v)
    }

    /// Read a bounded string field: consume exactly `max_len` bytes,
    /// strip every trailing NUL byte, and decode the rest as UTF-8
    /// text.
    pub fn read_string(&mut self, max_len: usize) -> (r: Result<String, Error>)
        requires
            old(self).wf(),
        ensures
            final(self).wf(),
            old(self).same_buffer(*final(self)),
            match r {
                Ok(s) => {
                    let text = strip_nuls(old(self).remaining().take(max_len as int));
                    &&& old(self).remaining().len() >= max_len
                    &&& valid_utf8(text)
                    &&& s@ == decode_utf8(text)
                    &&& final(self).data_offset == old(self).data_offset + max_len
                },
                Err(Error::Parse(_)) => {
                    &&& old(self).remaining().len() < max_len
                    &&& *final(self) == *old(self)
                },
                Err(Error::InvalidString) => {
                    &&& old(self).remaining().len() >= max_len
                    &&& !valid_utf8(strip_nuls(old(self).remaining().take(max_len as int)))
                    &&& final(self).data_offset == old(self).data_offset + max_len
                },
                Err(_) => false,
            },
    {
        let mut v = self.read_slice(max_len)?;
        let ghost field = v@;
        while v.len() > 0 && v[v.len() - 1] == 0
            invariant
                strip_nuls(v@) == strip_nuls(field),
            decreases v@.len(),
        {
            v.pop();
        }
        proof {
            crate::wire::lemma_strip_nuls_noop(v@);
        }
        string_from_utf8(v)
    }
}

impl vstd::std_specs::cmp::PartialEqSpecImpl for Packet {
    open spec fn obeys_eq_spec() -> bool {
        true
    }

    open spec fn eq_spec(&self, other: &Packet) -> bool {
        &&& self.typ == other.typ
        &&& self.opcode == other.opcode
        &&& self.remaining() == other.remaining()
    }
}

impl PartialEq for Packet {
    /// Two packets are equal when their headers agree and the payload
    /// bytes the cursor has not consumed yet agree.
    fn eq(&self, other: &Packet) -> (r: bool) {
        if !(self.typ == other.typ && self.opcode == other.opcode) {
            return false;
        }
        let self_start: usize = if self.data_offset <= self.data.len() {
            self.data_offset
        } else {
            self.data.len()
        };
        let other_start: usize = if other.data_offset <= other.data.len() {
            other.data_offset
        } else {
            other.data.len()
        };
        proof {
            assert(self.remaining() =~= self.data@.skip(self_start as int));
            assert(other.remaining() =~= other.data@.skip(other_start as int));
        }
        let self_rem = self.data.len() - self_start;
        let other_rem = other.data.len() - other_start;
        if self_rem != other_rem {
            proof {
                assert(self.remaining().len() != other.remaining().len());
            }
            return false;
        }
        let mut i: usize = 0;
        while i < self_rem
            invariant
                0 <= i <= self_rem,
                self_rem == self.remaining().len(),
                self_rem == other.remaining().len(),
                self_start + self_rem == self.data@.len(),
                other_start + other_rem == other.data@.len(),
                self_start + self_rem <= usize::MAX,
                other_start + other_rem <= usize::MAX,
                self_rem == other_rem,
                self.remaining() == self.data@.skip(self_start as int),
                other.remaining() == other.data@.skip(other_start as int),
                forall|j: int| 0 <= j < i ==> self.remaining()[j] == other.remaining()[j],
            decreases self_rem - i,
        {
            if self.data[self_start + i] != other.data[other_start + i] {
                proof {
                    assert(self.remaining()[i as int] != other.remaining()[i as int]);
                }
                return false;
            }
            i = i + 1;
        }
        proof {
            assert(self.remaining() =~= other.remaining());
        }
        true
    }
}

impl Eq for Packet {}

/// No two members of the closed opcode set share a wire byte.
pub proof fn lemma_opcode_value_injective(a: Opcode, b: Opcode)
    ensures
        (a == b) <==> (a.value() == b.value()),
{
}

/// No two members of the closed packet-type set share a wire byte.
pub proof fn lemma_packet_type_value_injective(a: PacketType, b: PacketType)
    ensures
        (a == b) <==> (a.value() == b.value()),
{
}

/// Law: serialising and parsing a packet comes back to an equal
/// packet.  Any packet that meets [`Packet::parse`]'s postcondition on
/// the bytes [`Packet::serialise`] produced for `p` is equal to `p`,
/// in the sense of [`Packet`]'s equality: same header, same bytes at
/// and after the cursor.
pub proof fn lemma_serialise_parse_round_trip(p: Packet, q: Packet)
    requires
        p.data_offset == 0,
        q.typ.value() == p.typ.value(),
        q.opcode.value() == p.opcode.value(),
        q.data@ == seq![p.typ.value(), p.opcode.value()] + p.data@,
        q.data_offset == 2,
    ensures
        q.eq_spec(&p),
{
    lemma_opcode_value_injective(q.opcode, p.opcode);
    lemma_packet_type_value_injective(q.typ, p.typ);
    assert(q.remaining() =~= p.remaining());
}

/// Law: filename field round trip.  Pushing an ASCII name without NUL
/// characters that fits the field, then reading the field back, gives
/// the name again: the field is the name's bytes NUL-padded to the
/// fixed width, and what stands before the first NUL decodes to the
/// name.
pub proof fn lemma_filename_field_round_trip(s: Seq<char>)
    requires
        is_ascii_chars(s),
        s.len() + 1 <= FILENAME_LEN,
        forall|i: int| 0 <= i < s.len() ==> s[i] != '\0',
    ensures
        ({
            let field = padded_field(encode_utf8(s), FILENAME_LEN as nat);
            &&& field.len() == FILENAME_LEN
            &&& valid_utf8(before_nul(field))
            &&& decode_utf8(before_nul(field)) == s
        }),
{
    let bytes = encode_utf8(s);
    is_ascii_chars_encode_utf8(s);
    assert(forall|i: int| 0 <= i < bytes.len() ==> bytes[i] != 0);
    lemma_before_nul_padded_field(bytes, FILENAME_LEN as nat);
    encode_utf8_valid_utf8(s);
    encode_utf8_decode_utf8(s);
}

/// Law: bounded string field round trip.  Pushing an ASCII text that
/// fits the bound and does not end in a NUL character, then reading
/// the field back with the same bound, gives the text again: the
/// field is the text's bytes NUL-padded to the bound, and stripping
/// every trailing NUL leaves exactly the text.
pub proof fn lemma_bounded_string_round_trip(s: Seq<char>, n: nat)
    requires
        is_ascii_chars(s),
        s.len() + 1 <= n,
        s.len() > 0 ==> s[s.len() - 1] != '\0',
    ensures
        ({
            let field = padded_field(encode_utf8(s), n);
            &&& field.len() == n
            &&& valid_utf8(strip_nuls(field))
            &&& decode_utf8(strip_nuls(field)) == s
        }),
{
    let bytes = encode_utf8(s);
    is_ascii_chars_encode_utf8(s);
    lemma_strip_padded_field(bytes, n);
    encode_utf8_valid_utf8(s);
    encode_utf8_decode_utf8(s);
}

/// Relies on `String::from_utf8`: it succeeds exactly on valid UTF-8
/// input, and then returns the string those bytes encode.
#[verifier::external_body]
fn string_from_utf8(v: Vec<u8>) -> (r: Result<String, Error>)
    ensures
        r is Ok <==> valid_utf8(v@),
        match r {
            Ok(s) => s@ == decode_utf8(v@),
            Err(e) => e matches Error::InvalidString,
        },
{
    match String::from_utf8(v) {
        Ok(s) => Ok(s),
        Err(_) => Err(Error::InvalidString),
    }
}

} // verus!
