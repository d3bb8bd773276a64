//! Handle-bearing resources and device-information records.
//!
//! A handle is a small server-assigned identifier referencing an open
//! resource on the brick.  It is a capability reference, not owned
//! data: it means nothing without a live connection to the same brick.
//! A [`FileHandle`] lives until the explicit close call; a
//! [`FindFileHandle`] or [`ModuleHandle`] is a transient per-step
//! value that each find-next call supersedes with the one returned in
//! that step's reply.

use vstd::prelude::*;
use crate::error::Error;
use crate::protocol::{Packet, FILENAME_LEN};
use crate::wire::{le16, le32, before_nul, strip_nuls};
use vstd::utf8::{valid_utf8, decode_utf8};

verus! {

/// An open file on the brick.
#[derive(Debug)]
pub struct FileHandle {
    /// The server-assigned handle byte.
    pub handle: u8,
    /// The file's length in bytes.
    pub len: u32,
}

/// One step of a filename search: the cursor's handle and the match it
/// returned.
#[derive(Debug)]
pub struct FindFileHandle {
    /// The server-assigned handle byte for the search cursor.
    pub handle: u8,
    /// The matched file's name.
    pub name: String,
    /// The matched file's length in bytes.
    pub len: u32,
}

impl FindFileHandle {
    /// Decode a find-first or find-next reply payload at the packet's
    /// cursor: the cursor's new handle, the matched filename, and the
    /// file's length, 25 bytes in all.
    pub fn read_from(recv: &mut Packet) -> (r: Result<FindFileHandle, Error>)
        requires
            old(recv).wf(),
        ensures
            final(recv).wf(),
            old(recv).same_buffer(*final(recv)),
            ({
                let b = old(recv).remaining();
                let name_bytes = before_nul(b.subrange(1, 1 + FILENAME_LEN as int));
                &&& (r is Ok <==> b.len() >= 25 && valid_utf8(name_bytes))
                &&& match r {
                    Ok(h) => {
                        &&& h.handle == b[0]
                        &&& h.name@ == decode_utf8(name_bytes)
                        &&& h.len == le32(b[21], b[22], b[23], b[24])
                        &&& final(recv).data_offset == old(recv).data_offset + 25
                    },
                    Err(e) => e matches Error::Parse(_) || e matches Error::InvalidString,
                }
            }),
    {
        let handle = recv.read_u8()?;
        proof {
            if old(recv).remaining().len() >= 1 + FILENAME_LEN {
                assert(recv.remaining().take(FILENAME_LEN as int)
                    =~= old(recv).remaining().subrange(1, 1 + FILENAME_LEN as int));
            }
        }
        let name = recv.read_filename()?;
        let len = recv.read_u32()?;
        Ok(FindFileHandle { handle, name, len })
    }
}

/// The firmware versions the brick reports: protocol and firmware,
/// each as (major, minor).
#[derive(Copy, Clone, Debug)]
#[allow(missing_docs)]
pub struct FwVersion {
    pub prot: (u8, u8),
    pub fw: (u8, u8),
}

impl FwVersion {
    /// Decode a get-versions reply payload at the packet's cursor:
    /// four bytes, each version minor before major.
    pub fn read_from(recv: &mut Packet) -> (r: Result<FwVersion, Error>)
        requires
            old(recv).wf(),
        ensures
            final(recv).wf(),
            old(recv).same_buffer(*final(recv)),
            ({
                let b = old(recv).remaining();
                &&& (r is Ok <==> b.len() >= 4)
                &&& match r {
                    Ok(v) => {
                        &&& v.prot == (b[1], b[0])
                        &&& v.fw == (b[3], b[2])
                        &&& final(recv).data_offset == old(recv).data_offset + 4
                    },
                    Err(e) => e matches Error::Parse(_),
                }
            }),
    {
        let prot_min = recv.read_u8()?;
        let prot_maj = recv.read_u8()?;
        let fw_min = recv.read_u8()?;
        let fw_maj = recv.read_u8()?;
        Ok(FwVersion { prot: (prot_maj, prot_min), fw: (fw_maj, fw_min) })
    }
}

/// One step of a module search: the cursor's handle and the module it
/// returned.
#[derive(Debug)]
pub struct ModuleHandle {
    /// The server-assigned handle byte for the search cursor.
    pub handle: u8,
    /// The matched module's name.
    pub name: String,
    /// The module's identifier, used for IO-map addressing.
    pub id: u32,
    /// The module's size in bytes.
    pub len: u32,
    /// The size of the module's IO map in bytes.
    pub iomap_len: u16,
}

impl ModuleHandle {
    /// Decode a module find-first or find-next reply payload at the
    /// packet's cursor: the cursor's new handle, the module's name,
    /// identifier, size and IO-map size, 31 bytes in all.
    pub fn read_from(recv: &mut Packet) -> (r: Result<ModuleHandle, Error>)
        requires
            old(recv).wf(),
        ensures
            final(recv).wf(),
            old(recv).same_buffer(*final(recv)),
            ({
                let b = old(recv).remaining();
                let name_bytes = before_nul(b.subrange(1, 1 + FILENAME_LEN as int));
                &&& (r is Ok <==> b.len() >= 31 && valid_utf8(name_bytes))
                &&& match r {
                    Ok(h) => {
                        &&& h.handle == b[0]
                        &&& h.name@ == decode_utf8(name_bytes)
                        &&& h.id == le32(b[21], b[22], b[23], b[24])
                        &&& h.len == le32(b[25], b[26], b[27], b[28])
                        &&& h.iomap_len == le16(b[29], b[30])
                        &&& final(recv).data_offset == old(recv).data_offset + 31
                    },
                    Err(e) => e matches Error::Parse(_) || e matches Error::InvalidString,
                }
            }),
    {
        let handle = recv.read_u8()?;
        proof {
            if old(recv).remaining().len() >= 1 + FILENAME_LEN {
                assert(recv.remaining().take(FILENAME_LEN as int)
                    =~= old(recv).remaining().subrange(1, 1 + FILENAME_LEN as int));
            }
        }
        let name = recv.read_filename()?;
        let id = recv.read_u32()?;
        let len = recv.read_u32()?;
        let iomap_len = recv.read_u16()?;
        Ok(ModuleHandle { handle, name, id, len, iomap_len })
    }
}

/// General device information the brick reports.
#[derive(Debug)]
pub struct DeviceInfo {
    /// The brick's name.
    pub name: String,
    /// The brick's Bluetooth address.
    pub bt_addr: [u8; 6],
    /// Signal strength of the connected bricks.
    pub signal_strength: (u8, u8, u8, u8),
    /// Free flash memory, in bytes.
    pub flash: u32,
}

impl DeviceInfo {
    /// Decode a get-device-info reply payload at the packet's cursor:
    /// the brick's name as a 15-byte bounded string, its Bluetooth
    /// address, one unused byte, the four signal strengths, and the
    /// free flash, 30 bytes in all.
    pub fn read_from(recv: &mut Packet) -> (r: Result<DeviceInfo, Error>)
        requires
            old(recv).wf(),
        ensures
            final(recv).wf(),
            old(recv).same_buffer(*final(recv)),
            ({
                let b = old(recv).remaining();
                let name_bytes = strip_nuls(b.take(15));
                &&& (r is Ok <==> b.len() >= 30 && valid_utf8(name_bytes))
                &&& match r {
                    Ok(info) => {
                        &&& info.name@ == decode_utf8(name_bytes)
                        &&& info.bt_addr@ =~= b.subrange(15, 21)
                        &&& info.signal_strength == (b[22], b[23], b[24], b[25])
                        &&& info.flash == le32(b[26], b[27], b[28], b[29])
                        &&& final(recv).data_offset == old(recv).data_offset + 30
                    },
                    Err(e) => e matches Error::Parse(_) || e matches Error::InvalidString,
                }
            }),
    {
        let name = recv.read_string(15)?;
        let bt_addr = [
            recv.read_u8()?,
            recv.read_u8()?,
            recv.read_u8()?,
            recv.read_u8()?,
            recv.read_u8()?,
            recv.read_u8()?,
        ];
        let _unused = recv.read_u8()?;
        let signal_strength = (recv.read_u8()?, recv.read_u8()?, recv.read_u8()?, recv.read_u8()?);
        let flash = recv.read_u32()?;
        Ok(DeviceInfo { name, bt_addr, signal_strength, flash })
    }
}

/// Which buffer a poll-command request reads.
#[derive(Copy, Clone, Debug, PartialEq, Eq, Structural)]
pub enum BufType {
    /// The USB poll buffer.
    Usb,
    /// The high-speed poll buffer.
    HighSpeed,
}

impl BufType {
    /// The byte that carries this buffer selection on the wire.
    pub open spec fn value(self) -> u8 {
        match self {
            BufType::Usb => 0,
            BufType::HighSpeed => 1,
        }
    }

    /// The byte that carries this buffer selection on the wire.
    pub fn as_u8(self) -> (r: u8)
        ensures
            r == self.value(),
    {
        match self {
            BufType::Usb => 0,
            BufType::HighSpeed => 1,
        }
    }

    /// The buffer selection carried by the given byte, or a parse
    /// failure for any other byte.
    pub fn try_from_u8(code: u8) -> (r: Result<BufType, Error>)
        ensures
            r is Ok <==> code <= 1,
            match r {
                Ok(b) => b.value() == code,
                Err(e) => e matches Error::Parse(_),
            },
    {
        match code {
            0 => Ok(BufType::Usb),
            1 => Ok(BufType::HighSpeed),
            _ => Err(Error::Parse("Invalid BufType")),
        }
    }
}

} // verus!
