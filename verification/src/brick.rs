//! The request/reply engine: one connection to a brick, and every
//! command the brick understands.
//!
//! Each operation builds a packet with the codec, exchanges it over
//! the [`Socket`], and decodes the reply.  Opcode correlation is
//! mandatory and fatal on mismatch: there is no resynchronisation, so
//! correctness rests on a strict one-request/one-reply discipline,
//! which the exclusive borrow on each operation enforces per
//! connection value.  Nothing here retries: every failure goes
//! straight to the caller.

use vstd::prelude::*;
use crate::error::Error;
use crate::motor::{OutMode, OutPort, OutputState, RegulationMode, RunState};
use crate::protocol::{is_opcode_value, is_packet_type_value, Opcode, Packet, FILENAME_LEN,
    MAX_PACKET_LEN};
use crate::sensor::{InPort, InputValues, SensorMode, SensorType};
use crate::system::{BufType, DeviceInfo, FileHandle, FindFileHandle, FwVersion, ModuleHandle};
use crate::transport::Socket;
use vstd::string::StringSliceAdditionalSpecFns;

verus! {

/// USB vendor id of the brick's maker.
pub const NXT_VENDOR: u16 = 0x0694;

/// USB product id of the brick.
pub const NXT_PRODUCT: u16 = 0x0002;

/// Longest message body for inter-brick messaging.
pub const MAX_MESSAGE_LEN: usize = 58;

/// Length of the brick-name field.
pub const MAX_NAME_LEN: usize = 15;

/// Largest inbox id for inter-brick messaging.
pub const MAX_INBOX_ID: u8 = 19;

/// Module id of the display.
pub const MOD_DISPLAY: u32 = 0xa0001;

/// Offset of the pixel data inside the display module's IO map.
pub const DISPLAY_DATA_OFFSET: u16 = 119;

/// Width of the LCD screen in pixels.
pub const DISPLAY_WIDTH: usize = 100;

/// Height of the LCD screen in pixels.
pub const DISPLAY_HEIGHT: usize = 64;

/// Size of the whole pixel raster in bytes.
pub const DISPLAY_DATA_LEN: usize = DISPLAY_WIDTH * DISPLAY_HEIGHT / 8;

/// How many raster bytes one IO-map read fetches: the packet size cap
/// forces the raster over in chunks.
pub const DISPLAY_DATA_CHUNK_SIZE: u16 = 32;

/// How many chunks fetch the complete raster.
pub const DISPLAY_NUM_CHUNKS: u16 = 25;

/// Validate one reply buffer against the request's opcode: parse it,
/// and fail with the opcode-mismatch condition whenever the reply's
/// opcode is not the request's, handing back no partially-decoded
/// data.
pub fn check_reply(buf: &[u8], expected: Opcode) -> (r: Result<Packet, Error>)
    ensures
        r is Ok <==> buf@.len() >= 2 && is_packet_type_value(buf@[0]) && buf@[1]
            == expected.value(),
        match r {
            Ok(p) => {
                &&& p.typ.value() == buf@[0]
                &&& p.opcode == expected
                &&& p.data@ == buf@
                &&& p.data_offset == 2
                &&& p.wf()
            },
            Err(e) => {
                ||| {
                    &&& buf@.len() >= 2
                    &&& is_packet_type_value(buf@[0])
                    &&& is_opcode_value(buf@[1])
                    &&& buf@[1] != expected.value()
                    &&& e matches Error::ReplyMismatch
                }
                ||| {
                    &&& (buf@.len() < 2 || !is_packet_type_value(buf@[0]) || !is_opcode_value(
                        buf@[1],
                    ))
                    &&& e matches Error::Parse(_)
                }
            },
        },
{
    let pkt = Packet::parse(buf)?;
    if pkt.opcode.as_u8() == expected.as_u8() {
        proof {
            crate::protocol::lemma_opcode_value_injective(pkt.opcode, expected);
        }
        Ok(pkt)
    } else {
        Err(Error::ReplyMismatch)
    }
}

/// A connection to one brick.  All commands multiplex over the one
/// underlying channel; the exclusive borrow each command takes keeps
/// one exchange in flight at a time per connection value.
#[derive(Debug)]
pub struct Nxt<S: Socket> {
    /// The byte channel to the brick.
    socket: S,
    /// The brick's name, read once at connection time.
    name: String,
}

impl<S: Socket> Nxt<S> {
    /// The brick's name as this connection recorded it.
    pub closed spec fn spec_name(self) -> Seq<char> {
        self.name@
    }

    /// Wrap a freshly connected channel and read the brick's name off
    /// it.
    pub fn init(socket: S) -> (r: Result<Nxt<S>, Error>) {
        let mut nxt = Nxt { socket, name: String::new() };
        let info = nxt.get_device_info()?;
        nxt.name = info.name;
        Ok(nxt)
    }

    /// The name of the brick.
    pub fn name(&self) -> (r: &str)
        ensures
            r@ == self.spec_name(),
    {
        self.name.as_str()
    }

    /// Send the packet, and optionally receive one reply just to
    /// validate its opcode correlation and classify its status byte.
    /// Use this when the reply holds nothing of use beyond the status.
    pub fn send(&mut self, pkt: &Packet, check_status: bool) -> (r: Result<(), Error>)
        ensures
            pkt.data@.len() + 2 > MAX_PACKET_LEN ==> (r matches Err(Error::Serialise(_))),
    {
        let serialised = pkt.serialise()?;
        let written = self.socket.send(serialised.as_slice())?;
        if written == serialised.len() {
            if check_status {
                let mut reply = self.recv(pkt.opcode)?;
                reply.check_status()?;
            }
            Ok(())
        } else {
            Err(Error::Write)
        }
    }

    /// Receive one reply packet and validate that its opcode matches
    /// the expected value.  The status byte is left at the cursor for
    /// the caller to consume.
    fn recv(&mut self, opcode: Opcode) -> (r: Result<Packet, Error>)
        ensures
            match r {
                Ok(p) => p.wf() && p.opcode == opcode && p.data_offset == 2,
                Err(_) => true,
            },
    {
        let buf = self.socket.recv()?;
        check_reply(buf.as_slice(), opcode)
    }

    /// Send the packet and receive exactly one reply, validated for
    /// opcode correlation.  Use this when the reply carries data; the
    /// status byte is left at the cursor for the caller to consume.
    pub fn send_recv(&mut self, pkt: &Packet) -> (r: Result<Packet, Error>)
        ensures
            pkt.data@.len() + 2 > MAX_PACKET_LEN ==> (r matches Err(Error::Serialise(_))),
            match r {
                Ok(p) => p.wf() && p.opcode == pkt.opcode && p.data_offset == 2,
                Err(_) => true,
            },
    {
        self.send(pkt, false)?;
        self.recv(pkt.opcode)
    }

    /// Fetch the LCD raster, one IO-map chunk at a time.  The bytes
    /// come in the display's column-strip order, not row order.
    pub fn get_display_data(&mut self) -> (r: Result<Vec<u8>, Error>)
        ensures
            r matches Ok(v) ==> v@.len() == DISPLAY_DATA_LEN,
    {
        let mut out: Vec<u8> = Vec::new();
        let mut chunk_idx: u16 = 0;
        while chunk_idx < DISPLAY_NUM_CHUNKS
            invariant
                chunk_idx <= DISPLAY_NUM_CHUNKS,
                out@.len() == chunk_idx * DISPLAY_DATA_CHUNK_SIZE,
            decreases DISPLAY_NUM_CHUNKS - chunk_idx,
        {
            let mut data = self.read_io_map(
                MOD_DISPLAY,
                DISPLAY_DATA_OFFSET + chunk_idx * DISPLAY_DATA_CHUNK_SIZE,
                DISPLAY_DATA_CHUNK_SIZE,
            )?;
            if data.len() != DISPLAY_DATA_CHUNK_SIZE as usize {
                return Err(Error::Parse("Short IO map read"));
            }
            out.append(&mut data);
            chunk_idx = chunk_idx + 1;
        }
        Ok(out)
    }

    /// Retrieve the current battery level, in mV.
    pub fn get_battery_level(&mut self) -> (r: Result<u16, Error>) {
        let pkt = Packet::new(Opcode::DirectGetBattLevel);
        let mut recv = self.send_recv(&pkt)?;
        recv.check_status()?;
        recv.read_u16()
    }

    /// Read the protocol and firmware versions from the brick.
    pub fn get_firmware_version(&mut self) -> (r: Result<FwVersion, Error>) {
        let pkt = Packet::new(Opcode::SystemVersions);
        let mut recv = self.send_recv(&pkt)?;
        recv.check_status()?;
        FwVersion::read_from(&mut recv)
    }

    /// Start running the named program on the brick.
    pub fn start_program(&mut self, name: &str) -> (r: Result<(), Error>)
        ensures
            !(name.spec_bytes().len() + 1 <= FILENAME_LEN && name.is_ascii()) ==> (r matches Err(
                Error::Serialise(_),
            )),
    {
        let mut pkt = Packet::new(Opcode::DirectStartProgram);
        pkt.push_filename(name)?;
        self.send(&pkt, true)
    }

    /// Stop the running program, if any.
    pub fn stop_program(&mut self) -> (r: Result<(), Error>) {
        let pkt = Packet::new(Opcode::DirectStopProgram);
        self.send(&pkt, true)
    }

    /// Play the named sound file, optionally looping it.
    pub fn play_sound(&mut self, file: &str, loop_: bool) -> (r: Result<(), Error>)
        ensures
            !(file.spec_bytes().len() + 1 <= FILENAME_LEN && file.is_ascii()) ==> (r matches Err(
                Error::Serialise(_),
            )),
    {
        let mut pkt = Packet::new(Opcode::DirectPlaySoundFile);
        pkt.push_bool(loop_);
        pkt.push_filename(file)?;
        self.send(&pkt, true)
    }

    /// Play a tone of the given frequency for the given duration.
    pub fn play_tone(&mut self, freq: u16, duration_ms: u16) -> (r: Result<(), Error>) {
        let mut pkt = Packet::new(Opcode::DirectPlayTone);
        pkt.push_u16(freq);
        pkt.push_u16(duration_ms);
        self.send(&pkt, true)
    }

    /// Set the output state for the given individual or compound port.
    pub fn set_output_state(
        &mut self,
        port: OutPort,
        power: i8,
        mode: OutMode,
        regulation_mode: RegulationMode,
        turn_ratio: i8,
        run_state: RunState,
        tacho_limit: u32,
    ) -> (r: Result<(), Error>) {
        let mut pkt = Packet::new(Opcode::DirectSetOutState);
        pkt.push_u8(port.as_u8());
        pkt.push_i8(power);
        pkt.push_u8(mode.0);
        pkt.push_u8(regulation_mode.as_u8());
        pkt.push_i8(turn_ratio);
        pkt.push_u8(run_state.as_u8());
        pkt.push_u32(tacho_limit);
        self.send(&pkt, true)
    }

    /// Set the given input port to the specified sensor type and mode.
    pub fn set_input_mode(
        &mut self,
        port: InPort,
        sensor_type: SensorType,
        sensor_mode: SensorMode,
    ) -> (r: Result<(), Error>) {
        let mut pkt = Packet::new(Opcode::DirectSetInMode);
        pkt.push_u8(port.as_u8());
        pkt.push_u8(sensor_type.as_u8());
        pkt.push_u8(sensor_mode.as_u8());
        self.send(&pkt, true)
    }

    /// Retrieve the state of the given output port.  The brick rejects
    /// a compound port here with a device error.
    pub fn get_output_state(&mut self, port: OutPort) -> (r: Result<OutputState, Error>) {
        let mut pkt = Packet::new(Opcode::DirectGetOutState);
        pkt.push_u8(port.as_u8());
        let mut recv = self.send_recv(&pkt)?;
        recv.check_status()?;
        OutputState::read_from(&mut recv)
    }

    /// Retrieve the readings of the given input port.
    pub fn get_input_values(&mut self, port: InPort) -> (r: Result<InputValues, Error>) {
        let mut pkt = Packet::new(Opcode::DirectGetInVals);
        pkt.push_u8(port.as_u8());
        let mut recv = self.send_recv(&pkt)?;
        recv.check_status()?;
        InputValues::read_from(&mut recv)
    }

    /// Reset the scaled value of the given input port, e.g. clear its
    /// edge or pulse counter.
    pub fn reset_input_scaled_value(&mut self, port: InPort) -> (r: Result<(), Error>) {
        let mut pkt = Packet::new(Opcode::DirectResetInVal);
        pkt.push_u8(port.as_u8());
        self.send(&pkt, true)
    }

    /// Write a message to the given inbox on the brick.  Fails without
    /// sending when the inbox id or the message length is out of
    /// range.
    pub fn message_write(&mut self, inbox: u8, message: &[u8]) -> (r: Result<(), Error>)
        ensures
            inbox > MAX_INBOX_ID || message@.len() > MAX_MESSAGE_LEN ==> (r matches Err(
                Error::Serialise(_),
            )),
    {
        if inbox > MAX_INBOX_ID {
            return Err(Error::Serialise("Invalid mailbox ID"));
        }
        if message.len() > MAX_MESSAGE_LEN {
            return Err(Error::Serialise("Message too long (max 58 bytes)"));
        }
        let mut pkt = Packet::new(Opcode::DirectMessageWrite);
        pkt.push_u8(inbox);
        pkt.push_u8(message.len() as u8 + 1);
        pkt.push_slice(message);
        pkt.push_u8(0);
        self.send(&pkt, true)
    }

    /// Reset the motor position counter of the given individual port,
    /// relative to the last motor control block (`relative` true) or
    /// to the start of the last program (`relative` false).
    pub fn reset_motor_position(&mut self, port: OutPort, relative: bool) -> (r: Result<
        (),
        Error,
    >) {
        let mut pkt = Packet::new(Opcode::DirectResetPosition);
        pkt.push_u8(port.as_u8());
        pkt.push_bool(relative);
        self.send(&pkt, true)
    }

    /// Stop playing the current sound file, if any.
    pub fn stop_sound_playback(&mut self) -> (r: Result<(), Error>) {
        let pkt = Packet::new(Opcode::DirectStopSound);
        self.send(&pkt, true)
    }

    /// Reset the sleep timer and return the sleep timeout in
    /// milliseconds.
    pub fn keep_alive(&mut self) -> (r: Result<u32, Error>) {
        let pkt = Packet::new(Opcode::DirectKeepAlive);
        let mut recv = self.send_recv(&pkt)?;
        recv.check_status()?;
        recv.read_u32()
    }

    /// Retrieve the status of the given low-speed port.
    pub fn ls_get_status(&mut self, port: InPort) -> (r: Result<u8, Error>) {
        let mut pkt = Packet::new(Opcode::DirectLsGetStatus);
        pkt.push_u8(port.as_u8());
        let mut recv = self.send_recv(&pkt)?;
        recv.check_status()?;
        recv.read_u8()
    }

    /// Write the given data to the low-speed bus on the given port and
    /// ask for `rx_bytes` bytes in response.
    pub fn ls_write(&mut self, port: InPort, tx_data: &[u8], rx_bytes: u8) -> (r: Result<
        (),
        Error,
    >)
        ensures
            tx_data@.len() > MAX_MESSAGE_LEN ==> (r matches Err(Error::Serialise(_))),
    {
        if tx_data.len() > MAX_MESSAGE_LEN {
            return Err(Error::Serialise("Data too long"));
        }
        let mut pkt = Packet::new(Opcode::DirectLsWrite);
        pkt.push_u8(port.as_u8());
        pkt.push_u8(tx_data.len() as u8);
        pkt.push_u8(rx_bytes);
        pkt.push_slice(tx_data);
        self.send(&pkt, true)
    }

    /// Read the data waiting on the low-speed port.
    pub fn ls_read(&mut self, port: InPort) -> (r: Result<Vec<u8>, Error>)
        ensures
            r matches Ok(v) ==> v@.len() <= 255,
    {
        let mut pkt = Packet::new(Opcode::DirectLsRead);
        pkt.push_u8(port.as_u8());
        let mut recv = self.send_recv(&pkt)?;
        recv.check_status()?;
        let len = recv.read_u8()?;
        recv.read_slice(len as usize)
    }

    /// Get the name of the running program, or a no-active-program
    /// device error when none runs.
    pub fn get_current_program_name(&mut self) -> (r: Result<String, Error>) {
        let pkt = Packet::new(Opcode::DirectGetCurrProgram);
        let mut recv = self.send_recv(&pkt)?;
        recv.check_status()?;
        recv.read_filename()
    }

    /// Read a message from the given mailbox.
    pub fn message_read(&mut self, remote_inbox: u8, local_inbox: u8, remove: bool) -> (r: Result<
        Vec<u8>,
        Error,
    >)
        ensures
            r matches Ok(v) ==> v@.len() <= 255,
    {
        let mut pkt = Packet::new(Opcode::DirectMessageRead);
        pkt.push_u8(remote_inbox);
        pkt.push_u8(local_inbox);
        pkt.push_bool(remove);
        let mut recv = self.send_recv(&pkt)?;
        recv.check_status()?;
        let _local_inbox = recv.read_u8()?;
        let len = recv.read_u8()?;
        recv.read_slice(len as usize)
    }

    /// Open the named file for writing with the given length, and
    /// return its handle.
    pub fn file_open_write(&mut self, name: &str, len: u32) -> (r: Result<FileHandle, Error>)
        ensures
            !(name.spec_bytes().len() + 1 <= FILENAME_LEN && name.is_ascii()) ==> (r matches Err(
                Error::Serialise(_),
            )),
            r matches Ok(h) ==> h.len == len,
    {
        let mut pkt = Packet::new(Opcode::SystemOpenwrite);
        pkt.push_filename(name)?;
        pkt.push_u32(len);
        let mut recv = self.send_recv(&pkt)?;
        recv.check_status()?;
        let handle = recv.read_u8()?;
        Ok(FileHandle { handle, len })
    }

    /// Write the given data to an open file, returning how many bytes
    /// the brick reports written.  Data that would push the message
    /// past the hardware's maximum size fails before anything is sent.
    pub fn file_write(&mut self, handle: &FileHandle, data: &[u8]) -> (r: Result<u32, Error>)
        ensures
            data@.len() + 3 > MAX_PACKET_LEN ==> (r matches Err(Error::Serialise(_))),
    {
        let mut pkt = Packet::new(Opcode::SystemWrite);
        pkt.push_u8(handle.handle);
        pkt.push_slice(data);
        let mut recv = self.send_recv(&pkt)?;
        recv.check_status()?;
        let _handle = recv.read_u8()?;
        recv.read_u32()
    }

    /// Open the named file in write-data mode and return its handle.
    pub fn file_open_write_data(&mut self, name: &str, len: u32) -> (r: Result<FileHandle, Error>)
        ensures
            !(name.spec_bytes().len() + 1 <= FILENAME_LEN && name.is_ascii()) ==> (r matches Err(
                Error::Serialise(_),
            )),
            r matches Ok(h) ==> h.len == len,
    {
        let mut pkt = Packet::new(Opcode::SystemOpenwritedata);
        pkt.push_filename(name)?;
        pkt.push_u32(len);
        let mut recv = self.send_recv(&pkt)?;
        recv.check_status()?;
        let handle = recv.read_u8()?;
        Ok(FileHandle { handle, len })
    }

    /// Open the named file in append mode; the handle carries the
    /// available length the brick reports.
    pub fn file_open_append_data(&mut self, name: &str) -> (r: Result<FileHandle, Error>)
        ensures
            !(name.spec_bytes().len() + 1 <= FILENAME_LEN && name.is_ascii()) ==> (r matches Err(
                Error::Serialise(_),
            )),
    {
        let mut pkt = Packet::new(Opcode::SystemOpenappenddata);
        pkt.push_filename(name)?;
        let mut recv = self.send_recv(&pkt)?;
        recv.check_status()?;
        let handle = recv.read_u8()?;
        let len = recv.read_u32()?;
        Ok(FileHandle { handle, len })
    }

    /// Close the given file handle.
    pub fn file_close(&mut self, handle: &FileHandle) -> (r: Result<(), Error>) {
        let mut pkt = Packet::new(Opcode::SystemClose);
        pkt.push_u8(handle.handle);
        self.send(&pkt, true)
    }

    /// Open the named file for reading; the handle carries the file
    /// length the brick reports.
    pub fn file_open_read(&mut self, name: &str) -> (r: Result<FileHandle, Error>)
        ensures
            !(name.spec_bytes().len() + 1 <= FILENAME_LEN && name.is_ascii()) ==> (r matches Err(
                Error::Serialise(_),
            )),
    {
        let mut pkt = Packet::new(Opcode::SystemOpenread);
        pkt.push_filename(name)?;
        let mut recv = self.send_recv(&pkt)?;
        recv.check_status()?;
        let handle = recv.read_u8()?;
        let len = recv.read_u32()?;
        Ok(FileHandle { handle, len })
    }

    /// Read up to `len` bytes from an open file.
    pub fn file_read(&mut self, handle: &FileHandle, len: u32) -> (r: Result<Vec<u8>, Error>)
        ensures
            r matches Ok(v) ==> v@.len() <= 255,
    {
        let mut pkt = Packet::new(Opcode::SystemRead);
        pkt.push_u8(handle.handle);
        pkt.push_u32(len);
        let mut recv = self.send_recv(&pkt)?;
        recv.check_status()?;
        let _handle = recv.read_u8()?;
        let read_len = recv.read_u8()?;
        recv.read_slice(read_len as usize)
    }

    /// Delete the named file.
    pub fn file_delete(&mut self, name: &str) -> (r: Result<(), Error>)
        ensures
            !(name.spec_bytes().len() + 1 <= FILENAME_LEN && name.is_ascii()) ==> (r matches Err(
                Error::Serialise(_),
            )),
    {
        let mut pkt = Packet::new(Opcode::SystemDelete);
        pkt.push_filename(name)?;
        self.send(&pkt, true)
    }

    /// Start a filename search for the given pattern, returning the
    /// cursor's handle and the first match.  A device error is how the
    /// brick reports an empty result.
    pub fn file_find_first(&mut self, pattern: &str) -> (r: Result<FindFileHandle, Error>)
        ensures
            !(pattern.spec_bytes().len() + 1 <= FILENAME_LEN && pattern.is_ascii()) ==> (
            r matches Err(Error::Serialise(_))),
    {
        let mut pkt = Packet::new(Opcode::SystemFindfirst);
        pkt.push_filename(pattern)?;
        let mut recv = self.send_recv(&pkt)?;
        recv.check_status()?;
        FindFileHandle::read_from(&mut recv)
    }

    /// Step a filename search: hand in the latest handle, get the next
    /// match and a new handle that supersedes it.  The expected end of
    /// iteration is a device error from this call; the cursor is gone
    /// the moment that happens.
    pub fn file_find_next(&mut self, handle: &FindFileHandle) -> (r: Result<
        FindFileHandle,
        Error,
    >) {
        let mut pkt = Packet::new(Opcode::SystemFindnext);
        pkt.push_u8(handle.handle);
        let mut recv = self.send_recv(&pkt)?;
        recv.check_status()?;
        FindFileHandle::read_from(&mut recv)
    }

    /// Open the named file for linear reads; the firmware lists this
    /// as for internal use only.
    pub fn file_open_read_linear(&mut self, name: &str, len: u32) -> (r: Result<
        FileHandle,
        Error,
    >)
        ensures
            !(name.spec_bytes().len() + 1 <= FILENAME_LEN && name.is_ascii()) ==> (r matches Err(
                Error::Serialise(_),
            )),
            r matches Ok(h) ==> h.len == len,
    {
        let mut pkt = Packet::new(Opcode::SystemOpenreadlinear);
        pkt.push_filename(name)?;
        pkt.push_u32(len);
        let mut recv = self.send_recv(&pkt)?;
        recv.check_status()?;
        let handle = recv.read_u8()?;
        Ok(FileHandle { handle, len })
    }

    /// Open the named file for linear writes; the firmware lists this
    /// as for internal use only.
    pub fn file_open_write_linear(&mut self, name: &str, len: u32) -> (r: Result<
        FileHandle,
        Error,
    >)
        ensures
            !(name.spec_bytes().len() + 1 <= FILENAME_LEN && name.is_ascii()) ==> (r matches Err(
                Error::Serialise(_),
            )),
            r matches Ok(h) ==> h.len == len,
    {
        let mut pkt = Packet::new(Opcode::SystemOpenwritelinear);
        pkt.push_filename(name)?;
        pkt.push_u32(len);
        let mut recv = self.send_recv(&pkt)?;
        recv.check_status()?;
        let handle = recv.read_u8()?;
        Ok(FileHandle { handle, len })
    }

    /// Start a module search for the given pattern, returning the
    /// cursor's handle and the first match.
    pub fn module_find_first(&mut self, pattern: &str) -> (r: Result<ModuleHandle, Error>)
        ensures
            !(pattern.spec_bytes().len() + 1 <= FILENAME_LEN && pattern.is_ascii()) ==> (
            r matches Err(Error::Serialise(_))),
    {
        let mut pkt = Packet::new(Opcode::SystemFindfirstmodule);
        pkt.push_filename(pattern)?;
        let mut recv = self.send_recv(&pkt)?;
        recv.check_status()?;
        ModuleHandle::read_from(&mut recv)
    }

    /// Step a module search: hand in the latest handle, get the next
    /// match and a new handle that supersedes it.  The expected end of
    /// iteration is a device error from this call.
    pub fn module_find_next(&mut self, handle: &ModuleHandle) -> (r: Result<ModuleHandle, Error>) {
        let mut pkt = Packet::new(Opcode::SystemFindnextmodule);
        pkt.push_u8(handle.handle);
        let mut recv = self.send_recv(&pkt)?;
        recv.check_status()?;
        ModuleHandle::read_from(&mut recv)
    }

    /// Close the given module search handle.
    pub fn module_close(&mut self, handle: &ModuleHandle) -> (r: Result<(), Error>) {
        let mut pkt = Packet::new(Opcode::SystemClosemodhandle);
        pkt.push_u8(handle.handle);
        self.send(&pkt, true)
    }

    /// Read `count` bytes from the IO map of the given module at the
    /// given offset.
    pub fn read_io_map(&mut self, mod_id: u32, offset: u16, count: u16) -> (r: Result<
        Vec<u8>,
        Error,
    >)
        ensures
            r matches Ok(v) ==> v@.len() <= u16::MAX,
    {
        let mut pkt = Packet::new(Opcode::SystemIomapread);
        pkt.push_u32(mod_id);
        pkt.push_u16(offset);
        pkt.push_u16(count);
        let mut recv = self.send_recv(&pkt)?;
        recv.check_status()?;
        let _mod_id = recv.read_u32()?;
        let len = recv.read_u16()?;
        recv.read_slice(len as usize)
    }

    /// Write the given data into the IO map of the given module at the
    /// given offset, returning how many bytes the brick reports
    /// written.  Data too long for the length field fails first; data
    /// that would push the message past the hardware's maximum size
    /// fails before anything is sent.
    pub fn write_io_map(&mut self, mod_id: u32, offset: u16, data: &[u8]) -> (r: Result<
        u16,
        Error,
    >)
        ensures
            data@.len() > u16::MAX ==> (r matches Err(Error::IntOutOfRange)),
            data@.len() <= u16::MAX && data@.len() + 10 > MAX_PACKET_LEN ==> (r matches Err(
                Error::Serialise(_),
            )),
    {
        if data.len() > 0xFFFF {
            return Err(Error::IntOutOfRange);
        }
        let mut pkt = Packet::new(Opcode::SystemIomapwrite);
        pkt.push_u32(mod_id);
        pkt.push_u16(offset);
        pkt.push_u16(data.len() as u16);
        pkt.push_slice(data);
        let mut recv = self.send_recv(&pkt)?;
        recv.check_status()?;
        let _mod_id = recv.read_u32()?;
        recv.read_u16()
    }

    /// Enter firmware update mode.  This is not recoverable without
    /// loading new firmware, so it asks for explicit confirmation.
    pub fn boot(&mut self, sure: bool) -> (r: Result<Vec<u8>, Error>)
        ensures
            !sure ==> (r matches Err(Error::Serialise(_))),
            r matches Ok(v) ==> v@.len() == 4,
    {
        if !sure {
            return Err(Error::Serialise("Are you sure? This is not recoverable"));
        }
        let mut pkt = Packet::new(Opcode::SystemBootcmd);
        // The firmware's boot command wants the bytes of the exact
        // phrase "Let's dance: SAMBA" with a trailing NUL.
        let magic: [u8; 19] = [
            0x4C, 0x65, 0x74, 0x27, 0x73, 0x20, 0x64, 0x61, 0x6E, 0x63, 0x65, 0x3A, 0x20, 0x53,
            0x41, 0x4D, 0x42, 0x41, 0x00,
        ];
        pkt.push_slice(magic.as_slice());
        let mut recv = self.send_recv(&pkt)?;
        recv.check_status()?;
        recv.read_slice(4)
    }

    /// Set the brick's name to the given value.
    pub fn set_brick_name(&mut self, name: &str) -> (r: Result<(), Error>)
        ensures
            name.spec_bytes().len() + 1 > MAX_NAME_LEN ==> (r matches Err(Error::Serialise(_))),
    {
        let mut pkt = Packet::new(Opcode::SystemSetbrickname);
        pkt.push_str(name, MAX_NAME_LEN)?;
        self.send(&pkt, true)
    }

    /// Retrieve the Bluetooth address of the brick.
    pub fn get_bt_addr(&mut self) -> (r: Result<[u8; 6], Error>) {
        let pkt = Packet::new(Opcode::SystemBtgetaddr);
        let mut recv = self.send_recv(&pkt)?;
        recv.check_status()?;
        let addr = recv.read_slice(6)?;
        Ok([addr[0], addr[1], addr[2], addr[3], addr[4], addr[5]])
    }

    /// Retrieve general device information: the brick's name, its
    /// Bluetooth address, the signal strengths, and the free flash.
    pub fn get_device_info(&mut self) -> (r: Result<DeviceInfo, Error>) {
        let pkt = Packet::new(Opcode::SystemDeviceinfo);
        let mut recv = self.send_recv(&pkt)?;
        recv.check_status()?;
        DeviceInfo::read_from(&mut recv)
    }

    /// Delete the user flash storage.
    pub fn delete_user_flash(&mut self) -> (r: Result<(), Error>) {
        let pkt = Packet::new(Opcode::SystemDeleteuserflash);
        self.send(&pkt, true)
    }

    /// Ask the given poll buffer how long the waiting command is.
    pub fn poll_command_length(&mut self, buf: BufType) -> (r: Result<u8, Error>) {
        let mut pkt = Packet::new(Opcode::SystemPollcmdlen);
        pkt.push_u8(buf.as_u8());
        let mut recv = self.send_recv(&pkt)?;
        recv.check_status()?;
        let _buf_num = recv.read_u8()?;
        recv.read_u8()
    }

    /// Poll the given buffer for a waiting command of up to `len`
    /// bytes.
    pub fn poll_command(&mut self, buf: BufType, len: u8) -> (r: Result<Vec<u8>, Error>)
        ensures
            r matches Ok(v) ==> v@.len() <= 255,
    {
        let mut pkt = Packet::new(Opcode::SystemPollcmd);
        pkt.push_u8(buf.as_u8());
        pkt.push_u8(len);
        let mut recv = self.send_recv(&pkt)?;
        recv.check_status()?;
        let _buf = recv.read_u8()?;
        let got = recv.read_u8()?;
        recv.read_slice(got as usize)
    }

    /// Factory-reset the brick's Bluetooth module.
    pub fn bluetooth_factory_reset(&mut self) -> (r: Result<(), Error>) {
        let pkt = Packet::new(Opcode::SystemBtfactoryreset);
        self.send(&pkt, true)
    }
}

} // verus!
