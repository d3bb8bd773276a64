use std::cell::Cell;
use std::rc::Rc;

use nxt::error::Error;
use nxt::protocol::DeviceError;
use nxt::transport::{frame_message, parse_length_prefix};
use nxt::{Nxt, Socket};

/// A transport whose replies follow a fixed script.
struct ScriptSocket {
    replies: Vec<Vec<u8>>,
    next_reply: Rc<Cell<usize>>,
    sends: Rc<Cell<usize>>,
    /// How many bytes `send` claims to have moved, relative to the
    /// message length (0 = everything).
    short_by: usize,
}

impl ScriptSocket {
    fn new(replies: Vec<Vec<u8>>) -> ScriptSocket {
        ScriptSocket {
            replies,
            next_reply: Rc::new(Cell::new(0)),
            sends: Rc::new(Cell::new(0)),
            short_by: 0,
        }
    }
}

impl Socket for ScriptSocket {
    fn send(&mut self, data: &[u8]) -> Result<usize, Error> {
        self.sends.set(self.sends.get() + 1);
        Ok(data.len() - self.short_by)
    }

    fn recv(&mut self) -> Result<Vec<u8>, Error> {
        let idx = self.next_reply.get();
        self.next_reply.set(idx + 1);
        Ok(self.replies[idx].clone())
    }
}

/// A get-device-info reply naming the brick "test".
fn device_info_reply() -> Vec<u8> {
    let mut bytes = vec![0x02, 0x9B, 0x00];
    bytes.extend_from_slice(b"test\0\0\0\0\0\0\0\0\0\0\0");
    bytes.extend_from_slice(&[0x00, 0x16, 0x53, 0x01, 0x02, 0x03]);
    bytes.push(0x00);
    bytes.extend_from_slice(&[1, 2, 3, 4]);
    bytes.extend_from_slice(&[0x00, 0x04, 0x01, 0x00]);
    bytes
}

/// A find-first or find-next reply carrying one match.
fn find_reply(opcode: u8, handle: u8, name: &str, len: u32) -> Vec<u8> {
    let mut bytes = vec![0x02, opcode, 0x00, handle];
    let mut field = name.as_bytes().to_vec();
    field.resize(20, 0);
    bytes.extend_from_slice(&field);
    bytes.extend_from_slice(&len.to_le_bytes());
    bytes
}

#[test]
fn init_reads_the_brick_name() {
    let socket = ScriptSocket::new(vec![device_info_reply()]);
    let nxt = Nxt::init(socket).unwrap();
    assert_eq!(nxt.name(), "test");
}

#[test]
fn battery_level_exchange() {
    let socket = ScriptSocket::new(vec![
        device_info_reply(),
        vec![0x02, 0x0B, 0x00, 0x0B, 0x00],
    ]);
    let mut nxt = Nxt::init(socket).unwrap();
    assert_eq!(nxt.get_battery_level().unwrap(), 11);
}

#[test]
fn mismatched_reply_opcode_always_fails() {
    // the reply is well-formed, with success status and a payload,
    // but carries the keep-alive opcode instead of battery-level
    let socket = ScriptSocket::new(vec![
        device_info_reply(),
        vec![0x02, 0x0D, 0x00, 0x0B, 0x00],
    ]);
    let mut nxt = Nxt::init(socket).unwrap();
    assert!(matches!(nxt.get_battery_level(), Err(Error::ReplyMismatch)));
}

#[test]
fn mismatched_reply_opcode_beats_its_status_byte() {
    // correlation comes before status: a mismatched reply is the
    // opcode-mismatch condition even when it carries an error status
    let socket = ScriptSocket::new(vec![
        device_info_reply(),
        vec![0x02, 0x0D, 0x87],
    ]);
    let mut nxt = Nxt::init(socket).unwrap();
    assert!(matches!(nxt.get_battery_level(), Err(Error::ReplyMismatch)));
}

#[test]
fn short_write_is_a_write_failure() {
    let mut socket = ScriptSocket::new(vec![device_info_reply()]);
    socket.short_by = 1;
    assert!(matches!(Nxt::init(socket), Err(Error::Write)));
}

#[test]
fn find_next_iteration_ends_on_the_first_device_error() {
    // a directory with three entries: find-first matches the first,
    // each find-next the following one, and one more find-next ends
    // the iteration with a device error
    let socket = ScriptSocket::new(vec![
        device_info_reply(),
        find_reply(0x86, 0, "a.rxe", 10),
        find_reply(0x87, 1, "b.rxe", 20),
        find_reply(0x87, 2, "c.rxe", 30),
        vec![0x02, 0x87, 0x83], // no more files
    ]);
    let sends = Rc::clone(&socket.sends);
    let consumed = Rc::clone(&socket.next_reply);
    let mut nxt = Nxt::init(socket).unwrap();

    let mut names = Vec::new();
    let mut cur = nxt.file_find_first("*.*").unwrap();
    let terminal = loop {
        names.push(cur.name.clone());
        match nxt.file_find_next(&cur) {
            Ok(next) => cur = next,
            Err(e) => break e,
        }
    };
    assert_eq!(names, ["a.rxe", "b.rxe", "c.rxe"]);
    assert!(matches!(terminal, Error::Device(DeviceError::NoMoreFiles)));
    // the client stops at the terminal error: every scripted reply is
    // consumed and no further request goes out
    assert_eq!(consumed.get(), 5);
    assert_eq!(sends.get(), 5);
}

#[test]
fn message_write_validates_its_inputs() {
    let socket = ScriptSocket::new(vec![
        device_info_reply(),
        vec![0x02, 0x09, 0x00], // success reply for the message at the bound
    ]);
    let sends = Rc::clone(&socket.sends);
    let mut nxt = Nxt::init(socket).unwrap();
    assert!(matches!(nxt.message_write(20, b"hi"), Err(Error::Serialise(_))));
    assert!(matches!(nxt.message_write(0, &[0u8; 59]), Err(Error::Serialise(_))));
    // nothing was sent for either rejected call
    assert_eq!(sends.get(), 1);
    // the largest allowed message and inbox id go through
    nxt.message_write(19, &[0u8; 58]).unwrap();
    assert_eq!(sends.get(), 2);
}

#[test]
fn file_write_rejects_oversize_data_before_sending() {
    let socket = ScriptSocket::new(vec![device_info_reply()]);
    let sends = Rc::clone(&socket.sends);
    let mut nxt = Nxt::init(socket).unwrap();
    let handle = nxt::system::FileHandle { handle: 1, len: 100 };
    // 62 data bytes plus the handle byte and the two header bytes
    // exceed the 64-byte maximum message
    assert!(matches!(nxt.file_write(&handle, &[0u8; 62]), Err(Error::Serialise(_))));
    assert_eq!(sends.get(), 1);
}

#[test]
fn write_io_map_rejects_oversize_data_before_sending() {
    let socket = ScriptSocket::new(vec![device_info_reply()]);
    let sends = Rc::clone(&socket.sends);
    let mut nxt = Nxt::init(socket).unwrap();
    // too long for the 16-bit length field
    assert!(matches!(nxt.write_io_map(1, 0, &vec![0u8; 0x10000]), Err(Error::IntOutOfRange)));
    // fits the length field but not the 64-byte maximum message
    assert!(matches!(nxt.write_io_map(1, 0, &[0u8; 55]), Err(Error::Serialise(_))));
    assert_eq!(sends.get(), 1);
}

#[test]
fn boot_asks_for_confirmation() {
    let socket = ScriptSocket::new(vec![device_info_reply()]);
    let mut nxt = Nxt::init(socket).unwrap();
    assert!(matches!(nxt.boot(false), Err(Error::Serialise(_))));
}

#[test]
fn set_brick_name_enforces_the_bound() {
    let socket = ScriptSocket::new(vec![
        device_info_reply(),
        vec![0x02, 0x98, 0x00],
    ]);
    let mut nxt = Nxt::init(socket).unwrap();
    assert!(matches!(nxt.set_brick_name("fifteen__chars_"), Err(Error::Serialise(_))));
    nxt.set_brick_name("fourteen_chars").unwrap();
}

#[test]
fn stream_frame_carries_length_prefix() {
    let framed = frame_message(&[1, 2, 3]).unwrap();
    assert_eq!(framed, [3, 0, 1, 2, 3]);
    let empty = frame_message(&[]).unwrap();
    assert_eq!(empty, [0, 0]);
    let oversize = vec![0u8; 0x10000];
    assert!(matches!(frame_message(&oversize), Err(Error::IntOutOfRange)));
}

#[test]
fn stream_prefix_is_checked_against_capacity() {
    assert_eq!(parse_length_prefix(3, 0, 64).unwrap(), 3);
    assert_eq!(parse_length_prefix(0x40, 0x00, 64).unwrap(), 64);
    assert!(matches!(parse_length_prefix(0x41, 0x00, 64), Err(Error::Parse(_))));
    assert!(matches!(parse_length_prefix(0x00, 0x01, 64), Err(Error::Parse(_))));
}
