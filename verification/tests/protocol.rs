use nxt::error::{ErrWrap, Error};
use nxt::protocol::{DeviceError, Opcode, Packet, PacketType};

// gen_test_vectors.py
const BATT_LEVEL: &[u8] = &[0, 11];
const BRICK_NAME: &[u8] = &[1, 152, 116, 101, 115, 116, 0, 0, 0, 0, 0, 0, 0, 0, 0, 0, 0];

#[test]
fn push_filename_adds_20_bytes() {
    let mut pkt = Packet::new(Opcode::DirectStartProgram);
    assert!(pkt.data.is_empty());
    pkt.push_filename("a_file").unwrap();
    assert_eq!(pkt.data.len(), 20);
    assert_eq!(pkt.data, b"a_file\0\0\0\0\0\0\0\0\0\0\0\0\0\0");

    // try some invalid names
    pkt.push_filename("01234abcde01234abcde").unwrap_err();
    pkt.push_filename("01234abcde01234abcde0").unwrap_err();
}

#[test]
fn protocol_push_filename_adds_20_bytes() {
    let mut pkt = Packet::new(Opcode::DirectStartProgram);
    assert!(pkt.data.is_empty());
    pkt.push_filename("a_file").unwrap();
    assert_eq!(pkt.data.len(), 20);
    assert_eq!(pkt.data, b"a_file\0\0\0\0\0\0\0\0\0\0\0\0\0\0");

    // try some invalid names
    pkt.push_filename("01234abcde01234abcde").unwrap_err();
    pkt.push_filename("01234abcde01234abcde0").unwrap_err();
}

#[test]
fn batt_level() {
    let pkt = Packet::new(Opcode::DirectGetBattLevel);
    let ser = pkt.serialise().unwrap();
    assert_eq!(ser, BATT_LEVEL);
    let de = Packet::parse(BATT_LEVEL).unwrap();
    assert_eq!(de, pkt);
}

#[test]
fn brick_name() {
    let mut pkt = Packet::new(Opcode::SystemSetbrickname);
    pkt.push_str("test", 15).unwrap();
    let ser = pkt.serialise().unwrap();
    assert_eq!(ser, BRICK_NAME);
    let de = Packet::parse(BRICK_NAME).unwrap();
    assert_eq!(de, pkt);
}

#[test]
fn brick_name_payload_decodes_back() {
    let mut pkt = Packet::new(Opcode::SystemSetbrickname);
    pkt.push_str("test", 15).unwrap();
    assert_eq!(pkt.data.len(), 15);
    assert_eq!(pkt.data, b"test\0\0\0\0\0\0\0\0\0\0\0");

    let mut de = Packet::parse(BRICK_NAME).unwrap();
    assert_eq!(de.read_string(15).unwrap(), "test");
}

#[test]
fn push_filename_rejects_non_ascii() {
    let mut pkt = Packet::new(Opcode::DirectStartProgram);
    let err = pkt.push_filename("caf\u{e9}").unwrap_err();
    assert!(matches!(err, Error::Serialise(_)));
    assert!(pkt.data.is_empty());
}

#[test]
fn opcode_class_follows_high_bit() {
    assert!(!Opcode::DirectUpdateResetCount.is_system()); // 0x21
    assert!(!Opcode::DirectGetBattLevel.is_system()); // 0x0B
    assert!(Opcode::SystemOpenread.is_system()); // 0x80
    assert!(Opcode::SystemSeekFromEnd.is_system()); // 0xD3
    // The bytes next to the class boundary at 0x80 carry no direct
    // command: 0x7F is outside the closed set, 0x80 is a system call.
    assert!(matches!(Opcode::try_from_u8(0x7F), Err(Error::Parse(_))));
    assert_eq!(Opcode::try_from_u8(0x80).unwrap(), Opcode::SystemOpenread);
    assert_eq!(Opcode::try_from_u8(0x21).unwrap(), Opcode::DirectUpdateResetCount);
}

#[test]
fn status_decode_named_and_unassigned() {
    // 0x00 is success
    let ok = DeviceError::try_from_u8(0x00).unwrap();
    assert_eq!(ok, DeviceError::Success);
    assert!(ok.error().is_ok());

    // 0x87 is the file-not-found condition
    let nf = DeviceError::try_from_u8(0x87).unwrap();
    assert_eq!(nf, DeviceError::FileNotFound);
    assert!(matches!(nf.error(), Err(Error::Device(DeviceError::FileNotFound))));

    // 0x99 is unassigned: a parse failure, not a named device error
    assert!(matches!(DeviceError::try_from_u8(0x99), Err(Error::Parse(_))));
}

#[test]
fn status_messages_name_the_condition() {
    assert_eq!(DeviceError::FileNotFound.message(), "file not found");
    assert_eq!(DeviceError::QueueEmpty.message(), "specified mailbox queue is empty");
    assert_eq!(DeviceError::Success.message(), "None");
}

#[test]
fn check_status_consumes_and_classifies() {
    let mut ok = Packet::parse(&[0x02, 0x0B, 0x00, 0x0B, 0x00]).unwrap();
    ok.check_status().unwrap();
    assert_eq!(ok.read_u16().unwrap(), 11);

    let mut bad = Packet::parse(&[0x02, 0x86, 0x87]).unwrap();
    assert!(matches!(bad.check_status(), Err(Error::Device(DeviceError::FileNotFound))));

    let mut unassigned = Packet::parse(&[0x02, 0x86, 0x99]).unwrap();
    assert!(matches!(unassigned.check_status(), Err(Error::Parse(_))));
}

#[test]
fn parse_validates_both_header_bytes() {
    assert!(matches!(Packet::parse(&[]), Err(Error::Parse(_))));
    assert!(matches!(Packet::parse(&[0x02]), Err(Error::Parse(_))));
    assert!(matches!(Packet::parse(&[0x03, 0x0B]), Err(Error::Parse(_))));
    assert!(matches!(Packet::parse(&[0x02, 0x7F]), Err(Error::Parse(_))));
    let p = Packet::parse(&[0x81, 0x98, 0x01]).unwrap();
    assert_eq!(p.typ, PacketType::SystemReplyNotRequired);
    assert_eq!(p.opcode, Opcode::SystemSetbrickname);
}

#[test]
fn serialise_rejects_oversize_packet() {
    let mut pkt = Packet::new(Opcode::DirectMessageWrite);
    pkt.push_slice(&[0u8; 62]);
    assert!(pkt.serialise().is_ok());
    pkt.push_u8(0);
    assert!(matches!(pkt.serialise(), Err(Error::Serialise(_))));
}

#[test]
fn integer_fields_are_little_endian() {
    let mut pkt = Packet::new(Opcode::DirectPlayTone);
    pkt.push_u16(0x1234);
    pkt.push_u32(0xDEADBEEF);
    pkt.push_i8(-2);
    pkt.push_bool(true);
    assert_eq!(pkt.data, [0x34, 0x12, 0xEF, 0xBE, 0xAD, 0xDE, 0xFE, 0x01]);

    let mut de = Packet::parse(&[0x02, 0x03, 0x34, 0x12, 0xEF, 0xBE, 0xAD, 0xDE, 0xFE, 0x01])
        .unwrap();
    assert_eq!(de.read_u16().unwrap(), 0x1234);
    assert_eq!(de.read_u32().unwrap(), 0xDEADBEEF);
    assert_eq!(de.read_i8().unwrap(), -2);
    assert!(de.read_bool().unwrap());
    assert!(matches!(de.read_u8(), Err(Error::Parse(_))));
}

#[test]
fn signed_reads_take_twos_complement() {
    let mut de = Packet::parse(&[0x02, 0x06, 0xFF, 0xFF, 0xFF, 0xFF, 0xFF, 0xFF]).unwrap();
    assert_eq!(de.read_i16().unwrap(), -1);
    assert_eq!(de.read_i32().unwrap(), -1);
    let mut de2 = Packet::parse(&[0x02, 0x06, 0x00, 0x80, 0x00, 0x00, 0x00, 0x80]).unwrap();
    assert_eq!(de2.read_i16().unwrap(), i16::MIN);
    assert_eq!(de2.read_i32().unwrap(), i32::MIN);
}

#[test]
fn read_filename_strips_only_trailing_padding() {
    let mut bytes = vec![0x02, 0x11];
    bytes.extend_from_slice(b"prog.rxe\0\0\0\0\0\0\0\0\0\0\0\0");
    let mut de = Packet::parse(&bytes).unwrap();
    assert_eq!(de.read_filename().unwrap(), "prog.rxe");

    // too few bytes for the fixed-width field: nothing is consumed
    let mut short = Packet::parse(&[0x02, 0x11, 0x61, 0x62]).unwrap();
    assert!(matches!(short.read_filename(), Err(Error::Parse(_))));
    assert_eq!(short.read_u8().unwrap(), 0x61);
}

#[test]
fn read_filename_decodes_utf8() {
    // "é" encoded in UTF-8 inside the fixed-width field
    let mut bytes = vec![0x02, 0x11, 0xC3, 0xA9];
    bytes.extend_from_slice(&[0u8; 18]);
    let mut de = Packet::parse(&bytes).unwrap();
    assert_eq!(de.read_filename().unwrap(), "\u{e9}");

    // an invalid UTF-8 byte is a distinct failure
    let mut bad = vec![0x02, 0x11, 0xFF, 0x61];
    bad.extend_from_slice(&[0u8; 18]);
    let mut de2 = Packet::parse(&bad).unwrap();
    assert!(matches!(de2.read_filename(), Err(Error::InvalidString)));
}

#[test]
fn read_string_strips_all_trailing_nuls() {
    let mut bytes = vec![0x02, 0x9B];
    bytes.extend_from_slice(b"ab\0cd\0\0\0");
    let mut de = Packet::parse(&bytes).unwrap();
    // interior NUL bytes stay; only the trailing run is stripped
    assert_eq!(de.read_string(8).unwrap(), "ab\0cd");
}

#[test]
fn read_slice_is_all_or_nothing() {
    let mut de = Packet::parse(&[0x02, 0x10, 1, 2, 3]).unwrap();
    assert!(matches!(de.read_slice(4), Err(Error::Parse(_))));
    assert_eq!(de.read_slice(3).unwrap(), vec![1, 2, 3]);
}

#[test]
fn err_wrap_converts_options() {
    assert_eq!(Some(7).wrap().unwrap(), 7);
    assert!(matches!(None::<u8>.wrap(), Err(Error::Parse(_))));
}

#[test]
fn multi_byte_read_keeps_consumed_prefix_on_failure() {
    // one byte short of a u16: the available byte stays consumed
    let mut de = Packet::parse(&[0x02, 0x0B, 0x07]).unwrap();
    assert!(matches!(de.read_u16(), Err(Error::Parse(_))));
    assert!(matches!(de.read_u8(), Err(Error::Parse(_))));
}
