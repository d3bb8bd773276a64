use nxt::error::Error;
use nxt::motor::{OutPort, OutputState, RegulationMode, RunState};
use nxt::protocol::Packet;
use nxt::sensor::{InPort, InputValues, SensorMode, SensorType};
use nxt::system::{DeviceInfo, FindFileHandle, FwVersion, ModuleHandle};

fn reply(opcode: u8, payload: &[u8]) -> Packet {
    let mut bytes = vec![0x02, opcode, 0x00];
    bytes.extend_from_slice(payload);
    let mut pkt = Packet::parse(&bytes).unwrap();
    pkt.check_status().unwrap();
    pkt
}

#[test]
fn output_state_reply_decodes_fields() {
    let payload = [
        0x01, // port B
        0x9C, // power -100
        0x07, // mode flags on|brake|regulated
        0x01, // regulation: speed
        0x32, // turn ratio 50
        0x20, // run state: running
        0x10, 0x27, 0x00, 0x00, // tacho limit 10000
        0xFF, 0xFF, 0xFF, 0xFF, // tacho count -1
        0x2A, 0x00, 0x00, 0x00, // block tacho count 42
        0xF6, 0xFF, 0xFF, 0xFF, // rotation count -10
    ];
    let mut pkt = reply(0x06, &payload);
    let st = OutputState::read_from(&mut pkt).unwrap();
    assert_eq!(st.port, OutPort::B);
    assert_eq!(st.power, -100);
    assert_eq!(st.mode.0, 0x07);
    assert_eq!(st.regulation_mode, RegulationMode::Speed);
    assert_eq!(st.turn_ratio, 50);
    assert_eq!(st.run_state, RunState::Running);
    assert_eq!(st.tacho_limit, 10000);
    assert_eq!(st.tacho_count, -1);
    assert_eq!(st.block_tacho_count, 42);
    assert_eq!(st.rotation_count, -10);
}

#[test]
fn output_state_reply_rejects_bad_run_state() {
    let payload = [
        0x01, 0x00, 0x00, 0x01, 0x00, 0x33, // 0x33 is no run state
        0, 0, 0, 0, 0, 0, 0, 0, 0, 0, 0, 0, 0, 0, 0, 0,
    ];
    let mut pkt = reply(0x06, &payload);
    assert!(matches!(OutputState::read_from(&mut pkt), Err(Error::Parse(_))));
}

#[test]
fn input_values_reply_decodes_fields() {
    // header>> port valid calib type mode raw>> norm>> scaled>> calib>>
    let payload = [0x00, 0x01, 0x00, 0x01, 0x20, 0xFF, 0x03, 0xFF, 0x03, 0x01, 0x00, 0xFF, 0x03];
    let mut pkt = reply(0x07, &payload);
    let iv = InputValues::read_from(&mut pkt).unwrap();
    assert_eq!(iv.port, InPort::S1);
    assert!(iv.valid);
    assert!(!iv.calibrated);
    assert_eq!(iv.sensor_type, SensorType::Switch);
    assert_eq!(iv.sensor_mode, SensorMode::Bool);
    assert_eq!(iv.raw_value, 0x03FF);
    assert_eq!(iv.normalised_value, 0x03FF);
    assert_eq!(iv.scaled_value, 1);
    assert_eq!(iv.calibrated_value, 0x03FF);
}

#[test]
fn fw_version_reply_swaps_minor_and_major() {
    let mut pkt = reply(0x88, &[0x7C, 0x01, 0x1F, 0x01]);
    let v = FwVersion::read_from(&mut pkt).unwrap();
    assert_eq!(v.prot, (1, 124));
    assert_eq!(v.fw, (1, 31));
}

#[test]
fn device_info_reply_decodes_fields() {
    let mut payload = Vec::new();
    payload.extend_from_slice(b"NXT\0\0\0\0\0\0\0\0\0\0\0\0"); // name, 15 bytes
    payload.extend_from_slice(&[0x00, 0x16, 0x53, 0x01, 0x02, 0x03]); // bt address
    payload.push(0x00); // unused
    payload.extend_from_slice(&[7, 8, 9, 10]); // signal strength
    payload.extend_from_slice(&[0x00, 0x04, 0x01, 0x00]); // flash 66560
    let mut pkt = reply(0x9B, &payload);
    let info = DeviceInfo::read_from(&mut pkt).unwrap();
    assert_eq!(info.name, "NXT");
    assert_eq!(info.bt_addr, [0x00, 0x16, 0x53, 0x01, 0x02, 0x03]);
    assert_eq!(info.signal_strength, (7, 8, 9, 10));
    assert_eq!(info.flash, 0x00010400);
}

#[test]
fn find_file_reply_decodes_fields() {
    let mut payload = vec![0x01]; // handle
    payload.extend_from_slice(b"a.rxe\0\0\0\0\0\0\0\0\0\0\0\0\0\0\0");
    payload.extend_from_slice(&[0x40, 0x01, 0x00, 0x00]); // len 320
    let mut pkt = reply(0x86, &payload);
    let h = FindFileHandle::read_from(&mut pkt).unwrap();
    assert_eq!(h.handle, 1);
    assert_eq!(h.name, "a.rxe");
    assert_eq!(h.len, 320);
}

#[test]
fn module_reply_decodes_fields() {
    let mut payload = vec![0x02]; // handle
    payload.extend_from_slice(b"Display.mod\0\0\0\0\0\0\0\0\0");
    payload.extend_from_slice(&[0x01, 0x00, 0x0A, 0x00]); // module id 0xA0001
    payload.extend_from_slice(&[0x08, 0x00, 0x00, 0x00]); // module size 8
    payload.extend_from_slice(&[0xF4, 0x00]); // iomap size 244
    let mut pkt = reply(0x90, &payload);
    let h = ModuleHandle::read_from(&mut pkt).unwrap();
    assert_eq!(h.handle, 2);
    assert_eq!(h.name, "Display.mod");
    assert_eq!(h.id, 0x000A0001);
    assert_eq!(h.len, 8);
    assert_eq!(h.iomap_len, 244);
}

#[test]
fn truncated_reply_is_a_parse_failure() {
    let mut pkt = reply(0x88, &[0x7C, 0x01]);
    assert!(matches!(FwVersion::read_from(&mut pkt), Err(Error::Parse(_))));
}
