//! Types for the sensor (input port) commands.

use vstd::prelude::*;
use crate::error::Error;
use crate::protocol::Packet;
use crate::wire::{le16, i16_of};

verus! {

/// The four input ports.
#[derive(Copy, Clone, Debug, Hash, PartialEq, Eq, Structural)]
#[allow(missing_docs)]
pub enum InPort {
    S1,
    S2,
    S3,
    S4,
}

impl InPort {
    /// The byte that carries this input port on the wire.
    pub open spec fn value(self) -> u8 {
        match self {
            InPort::S1 => 0,
            InPort::S2 => 1,
            InPort::S3 => 2,
            InPort::S4 => 3,
        }
    }

    /// The byte that carries this input port on the wire.
    pub fn as_u8(self) -> (r: u8)
        ensures
            r == self.value(),
    {
        match self {
            InPort::S1 => 0,
            InPort::S2 => 1,
            InPort::S3 => 2,
            InPort::S4 => 3,
        }
    }

    /// The input port carried by the given byte, or a parse failure
    /// for a byte outside the table.
    pub fn try_from_u8(code: u8) -> (r: Result<InPort, Error>)
        ensures
            r is Ok <==> code <= 3,
            match r {
                Ok(p) => p.value() == code,
                Err(e) => e matches Error::Parse(_),
            },
    {
        match code {
            0 => Ok(InPort::S1),
            1 => Ok(InPort::S2),
            2 => Ok(InPort::S3),
            3 => Ok(InPort::S4),
            _ => Err(Error::Parse("Invalid InPort")),
        }
    }
}

/// Supported sensor types.
#[derive(Copy, Clone, Debug, PartialEq, Eq, Structural)]
#[allow(missing_docs)]
pub enum SensorType {
    NoSensor,
    Switch,
    Temperature,
    /// RCX light sensor.
    Reflection,
    /// RCX rotation sensor.
    Angle,
    /// NXT light sensor with its LED on.
    LightActive,
    /// NXT light sensor with its LED off.
    LightInactive,
    SoundDb,
    SoundDba,
    Custom,
    LowSpeed,
    LowSpeed9v,
    HighSpeed,
    ColourFull,
    ColourRed,
    ColourGreen,
    ColourBlue,
    ColourNone,
    /// Listed by the firmware for internal use only.
    ColourExit,
}

impl Default for SensorType {
    /// The wire protocol's default is no sensor attached.
    fn default() -> (r: SensorType)
        ensures
            r == SensorType::NoSensor,
    {
        SensorType::NoSensor
    }
}

impl SensorType {
    /// The byte that carries this sensor type on the wire.
    pub open spec fn value(self) -> u8 {
        match self {
            SensorType::NoSensor => 0,
            SensorType::Switch => 1,
            SensorType::Temperature => 2,
            SensorType::Reflection => 3,
            SensorType::Angle => 4,
            SensorType::LightActive => 5,
            SensorType::LightInactive => 6,
            SensorType::SoundDb => 7,
            SensorType::SoundDba => 8,
            SensorType::Custom => 9,
            SensorType::LowSpeed => 10,
            SensorType::LowSpeed9v => 11,
            SensorType::HighSpeed => 12,
            SensorType::ColourFull => 13,
            SensorType::ColourRed => 14,
            SensorType::ColourGreen => 15,
            SensorType::ColourBlue => 16,
            SensorType::ColourNone => 17,
            SensorType::ColourExit => 18,
        }
    }

    /// The byte that carries this sensor type on the wire.
    pub fn as_u8(self) -> (r: u8)
        ensures
            r == self.value(),
    {
        match self {
            SensorType::NoSensor => 0,
            SensorType::Switch => 1,
            SensorType::Temperature => 2,
            SensorType::Reflection => 3,
            SensorType::Angle => 4,
            SensorType::LightActive => 5,
            SensorType::LightInactive => 6,
            SensorType::SoundDb => 7,
            SensorType::SoundDba => 8,
            SensorType::Custom => 9,
            SensorType::LowSpeed => 10,
            SensorType::LowSpeed9v => 11,
            SensorType::HighSpeed => 12,
            SensorType::ColourFull => 13,
            SensorType::ColourRed => 14,
            SensorType::ColourGreen => 15,
            SensorType::ColourBlue => 16,
            SensorType::ColourNone => 17,
            SensorType::ColourExit => 18,
        }
    }

    /// The sensor type carried by the given byte, or a parse failure
    /// for a byte outside the table.
    pub fn try_from_u8(code: u8) -> (r: Result<SensorType, Error>)
        ensures
            r is Ok <==> code <= 18,
            match r {
                Ok(t) => t.value() == code,
                Err(e) => e matches Error::Parse(_),
            },
    {
        match code {
            0 => Ok(SensorType::NoSensor),
            1 => Ok(SensorType::Switch),
            2 => Ok(SensorType::Temperature),
            3 => Ok(SensorType::Reflection),
            4 => Ok(SensorType::Angle),
            5 => Ok(SensorType::LightActive),
            6 => Ok(SensorType::LightInactive),
            7 => Ok(SensorType::SoundDb),
            8 => Ok(SensorType::SoundDba),
            9 => Ok(SensorType::Custom),
            10 => Ok(SensorType::LowSpeed),
            11 => Ok(SensorType::LowSpeed9v),
            12 => Ok(SensorType::HighSpeed),
            13 => Ok(SensorType::ColourFull),
            14 => Ok(SensorType::ColourRed),
            15 => Ok(SensorType::ColourGreen),
            16 => Ok(SensorType::ColourBlue),
            17 => Ok(SensorType::ColourNone),
            18 => Ok(SensorType::ColourExit),
            _ => Err(Error::Parse("Invalid SensorType")),
        }
    }
}

/// Supported sensor modes.
#[derive(Copy, Clone, Debug, PartialEq, Eq, Structural)]
#[allow(missing_docs)]
pub enum SensorMode {
    Raw,
    Bool,
    /// Count both rising and falling edges; the sensor reset command
    /// clears the counter.
    Edge,
    /// Count only falling edges; the sensor reset command clears the
    /// counter.
    Pulse,
    Percent,
    Celsius,
    Farenheight,
    /// RCX rotation sensor.
    Rotation,
}

impl Default for SensorMode {
    /// The wire protocol's default mode is the raw reading.
    fn default() -> (r: SensorMode)
        ensures
            r == SensorMode::Raw,
    {
        SensorMode::Raw
    }
}

/// Whether the byte carries a member of the sensor-mode table.
pub open spec fn is_sensor_mode_value(v: u8) -> bool {
    v % 0x20 == 0 && v <= 0xE0
}

impl SensorMode {
    /// The byte that carries this sensor mode on the wire.
    pub open spec fn value(self) -> u8 {
        match self {
            SensorMode::Raw => 0x00,
            SensorMode::Bool => 0x20,
            SensorMode::Edge => 0x40,
            SensorMode::Pulse => 0x60,
            SensorMode::Percent => 0x80,
            SensorMode::Celsius => 0xA0,
            SensorMode::Farenheight => 0xC0,
            SensorMode::Rotation => 0xE0,
        }
    }

    /// The byte that carries this sensor mode on the wire.
    pub fn as_u8(self) -> (r: u8)
        ensures
            r == self.value(),
    {
        match self {
            SensorMode::Raw => 0x00,
            SensorMode::Bool => 0x20,
            SensorMode::Edge => 0x40,
            SensorMode::Pulse => 0x60,
            SensorMode::Percent => 0x80,
            SensorMode::Celsius => 0xA0,
            SensorMode::Farenheight => 0xC0,
            SensorMode::Rotation => 0xE0,
        }
    }

    /// The sensor mode carried by the given byte, or a parse failure
    /// for a byte outside the table.
    pub fn try_from_u8(code: u8) -> (r: Result<SensorMode, Error>)
        ensures
            r is Ok <==> is_sensor_mode_value(code),
            match r {
                Ok(m) => m.value() == code,
                Err(e) => e matches Error::Parse(_),
            },
    {
        match code {
            0x00 => Ok(SensorMode::Raw),
            0x20 => Ok(SensorMode::Bool),
            0x40 => Ok(SensorMode::Edge),
            0x60 => Ok(SensorMode::Pulse),
            0x80 => Ok(SensorMode::Percent),
            0xA0 => Ok(SensorMode::Celsius),
            0xC0 => Ok(SensorMode::Farenheight),
            0xE0 => Ok(SensorMode::Rotation),
            _ => Err(Error::Parse("Invalid SensorMode")),
        }
    }
}

/// What the get-input-values command reports.
#[derive(Copy, Clone, Debug, PartialEq, Eq, Structural)]
#[allow(missing_docs)]
pub struct InputValues {
    pub port: InPort,
    /// False when the sensor has not been read since its mode last
    /// changed; true otherwise.
    pub valid: bool,
    /// Not used by the firmware; always false.
    pub calibrated: bool,
    pub sensor_type: SensorType,
    pub sensor_mode: SensorMode,
    pub raw_value: u16,
    pub normalised_value: u16,
    /// Where the mode-dependent reading stands, e.g. the switch
    /// boolean or the pulse counter.
    pub scaled_value: i16,
    pub calibrated_value: i16,
}

impl InputValues {
    /// Decode a get-input-values reply payload at the packet's cursor:
    /// port, the two flags, sensor type and mode, then the four 16-bit
    /// readings, 13 bytes in all.
    pub fn read_from(recv: &mut Packet) -> (r: Result<InputValues, Error>)
        requires
            old(recv).wf(),
        ensures
            final(recv).wf(),
            old(recv).same_buffer(*final(recv)),
            ({
                let b = old(recv).remaining();
                &&& (r is Ok <==> b.len() >= 13 && b[0] <= 3 && b[3] <= 18 && is_sensor_mode_value(
                    b[4],
                ))
                &&& match r {
                    Ok(iv) => {
                        &&& iv.port.value() == b[0]
                        &&& iv.valid == (b[1] != 0)
                        &&& iv.calibrated == (b[2] != 0)
                        &&& iv.sensor_type.value() == b[3]
                        &&& iv.sensor_mode.value() == b[4]
                        &&& iv.raw_value == le16(b[5], b[6])
                        &&& iv.normalised_value == le16(b[7], b[8])
                        &&& iv.scaled_value as int == i16_of(le16(b[9], b[10]))
                        &&& iv.calibrated_value as int == i16_of(le16(b[11], b[12]))
                        &&& final(recv).data_offset == old(recv).data_offset + 13
                    },
                    Err(e) => e matches Error::Parse(_),
                }
            }),
    {
        let port_b = recv.read_u8()?;
        let port = InPort::try_from_u8(port_b)?;
        let valid = recv.read_bool()?;
        let calibrated = recv.read_bool()?;
        let sensor_type_b = recv.read_u8()?;
        let sensor_type = SensorType::try_from_u8(sensor_type_b)?;
        let sensor_mode_b = recv.read_u8()?;
        let sensor_mode = SensorMode::try_from_u8(sensor_mode_b)?;
        let raw_value = recv.read_u16()?;
        let normalised_value = recv.read_u16()?;
        let scaled_value = recv.read_i16()?;
        let calibrated_value = recv.read_i16()?;
        Ok(InputValues {
            port,
            valid,
            calibrated,
            sensor_type,
            sensor_mode,
            raw_value,
            normalised_value,
            scaled_value,
            calibrated_value,
        })
    }
}

} // verus!
