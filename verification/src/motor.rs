//! Types for the motor (output port) commands.

use vstd::prelude::*;
use crate::error::Error;
use crate::protocol::Packet;
use crate::wire::{le32, i8_of_byte, i32_of};

verus! {

/// Setting the tacho limit to this value makes the motor run until
/// further instruction.
pub const RUN_FOREVER: u32 = 0;

/// Supported output ports and port combinations.  Some commands accept
/// any combination shorthand, while some only accept individual ports.
#[derive(Copy, Clone, Debug, Hash, PartialEq, Eq, Structural)]
#[allow(missing_docs)]
pub enum OutPort {
    A,
    B,
    C,
    AB,
    AC,
    BC,
    ABC,
    /// Protocol-defined shorthand for all ports.
    All,
}

/// Whether the byte carries a member of the output-port table.
pub open spec fn is_out_port_value(v: u8) -> bool {
    v <= 6 || v == 0xFF
}

impl OutPort {
    /// The byte that carries this port selection on the wire.
    pub open spec fn value(self) -> u8 {
        match self {
            OutPort::A => 0,
            OutPort::B => 1,
            OutPort::C => 2,
            OutPort::AB => 3,
            OutPort::AC => 4,
            OutPort::BC => 5,
            OutPort::ABC => 6,
            OutPort::All => 0xFF,
        }
    }

    /// The byte that carries this port selection on the wire.
    pub fn as_u8(self) -> (r: u8)
        ensures
            r == self.value(),
    {
        match self {
            OutPort::A => 0,
            OutPort::B => 1,
            OutPort::C => 2,
            OutPort::AB => 3,
            OutPort::AC => 4,
            OutPort::BC => 5,
            OutPort::ABC => 6,
            OutPort::All => 0xFF,
        }
    }

    /// The port selection carried by the given byte, or a parse
    /// failure for a byte outside the table.
    pub fn try_from_u8(code: u8) -> (r: Result<OutPort, Error>)
        ensures
            r is Ok <==> is_out_port_value(code),
            match r {
                Ok(p) => p.value() == code,
                Err(e) => e matches Error::Parse(_),
            },
    {
        match code {
            0 => Ok(OutPort::A),
            1 => Ok(OutPort::B),
            2 => Ok(OutPort::C),
            3 => Ok(OutPort::AB),
            4 => Ok(OutPort::AC),
            5 => Ok(OutPort::BC),
            6 => Ok(OutPort::ABC),
            0xFF => Ok(OutPort::All),
            _ => Err(Error::Parse("Invalid OutPort")),
        }
    }
}

/// Bit flags for output mode settings, combined with [`OutMode::or`].
#[derive(Copy, Clone, Debug, PartialEq, Eq, Structural)]
pub struct OutMode(pub u8);

impl OutMode {
    /// Idle: do not turn the motor.
    pub fn idle() -> (r: OutMode)
        ensures
            r.0 == 0x00,
    {
        OutMode(0x00)
    }

    /// On: send power to the motor.
    pub fn on() -> (r: OutMode)
        ensures
            r.0 == 0x01,
    {
        OutMode(0x01)
    }

    /// When power is zero, brake the motor rather than letting it
    /// coast.
    pub fn brake() -> (r: OutMode)
        ensures
            r.0 == 0x02,
    {
        OutMode(0x02)
    }

    /// Regulate the power to hold a constant angular velocity, or keep
    /// two motors synchronised (see [`RegulationMode`]).
    pub fn regulated() -> (r: OutMode)
        ensures
            r.0 == 0x04,
    {
        OutMode(0x04)
    }

    /// The union of two sets of mode flags.
    pub fn or(self, other: OutMode) -> (r: OutMode)
        ensures
            r.0 == self.0 | other.0,
    {
        OutMode(self.0 | other.0)
    }
}

impl vstd::std_specs::convert::FromSpecImpl<u8> for OutMode {
    open spec fn obeys_from_spec() -> bool {
        true
    }

    open spec fn from_spec(code: u8) -> OutMode {
        OutMode(code)
    }
}

impl From<u8> for OutMode {
    /// Every byte is a meaningful set of mode flags.
    fn from(code: u8) -> (r: OutMode) {
        OutMode(code)
    }
}

/// What kind of regulation to perform on the motor power.
#[derive(Copy, Clone, Debug, PartialEq, Eq, Structural)]
pub enum RegulationMode {
    /// Do not regulate the power, just send the commanded amount.
    Idle,
    /// Adjust the power to hold a constant angular velocity.
    Speed,
    /// Keep two motors synchronised.
    Sync,
}

impl Default for RegulationMode {
    /// The wire protocol's default regulation is none at all.
    fn default() -> (r: RegulationMode)
        ensures
            r == RegulationMode::Idle,
    {
        RegulationMode::Idle
    }
}

impl RegulationMode {
    /// The byte that carries this regulation mode on the wire.
    pub open spec fn value(self) -> u8 {
        match self {
            RegulationMode::Idle => 0,
            RegulationMode::Speed => 1,
            RegulationMode::Sync => 2,
        }
    }

    /// The byte that carries this regulation mode on the wire.
    pub fn as_u8(self) -> (r: u8)
        ensures
            r == self.value(),
    {
        match self {
            RegulationMode::Idle => 0,
            RegulationMode::Speed => 1,
            RegulationMode::Sync => 2,
        }
    }

    /// The regulation mode carried by the given byte, or a parse
    /// failure for a byte outside the table.
    pub fn try_from_u8(code: u8) -> (r: Result<RegulationMode, Error>)
        ensures
            r is Ok <==> code <= 2,
            match r {
                Ok(m) => m.value() == code,
                Err(e) => e matches Error::Parse(_),
            },
    {
        match code {
            0 => Ok(RegulationMode::Idle),
            1 => Ok(RegulationMode::Speed),
            2 => Ok(RegulationMode::Sync),
            _ => Err(Error::Parse("Invalid RegulationMode")),
        }
    }
}

/// Whether the motor is running or changing its speed.
#[derive(Copy, Clone, Debug, PartialEq, Eq, Structural)]
pub enum RunState {
    /// Do not run the motor.
    Idle,
    /// Gradually increase the power.
    RampUp,
    /// Run the motor at the commanded power.
    Running,
    /// Gradually slow the motor down.
    RampDown,
}

/// Whether the byte carries a member of the run-state table.
pub open spec fn is_run_state_value(v: u8) -> bool {
    v == 0x00 || v == 0x10 || v == 0x20 || v == 0x40
}

impl RunState {
    /// The byte that carries this run state on the wire.
    pub open spec fn value(self) -> u8 {
        match self {
            RunState::Idle => 0x00,
            RunState::RampUp => 0x10,
            RunState::Running => 0x20,
            RunState::RampDown => 0x40,
        }
    }

    /// The byte that carries this run state on the wire.
    pub fn as_u8(self) -> (r: u8)
        ensures
            r == self.value(),
    {
        match self {
            RunState::Idle => 0x00,
            RunState::RampUp => 0x10,
            RunState::Running => 0x20,
            RunState::RampDown => 0x40,
        }
    }

    /// The run state carried by the given byte, or a parse failure for
    /// a byte outside the table.
    pub fn try_from_u8(code: u8) -> (r: Result<RunState, Error>)
        ensures
            r is Ok <==> is_run_state_value(code),
            match r {
                Ok(s) => s.value() == code,
                Err(e) => e matches Error::Parse(_),
            },
    {
        match code {
            0x00 => Ok(RunState::Idle),
            0x10 => Ok(RunState::RampUp),
            0x20 => Ok(RunState::Running),
            0x40 => Ok(RunState::RampDown),
            _ => Err(Error::Parse("Invalid RunState")),
        }
    }
}

/// What the get-output-state command reports: the commanded
/// configuration and the rotation counters.
#[derive(Copy, Clone, Debug, PartialEq, Eq, Structural)]
#[allow(missing_docs)]
pub struct OutputState {
    pub port: OutPort,
    pub power: i8,
    pub mode: OutMode,
    pub regulation_mode: RegulationMode,
    pub turn_ratio: i8,
    pub run_state: RunState,
    pub tacho_limit: u32,
    pub tacho_count: i32,
    pub block_tacho_count: i32,
    pub rotation_count: i32,
}

impl OutputState {
    /// Decode a get-output-state reply payload at the packet's cursor:
    /// port, power, mode, regulation, turn ratio, run state, then the
    /// four 32-bit counters, 22 bytes in all.
    pub fn read_from(recv: &mut Packet) -> (r: Result<OutputState, Error>)
        requires
            old(recv).wf(),
        ensures
            final(recv).wf(),
            old(recv).same_buffer(*final(recv)),
            ({
                let b = old(recv).remaining();
                &&& (r is Ok <==> b.len() >= 22 && is_out_port_value(b[0]) && b[3] <= 2
                    && is_run_state_value(b[5]))
                &&& match r {
                    Ok(st) => {
                        &&& st.port.value() == b[0]
                        &&& st.power as int == i8_of_byte(b[1])
                        &&& st.mode.0 == b[2]
                        &&& st.regulation_mode.value() == b[3]
                        &&& st.turn_ratio as int == i8_of_byte(b[4])
                        &&& st.run_state.value() == b[5]
                        &&& st.tacho_limit == le32(b[6], b[7], b[8], b[9])
                        &&& st.tacho_count as int == i32_of(le32(b[10], b[11], b[12], b[13]))
                        &&& st.block_tacho_count as int == i32_of(
                            le32(b[14], b[15], b[16], b[17]),
                        )
                        &&& st.rotation_count as int == i32_of(le32(b[18], b[19], b[20], b[21]))
                        &&& final(recv).data_offset == old(recv).data_offset + 22
                    },
                    Err(e) => e matches Error::Parse(_),
                }
            }),
    {
        let port_b = recv.read_u8()?;
        let port = OutPort::try_from_u8(port_b)?;
        let power = recv.read_i8()?;
        let mode_b = recv.read_u8()?;
        let mode = OutMode::from(mode_b);
        let regulation_b = recv.read_u8()?;
        let regulation_mode = RegulationMode::try_from_u8(regulation_b)?;
        let turn_ratio = recv.read_i8()?;
        let run_state_b = recv.read_u8()?;
        let run_state = RunState::try_from_u8(run_state_b)?;
        let tacho_limit = recv.read_u32()?;
        let tacho_count = recv.read_i32()?;
        let block_tacho_count = recv.read_i32()?;
        let rotation_count = recv.read_i32()?;
        Ok(OutputState {
            port,
            power,
            mode,
            regulation_mode,
            turn_ratio,
            run_state,
            tacho_limit,
            tacho_count,
            block_tacho_count,
            rotation_count,
        })
    }
}

} // verus!
