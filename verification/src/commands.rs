use vstd::prelude::*;

use crate::instructions::{instruction_code, Instruction};
use crate::memory_location::{
    acceleration, current_position, id, target_position, temperature, torque_switch, MemoryLocation,
    MemoryValue,
};
use crate::packets::{instruction_view, value_bytes, InstructionPacket};

verus! {

/// A command that becomes the instruction packet sent to one servo.
pub trait IntoInstructionPacket {
    fn to_instruction_packet(&self, motor_id: u8) -> InstructionPacket;
}

/// The fields of the control table that the driver reads.
#[derive(Clone, Copy, Debug, PartialEq, Eq, Structural)]
pub enum ReadCommand {
    Acceleration,
    Id,
    CurrentPosition,
    Temperature,
}

/// The control-table field that a read command reads.
pub open spec fn read_location(command: ReadCommand) -> MemoryLocation {
    match command {
        ReadCommand::Acceleration => MemoryLocation { addr: 0x29, size: 1 },
        ReadCommand::Id => MemoryLocation { addr: 0x05, size: 1 },
        ReadCommand::CurrentPosition => MemoryLocation { addr: 0x38, size: 2 },
        ReadCommand::Temperature => MemoryLocation { addr: 0x3F, size: 1 },
    }
}

/// The packet of every read command fits the longest packet that is sent.
pub proof fn lemma_read_packets_fit(motor_id: u8, command: ReadCommand)
    ensures
        instruction_view(
            motor_id,
            instruction_code(Instruction::Read),
            seq![read_location(command).addr, read_location(command).size],
        ).length + 4 <= crate::packet_handler::MAX_PACKET_LENGTH,
{
}

impl IntoInstructionPacket for ReadCommand {
    /// The read packet for the command's field of servo `motor_id`.
    fn to_instruction_packet(&self, motor_id: u8) -> (packet: InstructionPacket)
        ensures
            packet@ == instruction_view(
                motor_id,
                instruction_code(Instruction::Read),
                seq![read_location(*self).addr, read_location(*self).size],
            ),
    {
        match self {
            ReadCommand::Id => InstructionPacket::read_from_memory_location(motor_id, id()),
            ReadCommand::CurrentPosition => {
                InstructionPacket::read_from_memory_location(motor_id, current_position())
            },
            ReadCommand::Temperature => {
                InstructionPacket::read_from_memory_location(motor_id, temperature())
            },
            ReadCommand::Acceleration => {
                InstructionPacket::read_from_memory_location(motor_id, acceleration())
            },
        }
    }
}

/// The fields of the control table that the driver writes, with the value to write.
#[derive(Clone, Copy, Debug, PartialEq, Eq, Structural)]
pub enum WriteCommand {
    TargetPosition(u16),
    TorqueSwitch(bool),
}

/// The control-table field that a write command writes.
pub open spec fn write_location(command: WriteCommand) -> MemoryLocation {
    match command {
        WriteCommand::TargetPosition(_) => MemoryLocation { addr: 0x2A, size: 2 },
        WriteCommand::TorqueSwitch(_) => MemoryLocation { addr: 0x28, size: 1 },
    }
}

/// The value that a write command writes.
pub open spec fn write_value(command: WriteCommand) -> MemoryValue {
    match command {
        WriteCommand::TargetPosition(v) => MemoryValue::U16(v),
        WriteCommand::TorqueSwitch(b) => MemoryValue::Bool(b),
    }
}

/// A write command's packet carries the command's own value: the goal position
/// whole, low byte first at 0x2A (so that it reads back as that very position), and
/// the torque flag at 0x28 as 1 for on and 0 for off.
pub proof fn lemma_write_packets_carry_their_value(motor_id: u8, command: WriteCommand)
    ensures
        ({
            let p = instruction_view(
                motor_id,
                instruction_code(Instruction::Write),
                seq![write_location(command).addr] + value_bytes(write_value(command)),
            );
            &&& p.id == motor_id
            &&& p.code == 3
            &&& match command {
                WriteCommand::TargetPosition(v) => {
                    &&& p.params == seq![0x2Au8, (v % 256) as u8, (v / 256) as u8]
                    &&& crate::packets::extracted_value(p.params.subrange(1, 3)) == v
                },
                WriteCommand::TorqueSwitch(b) => {
                    &&& p.params == seq![0x28u8, if b { 1u8 } else { 0u8 }]
                    &&& p.params[1] != 0 <==> b
                },
            }
        }),
{
    let p = instruction_view(
        motor_id,
        instruction_code(Instruction::Write),
        seq![write_location(command).addr] + value_bytes(write_value(command)),
    );
    match command {
        WriteCommand::TargetPosition(v) => {
            assert(p.params =~= seq![0x2Au8, (v % 256) as u8, (v / 256) as u8]);
            assert(p.params.subrange(1, 3) =~= seq![(v % 256) as u8, (v / 256) as u8]);
            assert((v % 256) + 256 * (v / 256) == v);
        },
        WriteCommand::TorqueSwitch(b) => {
            assert(p.params =~= seq![0x28u8, if b { 1u8 } else { 0u8 }]);
        },
    }
}

/// Torque on and torque off are different packets.
pub proof fn lemma_torque_packets_differ(motor_id: u8)
    ensures
        instruction_view(
            motor_id,
            instruction_code(Instruction::Write),
            seq![write_location(WriteCommand::TorqueSwitch(true)).addr] + value_bytes(
                write_value(WriteCommand::TorqueSwitch(true)),
            ),
        ) != instruction_view(
            motor_id,
            instruction_code(Instruction::Write),
            seq![write_location(WriteCommand::TorqueSwitch(false)).addr] + value_bytes(
                write_value(WriteCommand::TorqueSwitch(false)),
            ),
        ),
{
    lemma_write_packets_carry_their_value(motor_id, WriteCommand::TorqueSwitch(true));
    lemma_write_packets_carry_their_value(motor_id, WriteCommand::TorqueSwitch(false));
    let a = instruction_view(
        motor_id,
        instruction_code(Instruction::Write),
        seq![write_location(WriteCommand::TorqueSwitch(true)).addr] + value_bytes(
            write_value(WriteCommand::TorqueSwitch(true)),
        ),
    );
    assert(a.params[1] == 1u8);
}

impl IntoInstructionPacket for WriteCommand {
    /// The write packet for the command's field and value, to servo `motor_id`.
    fn to_instruction_packet(&self, motor_id: u8) -> (packet: InstructionPacket)
        ensures
            packet@ == instruction_view(
                motor_id,
                instruction_code(Instruction::Write),
                seq![write_location(*self).addr] + value_bytes(write_value(*self)),
            ),
            packet@.code == 3,
            match *self {
                WriteCommand::TargetPosition(v) => packet@.params == seq![
                    0x2Au8,
                    (v % 256) as u8,
                    (v / 256) as u8,
                ],
                WriteCommand::TorqueSwitch(b) => packet@.params == seq![
                    0x28u8,
                    if b {
                        1u8
                    } else {
                        0u8
                    },
                ],
            },
    {
        match self {
            WriteCommand::TargetPosition(v) => InstructionPacket::write_to_memory_location(
                motor_id,
                target_position(),
                MemoryValue::U16(*v),
            ),
            WriteCommand::TorqueSwitch(b) => InstructionPacket::write_to_memory_location(
                motor_id,
                torque_switch(),
                MemoryValue::Bool(*b),
            ),
        }
    }
}

} // verus!
