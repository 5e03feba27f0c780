use vstd::prelude::*;

verus! {

/// A value to store in the control table of a servo.
#[derive(Clone, Copy, Debug, PartialEq, Eq, Structural)]
pub enum MemoryValue {
    U16(u16),
    U8(u8),
    Bool(bool),
}

/// A field of the control table: its first address and its size in bytes.
#[derive(Clone, Copy, Debug, PartialEq, Eq, Structural)]
pub struct MemoryLocation {
    pub addr: u8,
    pub size: u8,
}

/// The number of bytes that a value takes in the control table.
pub open spec fn value_size(value: MemoryValue) -> u8 {
    match value {
        MemoryValue::U16(_) => 2,
        MemoryValue::U8(_) => 1,
        MemoryValue::Bool(_) => 1,
    }
}

/// Acceleration (one byte).
pub fn acceleration() -> (loc: MemoryLocation)
    ensures
        loc == (MemoryLocation { addr: 0x29, size: 1 }),
{
    MemoryLocation { addr: 0x29, size: 1 }
}

/// Present position (two bytes).
pub fn current_position() -> (loc: MemoryLocation)
    ensures
        loc == (MemoryLocation { addr: 0x38, size: 2 }),
{
    MemoryLocation { addr: 0x38, size: 2 }
}

/// Servo id (one byte).
pub fn id() -> (loc: MemoryLocation)
    ensures
        loc == (MemoryLocation { addr: 0x05, size: 1 }),
{
    MemoryLocation { addr: 0x05, size: 1 }
}

/// Goal position (two bytes).
pub fn target_position() -> (loc: MemoryLocation)
    ensures
        loc == (MemoryLocation { addr: 0x2A, size: 2 }),
{
    MemoryLocation { addr: 0x2A, size: 2 }
}

/// Present temperature (one byte).
pub fn temperature() -> (loc: MemoryLocation)
    ensures
        loc == (MemoryLocation { addr: 0x3F, size: 1 }),
{
    MemoryLocation { addr: 0x3F, size: 1 }
}

/// Torque enable (one byte).
pub fn torque_switch() -> (loc: MemoryLocation)
    ensures
        loc == (MemoryLocation { addr: 0x28, size: 1 }),
{
    MemoryLocation { addr: 0x28, size: 1 }
}

} // verus!
