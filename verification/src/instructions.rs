use vstd::prelude::*;

verus! {

/// The instructions of the protocol that this driver sends.
#[derive(Clone, Copy, Debug, PartialEq, Eq, Structural)]
pub enum Instruction {
    /// Asks whether a device with the given id exists.
    Ping,
    /// Reads bytes of the control table.
    Read,
    /// Writes bytes of the control table, executed at once.
    Write,
}

/// The instruction byte on the wire.
pub open spec fn instruction_code(instruction: Instruction) -> u8 {
    match instruction {
        Instruction::Ping => 1,
        Instruction::Read => 2,
        Instruction::Write => 3,
    }
}

impl From<Instruction> for u8 {
    fn from(value: Instruction) -> (code: u8) {
        match value {
            Instruction::Ping => 1,
            Instruction::Read => 2,
            Instruction::Write => 3,
        }
    }
}

impl vstd::std_specs::convert::FromSpecImpl<Instruction> for u8 {
    open spec fn obeys_from_spec() -> bool {
        true
    }

    open spec fn from_spec(value: Instruction) -> u8 {
        instruction_code(value)
    }
}

} // verus!
