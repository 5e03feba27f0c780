//! Packet layer of a Feetech STS servo bus driver (Dynamixel protocol 1 framing),
//! with the decisions of a request/reply exchange, verified with Verus.
pub mod commands;
pub mod instructions;
pub mod kinematics;
pub mod memory_location;
pub mod packet_handler;
pub mod packets;
pub mod utils;

pub use commands::{IntoInstructionPacket, ReadCommand, WriteCommand};
pub use kinematics::Bravo7InvKinematics;
