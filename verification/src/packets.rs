use vstd::prelude::*;

use crate::instructions::{instruction_code, Instruction};
use crate::memory_location::{value_size, MemoryLocation, MemoryValue};
use crate::utils::{checksum_of, compute_checksum};

verus! {

/// What a packet holds, as the wire presents it: `FF FF id length code params.. checksum`.
/// `code` is the instruction of an instruction packet and the error byte of a status packet.
#[verifier::ext_equal]
pub struct PacketView {
    pub id: u8,
    pub length: u8,
    pub code: u8,
    pub params: Seq<u8>,
    pub checksum: u8,
}

/// The bytes of a packet on the wire.
pub open spec fn frame_bytes(v: PacketView) -> Seq<u8> {
    seq![0xFFu8, 0xFFu8, v.id, v.length, v.code] + v.params + seq![v.checksum]
}

/// The length byte for `n` parameters: the count of parameters plus two, as a byte.
pub open spec fn length_byte(n: nat) -> u8 {
    ((n + 2) % 256) as u8
}

/// A packet whose length byte and checksum agree with its other fields.
pub open spec fn is_well_formed(v: PacketView) -> bool {
    &&& v.length == length_byte(v.params.len())
    &&& v.checksum == checksum_of(v.id, v.length, v.code, v.params)
}

/// The instruction packet that carries `code` and `params` to servo `id`.
pub open spec fn instruction_view(id: u8, code: u8, params: Seq<u8>) -> PacketView {
    PacketView {
        id,
        length: length_byte(params.len()),
        code,
        params,
        checksum: checksum_of(id, length_byte(params.len()), code, params),
    }
}

/// The bytes that a value takes in the control table, low byte first.
pub open spec fn value_bytes(value: MemoryValue) -> Seq<u8> {
    match value {
        MemoryValue::U16(v) => seq![(v % 256) as u8, (v / 256) as u8],
        MemoryValue::U8(v) => seq![v],
        MemoryValue::Bool(b) => seq![if b { 1u8 } else { 0u8 }],
    }
}

/// A value as the number that the control table holds.
pub open spec fn value_number(value: MemoryValue) -> u16 {
    match value {
        MemoryValue::U16(v) => v,
        MemoryValue::U8(v) => v as u16,
        MemoryValue::Bool(b) => if b { 1u16 } else { 0u16 },
    }
}

/// The data that a status packet with these parameters carries: one byte,
/// or two bytes low byte first, and 0 for any other count.
pub open spec fn extracted_value(params: Seq<u8>) -> u16 {
    if params.len() == 1 {
        params[0] as u16
    } else if params.len() == 2 {
        (params[0] + 256 * params[1]) as u16
    } else {
        0
    }
}

/// For a well-formed packet with fewer than 254 parameters, the total length that
/// `get_total_packet_length` reports is the number of bytes of its frame.
pub proof fn lemma_total_length_is_frame_length(v: PacketView)
    requires
        is_well_formed(v),
        v.params.len() <= 253,
    ensures
        frame_bytes(v).len() == v.length + 4,
{
}

/// Every packet that `InstructionPacket::new` describes is well formed.
pub proof fn lemma_instruction_view_well_formed(id: u8, code: u8, params: Seq<u8>)
    ensures
        is_well_formed(instruction_view(id, code, params)),
{
}

/// A value written to the control table, once read back as the data of a reply that
/// carries its bytes, is the number that was written.
pub proof fn lemma_written_value_reads_back(value: MemoryValue)
    ensures
        extracted_value(value_bytes(value)) == value_number(value),
{
    match value {
        MemoryValue::U16(v) => {
            assert((v % 256) + 256 * (v / 256) == v);
        },
        _ => {},
    }
}

/// A vector holding the bytes of `src`.
pub(crate) fn copy_bytes(src: &[u8]) -> (out: Vec<u8>)
    ensures
        out@ == src@,
{
    let mut out: Vec<u8> = Vec::new();
    let n: usize = src.len();
    let mut i: usize = 0;
    while i < n
        invariant
            n == src@.len(),
            i <= n,
            out@ == src@.take(i as int),
        decreases n - i,
    {
        out.push(src[i]);
        i = i + 1;
        proof {
            assert(out@ =~= src@.take(i as int));
        }
    }
    proof {
        assert(src@.take(n as int) =~= src@);
    }
    out
}

/// A reply of a servo.
#[derive(Debug)]
pub struct StatusPacket {
    id: u8,
    length: u8,
    error: u8,
    params: Vec<u8>,
    checksum: u8,
}

impl View for StatusPacket {
    type V = PacketView;

    closed spec fn view(&self) -> PacketView {
        PacketView {
            id: self.id,
            length: self.length,
            code: self.error,
            params: self.params@,
            checksum: self.checksum,
        }
    }
}

impl StatusPacket {
    /// Builds a status packet from the parts of a received frame. The header must be
    /// `FF FF` and the checksum must match the other fields.
    pub fn new(header: &[u8], id: u8, length: u8, error: u8, params: &[u8], checksum: u8) -> (packet:
        Self)
        requires
            header@ == seq![0xFFu8, 0xFFu8],
            checksum == checksum_of(id, length, error, params@),
        ensures
            packet@ == (PacketView { id, length, code: error, params: params@, checksum }),
    {
        StatusPacket { id, length, error, params: copy_bytes(params), checksum }
    }

    /// The data of the reply: the single parameter byte, or the two parameter bytes
    /// read little endian, and 0 for any other number of parameters.
    pub fn extract_data(&self) -> (data: u16)
        ensures
            data == extracted_value(self@.params),
    {
        let n: usize = self.params.len();
        if n == 1 {
            self.params[0] as u16
        } else if n == 2 {
            (self.params[0] as u16) + (self.params[1] as u16) * 256
        } else {
            0u16
        }
    }

    pub fn id(&self) -> (id: u8)
        ensures
            id == self@.id,
    {
        self.id
    }

    pub fn length(&self) -> (length: u8)
        ensures
            length == self@.length,
    {
        self.length
    }

    pub fn error(&self) -> (error: u8)
        ensures
            error == self@.code,
    {
        self.error
    }

    pub fn checksum(&self) -> (checksum: u8)
        ensures
            checksum == self@.checksum,
    {
        self.checksum
    }
}

/// A request to a servo.
#[derive(Debug, PartialEq)]
pub struct InstructionPacket {
    pub id: u8,
    length: u8,
    instruction: u8,
    parameters: Vec<u8>,
    checksum: u8,
}

impl View for InstructionPacket {
    type V = PacketView;

    closed spec fn view(&self) -> PacketView {
        PacketView {
            id: self.id,
            length: self.length,
            code: self.instruction,
            params: self.parameters@,
            checksum: self.checksum,
        }
    }
}

impl InstructionPacket {
    /// The packet that sends `instruction` with `parameters` to servo `id`; its length byte
    /// is the number of parameters plus two (as a byte) and its checksum is computed.
    pub fn new(id: u8, instruction: Instruction, parameters: &[u8]) -> (packet: Self)
        ensures
            packet@ == instruction_view(id, instruction_code(instruction), parameters@),
    {
        let n: usize = parameters.len();
        let length: u8 = ((n % 256 + 2) % 256) as u8;
        proof {
            vstd::arithmetic::div_mod::lemma_add_mod_noop(n as int, 2, 256);
            assert(length == length_byte(parameters@.len()));
        }
        let instruction: u8 = u8::from(instruction);
        InstructionPacket {
            id,
            length,
            instruction,
            checksum: compute_checksum(id, length, instruction, parameters),
            parameters: copy_bytes(parameters),
        }
    }

    /// The packet that reads `memory_location.size` bytes at `memory_location.addr` of servo `id`.
    pub fn read_from_memory_location(id: u8, memory_location: MemoryLocation) -> (packet: Self)
        ensures
            packet@ == instruction_view(
                id,
                instruction_code(Instruction::Read),
                seq![memory_location.addr, memory_location.size],
            ),
    {
        let params: [u8; 2] = [memory_location.addr, memory_location.size];
        let packet = Self::new(id, Instruction::Read, &params);
        proof {
            assert(params@ =~= seq![memory_location.addr, memory_location.size]);
        }
        packet
    }

    /// The packet that writes `value` at `memory_location.addr` of servo `id`, low byte first.
    /// The size of the location must be that of the value.
    pub fn write_to_memory_location(id: u8, memory_location: MemoryLocation, value: MemoryValue) -> (packet: Self)
        requires
            memory_location.size == value_size(value),
        ensures
            packet@ == instruction_view(
                id,
                instruction_code(Instruction::Write),
                seq![memory_location.addr] + value_bytes(value),
            ),
    {
        match value {
            MemoryValue::U16(val) => {
                let low: u8 = (val >> 8) as u8;
                let high: u8 = (val & 0x00FF) as u8;
                proof {
                    assert(val >> 8 == val / 256) by (bit_vector);
                    assert(val & 0x00FF == val % 256) by (bit_vector);
                }
                let params: [u8; 3] = [memory_location.addr, high, low];
                let packet = Self::new(id, Instruction::Write, &params);
                proof {
                    assert(params@ =~= seq![memory_location.addr] + value_bytes(value));
                }
                packet
            },
            MemoryValue::U8(val) => {
                let params: [u8; 2] = [memory_location.addr, val];
                let packet = Self::new(id, Instruction::Write, &params);
                proof {
                    assert(params@ =~= seq![memory_location.addr] + value_bytes(value));
                }
                packet
            },
            MemoryValue::Bool(val) => {
                let byte: u8 = if val { 1 } else { 0 };
                let params: [u8; 2] = [memory_location.addr, byte];
                let packet = Self::new(id, Instruction::Write, &params);
                proof {
                    assert(params@ =~= seq![memory_location.addr] + value_bytes(value));
                }
                packet
            },
        }
    }

    /// The id of the servo that the packet addresses.
    pub fn id(&self) -> (id: u8)
        ensures
            id == self@.id,
    {
        self.id
    }

    /// The length byte plus the four bytes of header, id and length.
    pub fn get_total_packet_length(&self) -> (total: u32)
        ensures
            total == self@.length + 4,
    {
        self.length as u32 + 4
    }

    /// The bytes of the packet on the wire.
    pub fn as_bytes(&self) -> (bytes: Vec<u8>)
        ensures
            bytes@ == frame_bytes(self@),
    {
        let mut bytes: Vec<u8> = Vec::new();
        bytes.push(0xFF);
        bytes.push(0xFF);
        bytes.push(self.id);
        bytes.push(self.length);
        bytes.push(self.instruction);
        let n: usize = self.parameters.len();
        let mut i: usize = 0;
        while i < n
            invariant
                n == self.parameters@.len(),
                i <= n,
                bytes@ == seq![0xFFu8, 0xFFu8, self.id, self.length, self.instruction]
                    + self.parameters@.take(i as int),
            decreases n - i,
        {
            bytes.push(self.parameters[i]);
            i = i + 1;
            proof {
                assert(bytes@ =~= seq![0xFFu8, 0xFFu8, self.id, self.length, self.instruction]
                    + self.parameters@.take(i as int));
            }
        }
        bytes.push(self.checksum);
        proof {
            assert(self.parameters@.take(n as int) =~= self.parameters@);
            assert(bytes@ =~= frame_bytes(self@));
        }
        bytes
    }
}

} // verus!
