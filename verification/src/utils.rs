use vstd::prelude::*;

verus! {

/// Sum of a byte sequence, as a natural number.
pub open spec fn byte_sum(s: Seq<u8>) -> nat
    decreases s.len(),
{
    if s.len() == 0 {
        0
    } else {
        byte_sum(s.drop_last()) + s.last() as nat
    }
}

/// The protocol checksum: the bitwise complement of the low byte of the sum of
/// `id`, `length`, `instruction` and every parameter byte.
pub open spec fn checksum_of(id: u8, length: u8, instruction: u8, params: Seq<u8>) -> u8 {
    (255 - ((id + length + instruction + byte_sum(params)) % 256)) as u8
}

/// Computes the checksum of a packet body (see `checksum_of`).
pub fn compute_checksum(id: u8, length: u8, instruction: u8, parameters: &[u8]) -> (checksum: u8)
    ensures
        checksum == checksum_of(id, length, instruction, parameters@),
{
    let mut acc: u16 = ((id as u16) + (length as u16) + (instruction as u16)) % 256;
    let n: usize = parameters.len();
    let mut i: usize = 0;
    while i < n
        invariant
            n == parameters@.len(),
            i <= n,
            acc as int == (id + length + instruction + byte_sum(parameters@.take(i as int))) % 256,
        decreases n - i,
    {
        let b: u8 = parameters[i];
        proof {
            let s = parameters@.take(i as int + 1);
            assert(s.drop_last() =~= parameters@.take(i as int));
            let base: int = id + length + instruction + byte_sum(parameters@.take(i as int));
            vstd::arithmetic::div_mod::lemma_add_mod_noop(base, b as int, 256);
            vstd::arithmetic::div_mod::lemma_mod_twice(b as int, 256);
        }
        acc = (acc + (b as u16)) % 256;
        i = i + 1;
    }
    proof {
        assert(parameters@.take(n as int) =~= parameters@);
    }
    (255 - acc) as u8
}

/// The checksum complements the packet body: the body bytes and the checksum
/// together sum to 255 modulo 256.
pub proof fn lemma_checksum_complements(id: u8, length: u8, instruction: u8, params: Seq<u8>)
    ensures
        (id + length + instruction + byte_sum(params) + checksum_of(id, length, instruction, params))
            % 256 == 255,
{
    let total: int = id + length + instruction + byte_sum(params);
    let r: int = total % 256;
    vstd::arithmetic::div_mod::lemma_fundamental_div_mod(total, 256);
    assert(total + (255 - r) == 256 * (total / 256) + 255);
    vstd::arithmetic::div_mod::lemma_mod_multiples_vanish(total / 256, 255, 256);
}

/// Number of encoder steps in one revolution of an STS servo.
pub const STEPS_PER_REV: i32 = 4096;

/// The offset of `current_step` from `zero_step`, wrapped into one revolution:
/// the value in `0..4096` that is congruent to `current_step - zero_step`
/// modulo 4096. This is the integer part of the step-to-angle conversion.
pub fn step_delta(current_step: i32, zero_step: i32) -> (delta: i32)
    ensures
        delta == (current_step - zero_step) % 4096,
        0 <= delta < STEPS_PER_REV,
{
    let shifted: i64 = (current_step as i64) - (zero_step as i64) + 8589934592i64;
    proof {
        vstd::arithmetic::div_mod::lemma_mod_multiples_vanish(
            2097152,
            current_step - zero_step,
            4096,
        );
    }
    (shifted % 4096) as i32
}

} // verus!
