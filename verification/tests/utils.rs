use feetech_bravo_teleop::kinematics::Bravo7InvKinematics;
use feetech_bravo_teleop::utils::{compute_checksum, step_delta, STEPS_PER_REV};

#[test]
fn checksum_of_ping() {
    assert_eq!(compute_checksum(5, 2, 1, &[]), 247);
}

#[test]
fn checksum_wraps_past_one_byte() {
    // 0xFE + 4 + 2 + 0xFF + 0xFF = 770, 770 % 256 = 2, checksum 253
    assert_eq!(compute_checksum(0xFE, 4, 2, &[0xFF, 0xFF]), 253);
    assert_eq!(compute_checksum(0, 0, 0, &[]), 255);
    // body summing to 255 mod 256 gives 0
    assert_eq!(compute_checksum(250, 3, 2, &[]), 0);
}

#[test]
fn checksum_complements_body() {
    let params = [0x10u8, 0x80, 0xFF, 0x01, 0x7F];
    let c = compute_checksum(3, 7, 2, &params);
    let sum: u32 = 3 + 7 + 2 + params.iter().map(|b| *b as u32).sum::<u32>() + c as u32;
    assert_eq!(sum % 256, 255);
}

#[test]
fn checksum_of_long_parameter_list() {
    let params = vec![0xFFu8; 1000];
    let sum: u64 = 1 + 2 + 3 + 255 * 1000;
    assert_eq!(compute_checksum(1, 2, 3, &params), (255 - sum % 256) as u8);
}

#[test]
fn step_delta_wraps_into_one_revolution() {
    assert_eq!(STEPS_PER_REV, 4096);
    assert_eq!(step_delta(2048, 2048), 0);
    assert_eq!(step_delta(3000, 1000), 2000);
    assert_eq!(step_delta(1000, 3000), 2096);
    assert_eq!(step_delta(10, 20), 4086);
    assert_eq!(step_delta(5000, 0), 904);
    assert_eq!(step_delta(-1, 0), 4095);
    assert_eq!(step_delta(i32::MAX, i32::MIN), 4095);
    assert_eq!(step_delta(i32::MIN, i32::MAX), 1);
}

#[test]
fn inverse_kinematics_is_stateless() {
    assert_eq!(Bravo7InvKinematics::new(), Bravo7InvKinematics {});
}
