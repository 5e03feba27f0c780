use feetech_bravo_teleop::instructions::Instruction;
use feetech_bravo_teleop::memory_location::{target_position, MemoryValue};
use feetech_bravo_teleop::packet_handler::{
    reply_data, Exchange, ExchangeStep, RxError, RxStatus, TxError, BROADCAST_ID,
};
use feetech_bravo_teleop::packets::{InstructionPacket, StatusPacket};
use feetech_bravo_teleop::ReadCommand;
use feetech_bravo_teleop::IntoInstructionPacket;

/// Runs an exchange against a port that accepts every write and answers with `reply`.
fn run(packet: &InstructionPacket, written: bool, reply: &[u8]) -> (Vec<u8>, ExchangeStep) {
    let (mut exchange, mut step) = Exchange::start(packet);
    let mut sent = Vec::new();
    let mut pos = 0usize;
    loop {
        match step {
            ExchangeStep::Send(bytes) => {
                sent = bytes;
                step = exchange.on_sent(written);
            }
            ExchangeStep::Receive(n) => {
                let chunk = &reply[pos..pos + n];
                pos += n;
                step = exchange.on_received(chunk);
            }
            other => {
                assert!(exchange.is_done());
                return (sent, other);
            }
        }
    }
}

#[test]
fn reply_to_a_position_read() {
    let packet = ReadCommand::CurrentPosition.to_instruction_packet(1);
    // reply: id 1, length 4, error 0, data 0x34 0x12, checksum 180
    let reply = [0xFF, 0xFF, 1, 4, 0, 0x34, 0x12, 180];
    let (sent, step) = run(&packet, true, &reply);
    assert_eq!(sent, packet.as_bytes());
    match step {
        ExchangeStep::Finished(Ok(RxStatus::Success(Some(status)))) => {
            assert_eq!(status.id(), 1);
            assert_eq!(status.length(), 4);
            assert_eq!(status.error(), 0);
            assert_eq!(status.checksum(), 180);
            assert_eq!(status.extract_data(), 0x1234);
        }
        other => panic!("unexpected {:?}", other),
    }
}

#[test]
fn reply_frame_decodes_to_its_packet() {
    let built = InstructionPacket::new(7, Instruction::Write, &[9, 8, 7, 6]);
    let frame = built.as_bytes();
    let request = ReadCommand::Id.to_instruction_packet(7);
    let (_, step) = run(&request, true, &frame);
    match step {
        ExchangeStep::Finished(Ok(RxStatus::Success(Some(status)))) => {
            assert_eq!(status.id(), 7);
            assert_eq!(status.length(), 6);
            assert_eq!(status.error(), 3);
            assert_eq!(status.checksum(), frame[frame.len() - 1]);
            assert_eq!(status.extract_data(), 0);
        }
        other => panic!("unexpected {:?}", other),
    }
}

#[test]
fn reply_without_parameters() {
    let request = InstructionPacket::new(3, Instruction::Ping, &[]);
    // 3 + 2 + 0 = 5, checksum 250
    let (_, step) = run(&request, true, &[0xFF, 0xFF, 3, 2, 0, 250]);
    match step {
        ExchangeStep::Finished(Ok(RxStatus::Success(Some(status)))) => {
            assert_eq!(status.extract_data(), 0);
            assert_eq!(status.length(), 2);
        }
        other => panic!("unexpected {:?}", other),
    }
}

#[test]
fn broadcast_gets_no_reply() {
    let packet = InstructionPacket::write_to_memory_location(
        BROADCAST_ID,
        target_position(),
        MemoryValue::U16(100),
    );
    let (sent, step) = run(&packet, true, &[]);
    assert_eq!(sent, packet.as_bytes());
    assert!(matches!(step, ExchangeStep::Finished(Ok(RxStatus::Success(None)))));
}

#[test]
fn failed_write_is_tx_fail() {
    let packet = InstructionPacket::new(1, Instruction::Ping, &[]);
    let (_, step) = run(&packet, false, &[]);
    assert!(matches!(step, ExchangeStep::TxFailed(TxError::TxFail)));
}

#[test]
fn too_long_packet_is_not_sent() {
    let params = vec![0u8; 247];
    let packet = InstructionPacket::new(1, Instruction::Write, &params);
    assert_eq!(packet.get_total_packet_length(), 253);
    let (sent, step) = run(&packet, true, &[]);
    assert!(sent.is_empty());
    assert!(matches!(step, ExchangeStep::TxFailed(TxError::Error)));
}

#[test]
fn longest_packet_is_sent() {
    let params = vec![0u8; 244];
    let packet = InstructionPacket::new(1, Instruction::Write, &params);
    assert_eq!(packet.get_total_packet_length(), 250);
    let (sent, step) = run(&packet, false, &[]);
    assert_eq!(sent.len(), 250);
    assert!(matches!(step, ExchangeStep::TxFailed(TxError::TxFail)));
}

#[test]
fn bad_header_is_corrupt() {
    let packet = InstructionPacket::new(1, Instruction::Ping, &[]);
    let (_, step) = run(&packet, true, &[0xFF, 0x00]);
    assert!(matches!(step, ExchangeStep::Finished(Err(RxError::RxCorrupt))));
}

#[test]
fn short_length_is_corrupt() {
    let packet = InstructionPacket::new(1, Instruction::Ping, &[]);
    let (_, step) = run(&packet, true, &[0xFF, 0xFF, 1, 1, 0]);
    assert!(matches!(step, ExchangeStep::Finished(Err(RxError::RxCorrupt))));
}

#[test]
fn bad_checksum_is_corrupt() {
    let packet = InstructionPacket::new(1, Instruction::Ping, &[]);
    let (_, step) = run(&packet, true, &[0xFF, 0xFF, 1, 2, 0, 0x00]);
    assert!(matches!(step, ExchangeStep::Finished(Err(RxError::RxCorrupt))));
}

#[test]
fn reply_data_of_outcomes() {
    let status = StatusPacket::new(&[0xFF, 0xFF], 1, 3, 0, &[42], 209);
    assert_eq!(reply_data(Ok(RxStatus::Success(Some(status)))), Some(42));
    assert_eq!(reply_data(Ok(RxStatus::Success(None))), None);
    assert_eq!(reply_data(Ok(RxStatus::RxWaiting)), None);
    assert_eq!(reply_data(Err(RxError::RxTimeout)), None);
}

#[test]
fn written_value_reads_back() {
    for v in [0u16, 1, 255, 256, 0x1234, 0xFFFF] {
        let packet =
            InstructionPacket::write_to_memory_location(1, target_position(), MemoryValue::U16(v));
        let bytes = packet.as_bytes();
        let data = &bytes[6..8];
        let c = feetech_bravo_teleop::utils::compute_checksum(1, 4, 0, data);
        let status = StatusPacket::new(&[0xFF, 0xFF], 1, 4, 0, data, c);
        assert_eq!(status.extract_data(), v);
    }
}
