use debug_assistant::flashing::IspBootMode;
use debug_assistant::isp_protocol::{
    address_frame, check_ack, command_frame, mass_erase_frame, product_id,
    too_few_id_bytes_message, write_frame, xor_checksum, AckError, WriteSizeError, ACK, NACK,
};
use debug_assistant::isp_session::{
    boot_hint, chunk_address, erase_read_step, gave_up_message, isp_start_index,
    progress_percent, segment_chunks, sync_exhausted_message, sync_read_step, EraseFailure, EraseRead,
    EraseStep, IspPhase, IspSession, StepResult, SyncFailure, SyncStep,
};

#[test]
fn xor_of_bytes() {
    assert_eq!(xor_checksum(&[]), 0);
    assert_eq!(xor_checksum(&[0x08, 0x00, 0x00, 0x00]), 0x08);
    assert_eq!(xor_checksum(&[0xFF, 0x0F, 0xF0]), 0x00);
}

#[test]
fn command_frames_carry_the_complement() {
    assert_eq!(command_frame(0x02), vec![0x02, 0xFD]);
    assert_eq!(command_frame(0x44), vec![0x44, 0xBB]);
    assert_eq!(command_frame(0x31), vec![0x31, 0xCE]);
    assert_eq!(command_frame(0x21), vec![0x21, 0xDE]);
    assert_eq!(mass_erase_frame(), vec![0xFF, 0xFF, 0x00]);
}

#[test]
fn address_frame_is_big_endian_with_checksum() {
    let f = address_frame(0x0800_0100);
    assert_eq!(f, vec![0x08, 0x00, 0x01, 0x00, 0x09]);
    assert_eq!(xor_checksum(&f), 0);
}

#[test]
fn write_frame_pads_to_words() {
    let f = write_frame(&[0x11, 0x22, 0x33, 0x44, 0x55]).unwrap();
    assert_eq!(f.len(), 10);
    assert_eq!(f[0], 7);
    assert_eq!(&f[1..6], &[0x11, 0x22, 0x33, 0x44, 0x55]);
    assert_eq!(&f[6..9], &[0xFF, 0xFF, 0xFF]);
    assert_eq!(xor_checksum(&f), 0);
    let full = write_frame(&[0xAB; 256]).unwrap();
    assert_eq!(full.len(), 258);
    assert_eq!(full[0], 255);
    assert_eq!(xor_checksum(&full), 0);
}

#[test]
fn write_frame_rejects_bad_sizes() {
    assert_eq!(write_frame(&[]), Err(WriteSizeError { len: 0 }));
    assert_eq!(write_frame(&[0; 257]), Err(WriteSizeError { len: 257 }));
    assert_eq!(
        WriteSizeError { len: 0 }.message(),
        "write_chunk: data must be 1\u{2013}256 bytes (got 0)"
    );
}

#[test]
fn acknowledgements() {
    assert_eq!(check_ack(ACK), Ok(()));
    assert_eq!(check_ack(NACK), Err(AckError::Nack));
    assert_eq!(check_ack(0x42), Err(AckError::Unexpected(0x42)));
    assert_eq!(AckError::Nack.message(), "Bootloader returned NACK");
    assert_eq!(
        AckError::Unexpected(0x0A).message(),
        "Unexpected byte: 0x0A (expected ACK 0x79)"
    );
}

#[test]
fn product_id_from_reply() {
    assert_eq!(product_id(&[0x04, 0x10]), Ok(0x0410));
    assert_eq!(product_id(&[0x04, 0x13, 0x99]), Ok(0x0413));
    assert_eq!(product_id(&[0x04]), Err(1));
    assert_eq!(
        too_few_id_bytes_message(1),
        "GetID returned too few bytes (1), expected at least 2"
    );
}

#[test]
fn start_index_of_baud() {
    assert_eq!(isp_start_index(115200), 7);
    assert_eq!(isp_start_index(1200), 0);
    assert_eq!(isp_start_index(921600), 0);
}

#[test]
fn session_succeeds_first_try() {
    let s = IspSession::begin(115200);
    assert_eq!(s.phase, IspPhase::EnterBootloader);
    assert!(s.is_initial_entry());
    assert_eq!(s.baud(), 115200);
    let (s, f) = s.advance(StepResult::Success);
    assert_eq!((s.phase, f), (IspPhase::Sync, None));
    let (s, _) = s.advance(StepResult::Success);
    assert_eq!(s.phase, IspPhase::GetId);
    let (s, _) = s.advance(StepResult::Success);
    assert_eq!(s.phase, IspPhase::Erase);
    let (s, _) = s.advance(StepResult::Success);
    assert_eq!(s.phase, IspPhase::Erased);
}

#[test]
fn session_retries_then_steps_down() {
    let s = IspSession::begin(2400);
    let (s, _) = s.advance(StepResult::Success);
    let (s, f) = s.advance(StepResult::Failure);
    assert_eq!((s.phase, s.attempt, f), (IspPhase::EnterBootloader, 1, None));
    let (s, _) = s.advance(StepResult::Success);
    let (s, _) = s.advance(StepResult::Success);
    let (s, f) = s.advance(StepResult::Failure);
    assert_eq!((s.phase, s.rate_idx, s.attempt), (IspPhase::SetBaud, 0, 0));
    assert_eq!(f, Some(2400));
    assert_eq!(s.baud(), 1200);
    let (s, _) = s.advance(StepResult::Success);
    assert_eq!(s.phase, IspPhase::EnterBootloader);
    assert!(!s.is_initial_entry());
    let (s, _) = s.advance(StepResult::Success);
    let (s, _) = s.advance(StepResult::Success);
    let (s, _) = s.advance(StepResult::Success);
    let (s, f) = s.advance(StepResult::SetupRejected);
    assert_eq!((s.phase, s.attempt, f), (IspPhase::EnterBootloader, 1, None));
    let (s, _) = s.advance(StepResult::Success);
    let (s, f) = s.advance(StepResult::Failure);
    assert_eq!((s.phase, f), (IspPhase::GaveUp, Some(1200)));
    let (s2, f2) = s.advance(StepResult::Success);
    assert_eq!((s2, f2), (s, None));
}

#[test]
fn erase_failure_aborts() {
    let s = IspSession::begin(9600);
    let (s, _) = s.advance(StepResult::Success);
    let (s, _) = s.advance(StepResult::Success);
    let (s, _) = s.advance(StepResult::Success);
    let (s, _) = s.advance(StepResult::Failure);
    assert_eq!(s.phase, IspPhase::Aborted);
    let (s, _) = IspSession::begin(9600).advance(StepResult::Failure);
    assert_eq!(s.phase, IspPhase::Aborted);
}

#[test]
fn sync_reads() {
    assert_eq!(sync_read_step(Some(ACK), true, 0, 3), SyncStep::Synced);
    assert_eq!(sync_read_step(Some(NACK), true, 0, 3), SyncStep::NextAttempt);
    assert_eq!(sync_read_step(Some(NACK), true, 3, 3), SyncStep::Failed(SyncFailure::Nack));
    assert_eq!(sync_read_step(Some(7), true, 0, 3), SyncStep::Failed(SyncFailure::UnexpectedByte(7)));
    assert_eq!(sync_read_step(None, true, 3, 3), SyncStep::KeepWaiting);
    assert_eq!(sync_read_step(None, false, 1, 3), SyncStep::NextAttempt);
    assert_eq!(sync_read_step(None, false, 3, 3), SyncStep::Failed(SyncFailure::Timeout));
    assert_eq!(SyncFailure::UnexpectedByte(0xAB).message(), "Unexpected sync byte: 0xAB");
    assert_eq!(SyncFailure::Timeout.message(), "Sync timeout");
    assert_eq!(SyncFailure::Nack.message(), "Bootloader returned NACK during sync");
    assert_eq!(sync_exhausted_message(3), "Sync failed after 4 attempts");
}

#[test]
fn erase_reads() {
    assert_eq!(erase_read_step(EraseRead::Byte(ACK), true), EraseStep::Erased);
    assert_eq!(erase_read_step(EraseRead::Byte(NACK), true), EraseStep::Failed(EraseFailure::Nack));
    assert_eq!(erase_read_step(EraseRead::Byte(1), false), EraseStep::Failed(EraseFailure::UnexpectedByte(1)));
    assert_eq!(erase_read_step(EraseRead::TimedOut, true), EraseStep::Poll);
    assert_eq!(erase_read_step(EraseRead::OtherError, true), EraseStep::Failed(EraseFailure::ReadError));
    assert_eq!(erase_read_step(EraseRead::TimedOut, false), EraseStep::Failed(EraseFailure::TimedOut));
    assert_eq!(EraseFailure::Cancelled.message(), "Operation cancelled by user");
    assert_eq!(EraseFailure::UnexpectedByte(0x3C).message(), "Unexpected erase response: 0x3C");
}

#[test]
fn chunk_addresses_and_progress() {
    assert_eq!(chunk_address(0x0800_0000, 0), 0x0800_0000);
    assert_eq!(chunk_address(0x0800_0000, 3), 0x0800_0300);
    assert_eq!(chunk_address(0xFFFF_FF00, 1), 0);
    assert_eq!(progress_percent(0, 1000), 10);
    assert_eq!(progress_percent(500, 1000), 54);
    assert_eq!(progress_percent(1000, 1000), 99);
}

#[test]
fn give_up_hints() {
    assert_eq!(boot_hint(IspBootMode::Auto), "Hint: check RTS->BOOT0 and DTR->RESET wiring.");
    assert_eq!(
        gave_up_message(IspBootMode::Manual),
        "Sync/GetID/erase-setup failed after multiple retries. Hint: ensure BOOT0=HIGH and target has been reset into ROM bootloader."
    );
}

#[test]
fn segment_is_written_in_256_byte_chunks() {
    let data: Vec<u8> = (0..600u32).map(|i| (i % 251) as u8).collect();
    let steps = segment_chunks(0x0800_0000, &data);
    assert_eq!(steps.len(), 3);
    assert_eq!(steps[0].0, 0x0800_0000);
    assert_eq!(steps[1].0, 0x0800_0100);
    assert_eq!(steps[2].0, 0x0800_0200);
    assert_eq!(steps[0].1, data[..256].to_vec());
    assert_eq!(steps[2].1, data[512..].to_vec());
    let joined: Vec<u8> = steps.iter().flat_map(|s| s.1.clone()).collect();
    assert_eq!(joined, data);
    assert!(segment_chunks(0x0800_0000, &[]).is_empty());
    let wrapped = segment_chunks(0xFFFF_FF00, &[0u8; 300]);
    assert_eq!(wrapped[1].0, 0x0000_0000);
    assert_eq!(wrapped[1].1.len(), 44);
}
