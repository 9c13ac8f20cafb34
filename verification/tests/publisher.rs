use read_only_state::driver::{CommandReturn, ErrorCode, ReadOnlyStateDriver};
use read_only_state::layout::{layout_fields, FieldKind, RECORD_SIZE, VERSION};

fn decode_u32(bytes: &[u8]) -> u32 {
    u32::from_le_bytes([bytes[0], bytes[1], bytes[2], bytes[3]])
}

fn decode_u64(bytes: &[u8]) -> u64 {
    u64::from_le_bytes([
        bytes[0], bytes[1], bytes[2], bytes[3], bytes[4], bytes[5], bytes[6], bytes[7],
    ])
}

#[test]
fn test_publish_full_buffer() {
    let mut driver = ReadOnlyStateDriver::new(4);
    assert_eq!(Ok(()), driver.allocate_grant(2));

    let mut buffer = vec![0u8; RECORD_SIZE];
    driver.context_switch_hook(2, 3, 100, &mut buffer);
    assert_eq!(1, decode_u32(&buffer[0..4]));
    assert_eq!(3, decode_u32(&buffer[4..8]));
    assert_eq!(100, decode_u64(&buffer[8..16]));

    driver.context_switch_hook(2, 7, 250, &mut buffer);
    assert_eq!(2, decode_u32(&buffer[0..4]));
    assert_eq!(7, decode_u32(&buffer[4..8]));
    assert_eq!(250, decode_u64(&buffer[8..16]));
}

#[test]
fn test_publish_zero_length_buffer() {
    let mut driver = ReadOnlyStateDriver::new(1);
    assert_eq!(Ok(()), driver.allocate_grant(0));

    // A zero-length buffer receives nothing and the cycle must not fault,
    // but the switch counter still advances.
    let mut empty: Vec<u8> = Vec::new();
    driver.context_switch_hook(0, 9, 42, &mut empty);
    assert_eq!(0, empty.len());

    let mut buffer = vec![0u8; RECORD_SIZE];
    driver.context_switch_hook(0, 9, 43, &mut buffer);
    assert_eq!(2, decode_u32(&buffer[0..4]));
}

#[test]
fn test_publish_partial_buffers() {
    // Only fields whose full byte range fits are written; a partially
    // fitting field is skipped entirely.
    let mut driver = ReadOnlyStateDriver::new(1);
    assert_eq!(Ok(()), driver.allocate_grant(0));

    let mut seven = vec![0xEEu8; 7];
    driver.context_switch_hook(0, 3, 100, &mut seven);
    assert_eq!(1, decode_u32(&seven[0..4]));
    assert_eq!(&[0xEE, 0xEE, 0xEE], &seven[4..7]);

    let mut fifteen = vec![0xEEu8; 15];
    driver.context_switch_hook(0, 3, 100, &mut fifteen);
    assert_eq!(2, decode_u32(&fifteen[0..4]));
    assert_eq!(3, decode_u32(&fifteen[4..8]));
    assert_eq!(&[0xEE; 7], &fifteen[8..15]);

    let mut three = vec![0xEEu8; 3];
    driver.context_switch_hook(0, 3, 100, &mut three);
    assert_eq!(&[0xEE, 0xEE, 0xEE], &three[0..3]);
}

#[test]
fn test_buffer_shrink_between_cycles() {
    // Shrinking the offered buffer between two cycles never causes a write
    // beyond the new, smaller length on the next cycle.
    let mut driver = ReadOnlyStateDriver::new(1);
    assert_eq!(Ok(()), driver.allocate_grant(0));

    let mut full = vec![0u8; RECORD_SIZE];
    driver.context_switch_hook(0, 3, 100, &mut full);
    assert_eq!(100, decode_u64(&full[8..16]));

    let mut shrunk = vec![0xEEu8; 8];
    driver.context_switch_hook(0, 5, 250, &mut shrunk);
    assert_eq!(8, shrunk.len());
    assert_eq!(2, decode_u32(&shrunk[0..4]));
    assert_eq!(5, decode_u32(&shrunk[4..8]));
}

#[test]
fn test_scenario_two_cycles_len8() {
    // Buffer of 8 bytes, two cycles with pending counts 3 and 5 and tick
    // readings 100 and 250: the tick field never fits, so bytes 8..16 of the
    // full record are never produced anywhere.
    let mut driver = ReadOnlyStateDriver::new(1);
    assert_eq!(Ok(()), driver.allocate_grant(0));

    let mut buffer = vec![0u8; 8];
    driver.context_switch_hook(0, 3, 100, &mut buffer);
    assert_eq!(1, decode_u32(&buffer[0..4]));
    assert_eq!(3, decode_u32(&buffer[4..8]));

    driver.context_switch_hook(0, 5, 250, &mut buffer);
    assert_eq!(2, decode_u32(&buffer[0..4]));
    assert_eq!(5, decode_u32(&buffer[4..8]));
    assert_eq!(8, buffer.len());
}

#[test]
fn test_unallocated_process_is_skipped() {
    let mut driver = ReadOnlyStateDriver::new(2);

    // No record was ever allocated for process 1: the cycle is a safe no-op.
    let mut buffer = vec![0xEEu8; RECORD_SIZE];
    driver.context_switch_hook(1, 5, 9, &mut buffer);
    assert_eq!(vec![0xEEu8; RECORD_SIZE], buffer);

    // Commands still succeed normally afterwards.
    assert_eq!(CommandReturn::Success, driver.command(0, 0, 0, 1));
    assert_eq!(CommandReturn::SuccessU32(VERSION), driver.command(1, 0, 0, 1));

    // Once the record is allocated, publishing starts from a fresh counter.
    assert_eq!(Ok(()), driver.allocate_grant(1));
    driver.context_switch_hook(1, 5, 9, &mut buffer);
    assert_eq!(1, decode_u32(&buffer[0..4]));
}

#[test]
fn test_command_interface() {
    let driver = ReadOnlyStateDriver::new(0);
    assert_eq!(CommandReturn::Success, driver.command(0, 0, 0, 0));
    assert_eq!(CommandReturn::SuccessU32(1), driver.command(1, 0, 0, 0));
    assert_eq!(
        CommandReturn::Failure(ErrorCode::NoSupport),
        driver.command(2, 0, 0, 0)
    );
    assert_eq!(
        CommandReturn::Failure(ErrorCode::NoSupport),
        driver.command(usize::MAX, 0, 0, 0)
    );

    // The version query's answer does not depend on process state or on the
    // arguments beyond the request number.
    let mut other = ReadOnlyStateDriver::new(3);
    assert_eq!(Ok(()), other.allocate_grant(2));
    let mut buffer = vec![0u8; RECORD_SIZE];
    other.context_switch_hook(2, 1, 2, &mut buffer);
    assert_eq!(CommandReturn::SuccessU32(1), other.command(1, 7, 8, 2));
}

#[test]
fn test_allocate_grant() {
    let mut driver = ReadOnlyStateDriver::new(2);
    assert_eq!(Ok(()), driver.allocate_grant(0));
    assert_eq!(Ok(()), driver.allocate_grant(1));
    // Beyond the arena's capacity, allocation fails and is reported.
    assert_eq!(Err(ErrorCode::NoMem), driver.allocate_grant(2));

    // Re-allocating keeps the existing record's counter.
    let mut buffer = vec![0u8; RECORD_SIZE];
    driver.context_switch_hook(0, 1, 1, &mut buffer);
    assert_eq!(1, decode_u32(&buffer[0..4]));
    assert_eq!(Ok(()), driver.allocate_grant(0));
    driver.context_switch_hook(0, 1, 1, &mut buffer);
    assert_eq!(2, decode_u32(&buffer[0..4]));
}

#[test]
fn test_counter_increments_per_cycle() {
    let mut driver = ReadOnlyStateDriver::new(1);
    assert_eq!(Ok(()), driver.allocate_grant(0));

    let mut buffer = vec![0u8; RECORD_SIZE];
    for n in 1..=5u32 {
        driver.context_switch_hook(0, 0, 0, &mut buffer);
        assert_eq!(n, decode_u32(&buffer[0..4]));
    }
}

#[test]
fn test_layout_registry() {
    assert_eq!(1, VERSION);
    assert_eq!(16, RECORD_SIZE);

    let fields = layout_fields(VERSION);
    assert_eq!(3, fields.len());
    assert_eq!(FieldKind::SwitchCount, fields[0].kind);
    assert_eq!(0, fields[0].offset);
    assert_eq!(4, fields[0].width);
    assert_eq!(FieldKind::PendingTasks, fields[1].kind);
    assert_eq!(4, fields[1].offset);
    assert_eq!(4, fields[1].width);
    assert_eq!(FieldKind::TickCount, fields[2].kind);
    assert_eq!(8, fields[2].offset);
    assert_eq!(8, fields[2].width);
    assert_eq!(1, fields[0].since);

    // Version 0 predates the mechanism.
    assert_eq!(0, layout_fields(0).len());
}
