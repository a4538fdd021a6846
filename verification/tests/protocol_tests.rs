use modbus_scanner::calculate_crc16;
use modbus_scanner::create_command_17;
use modbus_scanner::validate_response;

fn with_crc(payload: &[u8]) -> Vec<u8> {
    let mut frame = payload.to_vec();
    let crc = calculate_crc16(payload);
    frame.push((crc % 256) as u8);
    frame.push((crc / 256) as u8);
    frame
}

#[test]
fn checksum_empty_is_initial() {
    assert_eq!(calculate_crc16(&[]), 0xFFFF);
}

#[test]
fn checksum_check_value() {
    // The standard check input for the Modbus CRC-16.
    let data = b"123456789";
    assert_eq!(calculate_crc16(data), 0x4B37);
}

#[test]
fn checksum_known_payload() {
    assert_eq!(calculate_crc16(&[0x01, 0x11, 0x00, 0x00, 0x00, 0x00]), 0xC9FD);
}

#[test]
fn checksum_deterministic_across_calls() {
    let data = [0x05u8, 0x11, 0xAA, 0xBB, 0x00, 0x7F, 0xFF];
    let first = calculate_crc16(&data);
    let second = calculate_crc16(&data);
    assert_eq!(first, second);
    let copy = data;
    assert_eq!(calculate_crc16(&copy), first);
}

#[test]
fn frame_builder_exact_bytes() {
    let request = create_command_17(0x01);
    assert_eq!(request, vec![0x01, 0x11, 0x00, 0x00, 0x00, 0x00, 0xFD, 0xC9]);
}

#[test]
fn frame_builder_appends_checksum_little_endian() {
    for address in [0x00u8, 0x02, 0x7F, 0xFF] {
        let request = create_command_17(address);
        assert_eq!(request.len(), 8);
        assert_eq!(&request[..6], &[address, 0x11, 0x00, 0x00, 0x00, 0x00]);
        let crc = calculate_crc16(&request[..6]);
        assert_eq!(request[6], (crc % 256) as u8);
        assert_eq!(request[7], (crc / 256) as u8);
    }
}

#[test]
fn validator_rejects_short_sequences() {
    assert!(!validate_response(&[], 0x05));
    assert!(!validate_response(&[0x05], 0x05));
    assert!(!validate_response(&[0x05, 0x11, 0x00, 0x00, 0x00, 0x00], 0x05));
    // Even a checksummed six-byte frame is too short.
    let short = with_crc(&[0x05, 0x11, 0xAA, 0xBB]);
    assert_eq!(short.len(), 6);
    assert!(!validate_response(&short, 0x05));
}

#[test]
fn validator_rejects_wrong_address() {
    // A checksum that is correct for these bytes does not save a frame whose
    // first byte is not the probed address.
    let frame = with_crc(&[0x06, 0x11, 0xAA, 0xBB, 0xCC]);
    assert!(!validate_response(&frame, 0x05));
    assert!(validate_response(&frame, 0x06));
}

#[test]
fn validator_rejects_wrong_function_code() {
    let frame = with_crc(&[0x05, 0x12, 0xAA, 0xBB, 0xCC]);
    assert!(!validate_response(&frame, 0x05));
}

#[test]
fn validator_rejects_bad_checksum() {
    let mut frame = with_crc(&[0x05, 0x11, 0xAA, 0xBB, 0xCC]);
    let last = frame.len() - 1;
    frame[last] ^= 0x01;
    assert!(!validate_response(&frame, 0x05));
    // Swapping the two checksum bytes must also fail (little-endian order).
    let mut swapped = with_crc(&[0x05, 0x11, 0xAA, 0xBB, 0xCC]);
    if swapped[5] != swapped[6] {
        swapped.swap(5, 6);
        assert!(!validate_response(&swapped, 0x05));
    }
}

#[test]
fn validator_accepts_well_formed_frame() {
    let frame = with_crc(&[0x05, 0x11, 0xAA, 0xBB, 0xCC]);
    assert_eq!(frame.len(), 7);
    assert!(validate_response(&frame, 0x05));
}

#[test]
fn validator_accepts_own_request_frame() {
    for address in [0x01u8, 0x0A, 0xF7] {
        let request = create_command_17(address);
        assert!(validate_response(&request, address));
    }
}
