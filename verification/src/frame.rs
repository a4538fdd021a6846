//! Building the fixed diagnostic request frame.
//!
//! A request is exactly 8 bytes: the device address, function code 17, four
//! null sub-field bytes, and the CRC-16 of those six bytes appended in
//! little-endian order.

use vstd::prelude::*;
use crate::checksum::{crc16, calculate_crc16};

verus! {

/// The low byte of a 16-bit checksum, as placed on the wire first.
pub open spec fn crc_low(crc: u16) -> u8 {
    (crc % 256) as u8
}

/// The high byte of a 16-bit checksum, as placed on the wire second.
pub open spec fn crc_high(crc: u16) -> u8 {
    (crc / 256) as u8
}

/// The six payload bytes of the diagnostic request for `address`: the address,
/// function code 17, and four null sub-field bytes.
pub open spec fn request_payload(address: u8) -> Seq<u8> {
    seq![address, 0x11u8, 0x00u8, 0x00u8, 0x00u8, 0x00u8]
}

/// The full 8-byte request frame for `address`: the payload followed by its
/// checksum in little-endian order.
pub open spec fn request_frame(address: u8) -> Seq<u8> {
    request_payload(address).push(crc_low(crc16(request_payload(address)))).push(
        crc_high(crc16(request_payload(address))),
    )
}

/// Builds the 8-byte diagnostic request (function code 17) for
/// `device_address`. Succeeds for every address value.
pub fn create_command_17(device_address: u8) -> (request: Vec<u8>)
    ensures
        request@ == request_frame(device_address),
        request@.len() == 8,
{
    let mut request: Vec<u8> = Vec::new();
    request.push(device_address);
    request.push(0x11);
    request.push(0x00);
    request.push(0x00);
    request.push(0x00);
    request.push(0x00);
    proof {
        assert(request@ =~= request_payload(device_address));
    }
    let crc = calculate_crc16(request.as_slice());
    request.push((crc % 256) as u8);
    request.push((crc / 256) as u8);
    request
}

} // verus!
