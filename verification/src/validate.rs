//! Classifying a received byte sequence as a well-formed reply or noise.
//!
//! A reply is accepted only when it is at least 7 bytes long, echoes the
//! probed address and function code 17, and carries as its trailing two bytes
//! the little-endian CRC-16 of everything before them.

use vstd::prelude::*;
use vstd::slice::slice_subrange;
use crate::checksum::{crc16, calculate_crc16};
use crate::frame::{crc_high, crc_low, request_frame, request_payload};

verus! {

/// The 16-bit value encoded little-endian by two wire bytes.
pub open spec fn le_word(low: u8, high: u8) -> u16 {
    ((low as int) + (high as int) * 256) as u16
}

/// A well-formed reply to a probe of `device_address`: long enough, echoing
/// the address and function code, and checksummed over all preceding bytes.
pub open spec fn valid_response(response: Seq<u8>, device_address: u8) -> bool {
    &&& response.len() >= 7
    &&& response[0] == device_address
    &&& response[1] == 0x11
    &&& le_word(response[response.len() - 2], response[response.len() - 1]) == crc16(
        response.subrange(0, response.len() - 2),
    )
}

/// Checks a received byte sequence against the framing rules for
/// `device_address`, short-circuiting on the first failed rule.
pub fn validate_response(response: &[u8], device_address: u8) -> (valid: bool)
    ensures
        valid == valid_response(response@, device_address),
{
    if response.len() < 7 {
        return false;
    }
    if response[0] != device_address || response[1] != 0x11 {
        return false;
    }
    let low = response[response.len() - 2];
    let high = response[response.len() - 1];
    let response_crc: u16 = (low as u16) + (high as u16) * 256;
    let calculated_crc = calculate_crc16(slice_subrange(response, 0, response.len() - 2));
    response_crc == calculated_crc
}

/// Any sequence shorter than 7 bytes is rejected, regardless of content.
pub proof fn lemma_short_response_invalid(response: Seq<u8>, device_address: u8)
    requires
        response.len() < 7,
    ensures
        !valid_response(response, device_address),
{
}

/// A long-enough sequence whose first byte does not echo the probed address is
/// rejected, even when its checksum is otherwise correct.
pub proof fn lemma_wrong_address_invalid(response: Seq<u8>, device_address: u8)
    requires
        response.len() >= 7,
        response[0] != device_address,
    ensures
        !valid_response(response, device_address),
{
}

/// A sequence whose trailing two bytes do not encode the checksum of the
/// preceding bytes is rejected.
pub proof fn lemma_bad_checksum_invalid(response: Seq<u8>, device_address: u8)
    requires
        response.len() >= 7,
        le_word(response[response.len() - 2], response[response.len() - 1]) != crc16(
            response.subrange(0, response.len() - 2),
        ),
    ensures
        !valid_response(response, device_address),
{
}

/// The builder and the validator agree on the framing rules: the request
/// frame built for an address is itself a well-formed frame for that address,
/// since it echoes the address and function code and carries its checksum in
/// little-endian order.
pub proof fn lemma_request_frame_valid(address: u8)
    ensures
        valid_response(request_frame(address), address),
{
    let payload = request_payload(address);
    let crc = crc16(payload);
    let frame = request_frame(address);
    assert(frame.subrange(0, 6) =~= payload);
    assert(le_word(crc_low(crc), crc_high(crc)) == crc) by {
        vstd::arithmetic::div_mod::lemma_fundamental_div_mod(crc as int, 256);
    };
}

} // verus!
