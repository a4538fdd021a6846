//! Orchestration of the sweep over addresses and baud rates.
//!
//! Each attempt runs the same session: open the transport, clear stale
//! bytes, send the request, wait the settling delay, drain the line until it
//! is quiet, and classify the gathered bytes. Every environmental failure is
//! folded into "no match for this attempt"; a sweep never aborts because one
//! probe failed.

use vstd::prelude::*;
use crate::frame::create_command_17;
use crate::progress::{ProgressSink, address_message, baud_message, sweep_address_message};
use crate::render::{hex_render, hex_string};
use crate::transport::SerialTransport;
use crate::validate::{valid_response, validate_response};

verus! {

/// A device found during a sweep: the address and baud rate it answered at,
/// and its reply, byte for byte as received.
pub struct ScanResult {
    pub address: u8,
    pub baudrate: u32,
    pub response: Vec<u8>,
}

impl ScanResult {
    /// The external representation of the raw reply: its bytes as
    /// space-separated two-digit uppercase hexadecimal.
    pub fn response_hex(&self) -> (s: String)
        ensures
            s@ == hex_render(self.response@),
    {
        hex_string(self.response.as_slice())
    }
}

/// What every match reported by a sweep satisfies: it carries the baud rate
/// of the pass that found it, an address inside the swept range, and a reply
/// that is well formed for that address.
pub open spec fn well_formed_match(
    m: ScanResult,
    baudrate: u32,
    start_address: u8,
    end_address: u8,
) -> bool {
    &&& m.baudrate == baudrate
    &&& start_address <= m.address <= end_address
    &&& valid_response(m.response@, m.address)
}

/// How the result of a full sweep decomposes: one part per baud rate, in the
/// caller-supplied order, each part holding that pass's matches in ascending
/// address order.
pub open spec fn grouped_by_baud(
    parts: Seq<Seq<ScanResult>>,
    results: Seq<ScanResult>,
    baudrates: Seq<u32>,
    start_address: u8,
    end_address: u8,
) -> bool {
    &&& parts.len() == baudrates.len()
    &&& results == parts.flatten()
    &&& forall|b: int, i: int|
        0 <= b < parts.len() && 0 <= i < parts[b].len() ==> well_formed_match(
            #[trigger] parts[b][i],
            baudrates[b],
            start_address,
            end_address,
        )
    &&& forall|b: int, i: int, j: int|
        #![trigger parts[b][i], parts[b][j]]
        0 <= b < parts.len() && 0 <= i < j < parts[b].len() ==> parts[b][i].address
            < parts[b][j].address
}

/// Whether `m` is a well-formed match for some baud rate in the swept list.
pub open spec fn some_baud_matches(
    m: ScanResult,
    baudrates: Seq<u32>,
    start_address: u8,
    end_address: u8,
) -> bool {
    exists|b: int|
        0 <= b < baudrates.len() && well_formed_match(m, baudrates[b], start_address, end_address)
}

/// Turns the bytes drained from one attempt into that attempt's outcome: a
/// match exactly when the bytes form a well-formed reply for the probed
/// address, carrying the reply verbatim.
pub fn classify_response(response: Vec<u8>, device_address: u8, baudrate: u32) -> (r: Option<
    ScanResult,
>)
    ensures
        (r is Some) <==> valid_response(response@, device_address),
        r matches Some(m) ==> m.address == device_address && m.baudrate == baudrate
            && m.response@ == response@,
{
    if validate_response(response.as_slice(), device_address) {
        Some(ScanResult { address: device_address, baudrate: baudrate, response: response })
    } else {
        None
    }
}

/// How many drain polls one attempt will make at most. The drain normally
/// ends as soon as a poll finds the line quiet; the cap only cuts off a bus
/// that chatters without pause, so that one attempt cannot stall a sweep
/// forever.
pub const MAX_DRAIN_POLLS: usize = 1024;

/// Runs one probe attempt over `transport`: open, clear, send the request,
/// settle, drain until the line is quiet, classify. A match carries the
/// probed address and baud rate and a reply that is well formed for that
/// address; whether any reply arrives at all is up to the bus.
pub fn try_device_detection<S: SerialTransport>(
    transport: &mut S,
    port_name: &str,
    baudrate: u32,
    device_address: u8,
    timeout_ms: u64,
) -> (r: Option<ScanResult>)
    ensures
        r matches Some(m) ==> m.address == device_address && m.baudrate == baudrate
            && valid_response(m.response@, device_address),
{
    if !transport.open(port_name, baudrate, timeout_ms) {
        return None;
    }
    transport.clear_buffers();
    let request = create_command_17(device_address);
    if !transport.write_all(request.as_slice()) {
        transport.close();
        return None;
    }
    if !transport.flush() {
        transport.close();
        return None;
    }
    transport.settle();
    let mut response: Vec<u8> = Vec::new();
    let mut polls: usize = 0;
    while polls < MAX_DRAIN_POLLS
        invariant
            polls <= MAX_DRAIN_POLLS,
        decreases MAX_DRAIN_POLLS - polls,
    {
        let available = transport.bytes_available();
        if available == 0 {
            break;
        }
        match transport.read_chunk(available) {
            Some(mut chunk) => {
                response.append(&mut chunk);
                transport.poll_pause();
            },
            None => {
                break;
            },
        }
        polls = polls + 1;
    }
    transport.close();
    classify_response(response, device_address, baudrate)
}

/// A Modbus RTU device scanner bound to one serial port. Constructed once per
/// port and reused across any number of sweeps; each attempt opens and closes
/// its own session on the supplied transport.
pub struct ModbusScanner {
    /// The name of the port every probe opens.
    pub port_name: String,
    /// The read timeout handed to every session, in milliseconds.
    pub timeout_ms: u64,
}

/// Probes every address from `start_address` up to `end_address` inclusive at
/// one baud rate, reporting each address to `progress` first, and collects
/// the matches in ascending address order.
fn sweep_range<S: SerialTransport, P: ProgressSink>(
    transport: &mut S,
    port_name: &str,
    timeout_ms: u64,
    baudrate: u32,
    start_address: u8,
    end_address: u8,
    progress: &mut P,
    nested_messages: bool,
) -> (results: Vec<ScanResult>)
    ensures
        forall|i: int|
            0 <= i < results@.len() ==> well_formed_match(
                #[trigger] results@[i],
                baudrate,
                start_address,
                end_address,
            ),
        forall|i: int, j: int|
            0 <= i < j < results@.len() ==> results@[i].address < results@[j].address,
        start_address > end_address ==> results@.len() == 0,
{
    let mut results: Vec<ScanResult> = Vec::new();
    if start_address > end_address {
        return results;
    }
    let mut a: u16 = start_address as u16;
    while a <= end_address as u16
        invariant
            start_address <= end_address,
            start_address as int <= a as int <= end_address as int + 1,
            forall|i: int|
                0 <= i < results@.len() ==> well_formed_match(
                    #[trigger] results@[i],
                    baudrate,
                    start_address,
                    end_address,
                ),
            forall|i: int| 0 <= i < results@.len() ==> (#[trigger] results@[i]).address < a,
            forall|i: int, j: int|
                0 <= i < j < results@.len() ==> results@[i].address < results@[j].address,
        decreases end_address as int + 1 - a as int,
    {
        let address = a as u8;
        let message = if nested_messages {
            sweep_address_message(address, end_address)
        } else {
            address_message(address)
        };
        progress.report(message.as_str());
        if let Some(result) = try_device_detection(
            transport,
            port_name,
            baudrate,
            address,
            timeout_ms,
        ) {
            results.push(result);
        }
        a = a + 1;
    }
    results
}

impl ModbusScanner {
    /// A scanner for the named port, using the given read timeout for every
    /// session.
    pub fn new(port_name: &str, timeout_ms: u64) -> (scanner: ModbusScanner)
        ensures
            scanner.port_name@ == port_name@,
            scanner.timeout_ms == timeout_ms,
    {
        ModbusScanner { port_name: port_name.to_owned(), timeout_ms: timeout_ms }
    }

    /// Probes one address at one baud rate. A match carries that address and
    /// baud rate and a reply that is well formed for the address.
    pub fn scan_single<S: SerialTransport>(
        &self,
        transport: &mut S,
        address: u8,
        baudrate: u32,
    ) -> (r: Option<ScanResult>)
        ensures
            r matches Some(m) ==> m.address == address && m.baudrate == baudrate
                && valid_response(m.response@, address),
    {
        try_device_detection(transport, self.port_name.as_str(), baudrate, address, self.timeout_ms)
    }

    /// Probes every address from `start_address` up to `end_address`
    /// inclusive at one baud rate, reporting each address to `progress`
    /// before its attempt. Matches come back in ascending address order, each
    /// probed exactly once; a range with `start_address > end_address` yields
    /// no results by construction.
    pub fn scan_addresses<S: SerialTransport, P: ProgressSink>(
        &self,
        transport: &mut S,
        baudrate: u32,
        start_address: u8,
        end_address: u8,
        progress: &mut P,
    ) -> (results: Vec<ScanResult>)
        ensures
            forall|i: int|
                0 <= i < results@.len() ==> well_formed_match(
                    #[trigger] results@[i],
                    baudrate,
                    start_address,
                    end_address,
                ),
            forall|i: int, j: int|
                0 <= i < j < results@.len() ==> results@[i].address < results@[j].address,
            start_address > end_address ==> results@.len() == 0,
    {
        sweep_range(
            transport,
            self.port_name.as_str(),
            self.timeout_ms,
            baudrate,
            start_address,
            end_address,
            progress,
            false,
        )
    }

    /// Sweeps the full cross-product: baud rates in the caller-supplied order
    /// as the outer loop, addresses ascending within each. Progress is
    /// reported for every baud-rate change and every address. The results
    /// decompose into one group per baud rate, in order, each group ascending
    /// by address.
    pub fn scan_all<S: SerialTransport, P: ProgressSink>(
        &self,
        transport: &mut S,
        baudrates: Vec<u32>,
        start_address: u8,
        end_address: u8,
        progress: &mut P,
    ) -> (results: Vec<ScanResult>)
        ensures
            exists|parts: Seq<Seq<ScanResult>>|
                grouped_by_baud(parts, results@, baudrates@, start_address, end_address),
            forall|i: int|
                0 <= i < results@.len() ==> some_baud_matches(
                    #[trigger] results@[i],
                    baudrates@,
                    start_address,
                    end_address,
                ),
            baudrates@.len() == 0 ==> results@.len() == 0,
            start_address > end_address ==> results@.len() == 0,
    {
        let mut results: Vec<ScanResult> = Vec::new();
        let ghost mut parts: Seq<Seq<ScanResult>> = Seq::empty();
        let mut b: usize = 0;
        proof {
            assert(results@ =~= parts.flatten());
        }
        while b < baudrates.len()
            invariant
                b <= baudrates@.len(),
                parts.len() == b,
                results@ == parts.flatten(),
                forall|p: int, i: int|
                    0 <= p < parts.len() && 0 <= i < parts[p].len() ==> well_formed_match(
                        #[trigger] parts[p][i],
                        baudrates@[p],
                        start_address,
                        end_address,
                    ),
                forall|p: int, i: int, j: int|
                    #![trigger parts[p][i], parts[p][j]]
                    0 <= p < parts.len() && 0 <= i < j < parts[p].len() ==> parts[p][i].address
                        < parts[p][j].address,
                forall|i: int|
                    0 <= i < results@.len() ==> some_baud_matches(
                        #[trigger] results@[i],
                        baudrates@,
                        start_address,
                        end_address,
                    ),
                start_address > end_address ==> results@.len() == 0,
            decreases baudrates@.len() - b,
        {
            let baudrate = baudrates[b];
            let message = baud_message(baudrate);
            progress.report(message.as_str());
            let mut batch = sweep_range(
                transport,
                self.port_name.as_str(),
                self.timeout_ms,
                baudrate,
                start_address,
                end_address,
                progress,
                true,
            );
            let ghost batch_view = batch@;
            let ghost old_results = results@;
            let ghost old_parts = parts;
            results.append(&mut batch);
            proof {
                old_parts.lemma_flatten_push(batch_view);
                parts = old_parts.push(batch_view);
                assert(results@ == parts.flatten());
                assert forall|i: int| 0 <= i < results@.len() implies some_baud_matches(
                    #[trigger] results@[i],
                    baudrates@,
                    start_address,
                    end_address,
                ) by {
                    if i < old_results.len() {
                        assert(results@[i] == old_results[i]);
                    } else {
                        assert(results@[i] == batch_view[i - old_results.len()]);
                        assert(0 <= b < baudrates@.len() && well_formed_match(
                            results@[i],
                            baudrates@[b as int],
                            start_address,
                            end_address,
                        ));
                    }
                }
            }
            b = b + 1;
        }
        proof {
            assert(grouped_by_baud(parts, results@, baudrates@, start_address, end_address));
        }
        results
    }

    /// Probes addresses ascending at one baud rate and stops at the first
    /// match; exhausting the range without one yields nothing. A match
    /// carries the probed address and baud rate and a well-formed reply.
    pub fn scan_first_found<S: SerialTransport, P: ProgressSink>(
        &self,
        transport: &mut S,
        baudrate: u32,
        start_address: u8,
        end_address: u8,
        progress: &mut P,
    ) -> (r: Option<ScanResult>)
        ensures
            r matches Some(m) ==> well_formed_match(m, baudrate, start_address, end_address),
            start_address > end_address ==> r is None,
    {
        if start_address > end_address {
            return None;
        }
        let mut a: u16 = start_address as u16;
        while a <= end_address as u16
            invariant
                start_address <= end_address,
                start_address as int <= a as int <= end_address as int + 1,
            decreases end_address as int + 1 - a as int,
        {
            let address = a as u8;
            let message = address_message(address);
            progress.report(message.as_str());
            if let Some(result) = try_device_detection(
                transport,
                self.port_name.as_str(),
                baudrate,
                address,
                self.timeout_ms,
            ) {
                return Some(result);
            }
            a = a + 1;
        }
        None
    }
}

/// Sweeps the full cross-product on a freshly configured scanner: equivalent
/// to constructing a [`ModbusScanner`] for `port_name` and `timeout_ms` and
/// calling `scan_all`.
pub fn quick_scan<S: SerialTransport, P: ProgressSink>(
    transport: &mut S,
    port_name: &str,
    baudrates: Vec<u32>,
    start_address: u8,
    end_address: u8,
    timeout_ms: u64,
    progress: &mut P,
) -> (results: Vec<ScanResult>)
    ensures
        exists|parts: Seq<Seq<ScanResult>>|
            grouped_by_baud(parts, results@, baudrates@, start_address, end_address),
        baudrates@.len() == 0 ==> results@.len() == 0,
        start_address > end_address ==> results@.len() == 0,
{
    let scanner = ModbusScanner::new(port_name, timeout_ms);
    scanner.scan_all(transport, baudrates, start_address, end_address, progress)
}

} // verus!
