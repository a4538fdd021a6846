//! The serial line, as one probe attempt sees it.
//!
//! Modbus RTU frames carry no length prefix; the end of a reply is signalled
//! by inter-frame silence. A probe therefore opens the port, clears stale
//! bytes, writes its request, waits a settling delay, and then drains the
//! line until a poll finds it quiet. [`SerialTransport`] captures exactly the
//! primitives that discipline needs, so the scanner can run against a real
//! port or against a scripted stand-in. Every environmental failure is folded
//! into "no device for this attempt": `open` and `write_all` answer with a
//! plain `bool`, and a read error simply ends the drain.

use vstd::prelude::*;

verus! {

/// How long a probe waits after sending its request before polling for reply
/// bytes, in milliseconds: the addressed device needs time to begin
/// transmitting.
pub const SETTLE_DELAY_MS: u64 = 200;

/// How long a probe waits between two polls while draining the line, in
/// milliseconds: additional bytes of the same frame may still be arriving.
pub const POLL_DELAY_MS: u64 = 10;

/// One probe attempt's serial session. A session is opened, used and closed
/// within a single attempt; no state survives to the next one.
///
/// Implementations over real hardware should honour [`SETTLE_DELAY_MS`] and
/// [`POLL_DELAY_MS`] in `settle` and `poll_pause`, and bound each read by the
/// timeout handed to `open`. A scripted implementation may make every method
/// immediate.
pub trait SerialTransport {
    /// Opens the named port at the requested baud rate with a read timeout.
    /// `false` means the attempt yields no device; the sweep continues.
    fn open(&mut self, port_name: &str, baud_rate: u32, timeout_ms: u64) -> bool;

    /// Discards any stale bytes in the input and output buffers, left over
    /// from a previous attempt or from device chatter.
    fn clear_buffers(&mut self);

    /// Writes the request frame. `false` means the attempt yields no device.
    fn write_all(&mut self, data: &[u8]) -> bool;

    /// Pushes any buffered output onto the wire. `false` means the attempt
    /// yields no device, just as a failed write does.
    fn flush(&mut self) -> bool;

    /// Waits the settling delay after a request, so the addressed device can
    /// begin transmitting.
    fn settle(&mut self);

    /// Waits the inter-poll delay while draining, so bytes still in flight
    /// can arrive before the next quiet-check.
    fn poll_pause(&mut self);

    /// How many reply bytes are ready right now; zero means the line is
    /// quiet.
    fn bytes_available(&mut self) -> usize;

    /// Reads up to `max_len` of the ready bytes. `None` means a read error;
    /// the drain ends and whatever was gathered so far is classified.
    fn read_chunk(&mut self, max_len: usize) -> Option<Vec<u8>>;

    /// Releases the session; the next attempt starts from nothing.
    fn close(&mut self);
}

/// One scripted exchange: the reply a device would give when probed at this
/// baud rate and address.
pub struct ScriptedReply {
    pub baud_rate: u32,
    pub address: u8,
    pub reply: Vec<u8>,
}

/// A scripted transport for exercising the scanner without hardware.
///
/// It answers a probe with the scripted reply for the open baud rate and the
/// written frame's address byte, and stays silent for every other
/// combination. Every request actually written is logged in `probes`, so a
/// caller can check which combinations a sweep tried and in what order.
pub struct ScriptedTransport {
    /// The script: which (baud rate, address) pairs answer, and with what.
    pub replies: Vec<ScriptedReply>,
    /// Every (baud rate, address) pair that a request was written for, in
    /// order.
    pub probes: Vec<(u32, u8)>,
    /// The baud rate handed to the last `open`.
    pub open_baud: u32,
    /// Whether a session is currently open.
    pub is_open: bool,
    /// Reply bytes scripted for the written request and not yet read.
    pub pending: Vec<u8>,
}

impl ScriptedTransport {
    /// A transport that will follow the given script.
    pub fn new(replies: Vec<ScriptedReply>) -> (transport: ScriptedTransport)
        ensures
            transport.replies == replies,
            transport.probes@.len() == 0,
    {
        ScriptedTransport {
            replies: replies,
            probes: Vec::new(),
            open_baud: 0,
            is_open: false,
            pending: Vec::new(),
        }
    }
}

impl SerialTransport for ScriptedTransport {
    fn open(&mut self, _port_name: &str, baud_rate: u32, _timeout_ms: u64) -> bool {
        self.open_baud = baud_rate;
        self.is_open = true;
        self.pending.clear();
        true
    }

    fn clear_buffers(&mut self) {
        self.pending.clear();
    }

    fn write_all(&mut self, data: &[u8]) -> bool {
        if !self.is_open || data.len() == 0 {
            return false;
        }
        let address = data[0];
        self.probes.push((self.open_baud, address));
        let mut i: usize = 0;
        while i < self.replies.len()
            invariant
                i <= self.replies@.len(),
            decreases self.replies@.len() - i,
        {
            if self.replies[i].baud_rate == self.open_baud && self.replies[i].address == address {
                self.pending.clear();
                let mut j: usize = 0;
                while j < self.replies[i].reply.len()
                    invariant
                        i < self.replies@.len(),
                        j <= self.replies@[i as int].reply@.len(),
                    decreases self.replies@[i as int].reply@.len() - j,
                {
                    let b = self.replies[i].reply[j];
                    self.pending.push(b);
                    j = j + 1;
                }
                return true;
            }
            i = i + 1;
        }
        true
    }

    fn flush(&mut self) -> bool {
        true
    }

    fn settle(&mut self) {
    }

    fn poll_pause(&mut self) {
    }

    fn bytes_available(&mut self) -> usize {
        self.pending.len()
    }

    fn read_chunk(&mut self, max_len: usize) -> Option<Vec<u8>> {
        let mut chunk: Vec<u8> = Vec::new();
        let mut taken: usize = 0;
        while taken < max_len && taken < self.pending.len()
            invariant
                taken <= self.pending@.len(),
            decreases self.pending@.len() - taken,
        {
            let b = self.pending[taken];
            chunk.push(b);
            taken = taken + 1;
        }
        let mut rest: Vec<u8> = Vec::new();
        let mut k: usize = taken;
        while k < self.pending.len()
            invariant
                k <= self.pending@.len(),
            decreases self.pending@.len() - k,
        {
            let b = self.pending[k];
            rest.push(b);
            k = k + 1;
        }
        self.pending = rest;
        Some(chunk)
    }

    fn close(&mut self) {
        self.is_open = false;
        self.pending.clear();
    }
}

} // verus!
