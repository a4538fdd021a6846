//! Discovery of Modbus RTU devices on a serial bus.
//!
//! The scanner probes every combination of device address and baud rate with a
//! fixed diagnostic request (function code 17) and classifies any reply by the
//! Modbus RTU framing rules: minimum length, address and function echo, and a
//! trailing CRC-16 over the preceding bytes.
//!
//! The serial line itself is reached through the [`SerialTransport`] trait, so
//! the sweep logic can be exercised against a scripted transport without
//! hardware; a real port-backed implementation lives outside the verified
//! library.

pub mod checksum;
pub mod frame;
pub mod progress;
pub mod render;
pub mod scanner;
pub mod transport;
pub mod validate;

pub use checksum::calculate_crc16;
pub use frame::create_command_17;
pub use progress::{NoProgress, ProgressSink, RecordingProgress};
pub use scanner::{ModbusScanner, ScanResult, quick_scan, try_device_detection};
pub use transport::{ScriptedReply, ScriptedTransport, SerialTransport};
pub use transport::{POLL_DELAY_MS, SETTLE_DELAY_MS};
pub use validate::validate_response;
