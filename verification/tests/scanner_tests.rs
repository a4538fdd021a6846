use modbus_scanner::calculate_crc16;
use modbus_scanner::ModbusScanner;
use modbus_scanner::NoProgress;
use modbus_scanner::RecordingProgress;
use modbus_scanner::quick_scan;
use modbus_scanner::ScriptedReply;
use modbus_scanner::ScriptedTransport;
use modbus_scanner::SerialTransport;

/// A transport whose output can never be flushed; everything else behaves.
struct FlushlessTransport {}

impl SerialTransport for FlushlessTransport {
    fn open(&mut self, _port_name: &str, _baud_rate: u32, _timeout_ms: u64) -> bool {
        true
    }
    fn clear_buffers(&mut self) {}
    fn write_all(&mut self, _data: &[u8]) -> bool {
        true
    }
    fn flush(&mut self) -> bool {
        false
    }
    fn settle(&mut self) {}
    fn poll_pause(&mut self) {}
    fn bytes_available(&mut self) -> usize {
        0
    }
    fn read_chunk(&mut self, _max_len: usize) -> Option<Vec<u8>> {
        None
    }
    fn close(&mut self) {}
}

fn valid_reply(address: u8) -> Vec<u8> {
    let payload = vec![address, 0x11, 0x33, 0x44, 0x55];
    let mut reply = payload.clone();
    let crc = calculate_crc16(&payload);
    reply.push((crc % 256) as u8);
    reply.push((crc / 256) as u8);
    reply
}

fn stub_with_device(baud_rate: u32, address: u8) -> ScriptedTransport {
    ScriptedTransport::new(vec![ScriptedReply {
        baud_rate,
        address,
        reply: valid_reply(address),
    }])
}

#[test]
fn sweep_finds_the_one_device() {
    let mut transport = stub_with_device(9600, 10);
    let scanner = ModbusScanner::new("COM3", 1000);
    let mut progress = NoProgress::new();
    let results = scanner.scan_addresses(&mut transport, 9600, 1, 20, &mut progress);
    assert_eq!(results.len(), 1);
    assert_eq!(results[0].address, 10);
    assert_eq!(results[0].baudrate, 9600);
    assert_eq!(results[0].response, valid_reply(10));
}

#[test]
fn sweep_probes_every_address_once() {
    let mut transport = stub_with_device(9600, 10);
    let scanner = ModbusScanner::new("COM3", 1000);
    let mut progress = NoProgress::new();
    let _ = scanner.scan_addresses(&mut transport, 9600, 1, 20, &mut progress);
    let expected: Vec<(u32, u8)> = (1..=20).map(|a| (9600, a)).collect();
    assert_eq!(transport.probes, expected);
}

#[test]
fn first_found_stops_at_the_match() {
    let mut transport = stub_with_device(9600, 10);
    let scanner = ModbusScanner::new("COM3", 1000);
    let mut progress = NoProgress::new();
    let found = scanner.scan_first_found(&mut transport, 9600, 1, 20, &mut progress);
    let found = found.expect("the scripted device must be found");
    assert_eq!(found.address, 10);
    assert_eq!(found.baudrate, 9600);
    // Addresses past the match are never probed.
    let expected: Vec<(u32, u8)> = (1..=10).map(|a| (9600, a)).collect();
    assert_eq!(transport.probes, expected);
}

#[test]
fn first_found_exhausts_a_silent_range() {
    let mut transport = ScriptedTransport::new(vec![]);
    let scanner = ModbusScanner::new("COM3", 1000);
    let mut progress = NoProgress::new();
    let found = scanner.scan_first_found(&mut transport, 9600, 1, 20, &mut progress);
    assert!(found.is_none());
    assert_eq!(transport.probes.len(), 20);
}

#[test]
fn full_sweep_walks_bauds_in_order() {
    let mut transport = stub_with_device(19200, 3);
    let scanner = ModbusScanner::new("COM3", 1000);
    let mut progress = NoProgress::new();
    let results = scanner.scan_all(&mut transport, vec![9600, 19200], 1, 5, &mut progress);
    assert_eq!(results.len(), 1);
    assert_eq!(results[0].address, 3);
    assert_eq!(results[0].baudrate, 19200);
    // The whole 9600 pass runs before the 19200 pass begins.
    let mut expected: Vec<(u32, u8)> = (1..=5).map(|a| (9600, a)).collect();
    expected.extend((1..=5).map(|a| (19200, a)));
    assert_eq!(transport.probes, expected);
}

#[test]
fn sweep_returns_matches_in_ascending_address_order() {
    // The script lists the higher address first; the sweep still reports
    // matches in probing order.
    let mut transport = ScriptedTransport::new(vec![
        ScriptedReply { baud_rate: 9600, address: 12, reply: valid_reply(12) },
        ScriptedReply { baud_rate: 9600, address: 3, reply: valid_reply(3) },
    ]);
    let scanner = ModbusScanner::new("COM3", 1000);
    let mut progress = NoProgress::new();
    let results = scanner.scan_addresses(&mut transport, 9600, 1, 20, &mut progress);
    let addresses: Vec<u8> = results.iter().map(|r| r.address).collect();
    assert_eq!(addresses, vec![3, 12]);
}

#[test]
fn full_sweep_groups_matches_by_baud() {
    let mut transport = ScriptedTransport::new(vec![
        ScriptedReply { baud_rate: 19200, address: 2, reply: valid_reply(2) },
        ScriptedReply { baud_rate: 9600, address: 9, reply: valid_reply(9) },
    ]);
    let scanner = ModbusScanner::new("COM3", 1000);
    let mut progress = NoProgress::new();
    let results = scanner.scan_all(&mut transport, vec![9600, 19200], 1, 10, &mut progress);
    let found: Vec<(u32, u8)> = results.iter().map(|r| (r.baudrate, r.address)).collect();
    // Matches come back grouped by baud rate, in the caller-supplied order.
    assert_eq!(found, vec![(9600, 9), (19200, 2)]);
}

#[test]
fn single_probe_matches_and_misses() {
    let mut transport = stub_with_device(9600, 7);
    let scanner = ModbusScanner::new("COM3", 1000);
    let hit = scanner.scan_single(&mut transport, 7, 9600);
    assert!(hit.is_some());
    assert_eq!(hit.unwrap().address, 7);
    let miss = scanner.scan_single(&mut transport, 8, 9600);
    assert!(miss.is_none());
    let wrong_baud = scanner.scan_single(&mut transport, 7, 19200);
    assert!(wrong_baud.is_none());
}

#[test]
fn inverted_range_yields_nothing() {
    let mut transport = stub_with_device(9600, 10);
    let scanner = ModbusScanner::new("COM3", 1000);
    let mut progress = NoProgress::new();
    let results = scanner.scan_addresses(&mut transport, 9600, 20, 1, &mut progress);
    assert!(results.is_empty());
    assert!(transport.probes.is_empty());
    let first = scanner.scan_first_found(&mut transport, 9600, 20, 1, &mut progress);
    assert!(first.is_none());
    assert!(transport.probes.is_empty());
}

#[test]
fn quick_scan_is_a_full_sweep() {
    let mut transport = stub_with_device(19200, 3);
    let mut progress = NoProgress::new();
    let results = quick_scan(&mut transport, "COM3", vec![9600, 19200], 1, 5, 1000, &mut progress);
    assert_eq!(results.len(), 1);
    assert_eq!(results[0].address, 3);
    assert_eq!(results[0].baudrate, 19200);
}

#[test]
fn a_failed_flush_is_no_device() {
    let mut transport = FlushlessTransport {};
    let scanner = ModbusScanner::new("COM3", 1000);
    let found = scanner.scan_single(&mut transport, 7, 9600);
    assert!(found.is_none());
}

#[test]
fn a_garbled_reply_is_no_match() {
    // A device that answers with a corrupted checksum is treated like silence.
    let mut reply = valid_reply(4);
    let last = reply.len() - 1;
    reply[last] ^= 0xFF;
    let mut transport = ScriptedTransport::new(vec![ScriptedReply {
        baud_rate: 9600,
        address: 4,
        reply,
    }]);
    let scanner = ModbusScanner::new("COM3", 1000);
    let mut progress = NoProgress::new();
    let results = scanner.scan_addresses(&mut transport, 9600, 1, 5, &mut progress);
    assert!(results.is_empty());
}

#[test]
fn response_renders_as_uppercase_hex() {
    let mut transport = stub_with_device(9600, 10);
    let scanner = ModbusScanner::new("COM3", 1000);
    let hit = scanner.scan_single(&mut transport, 10, 9600).expect("must match");
    let reply = valid_reply(10);
    let rendered: Vec<String> = reply.iter().map(|b| format!("{:02X}", b)).collect();
    assert_eq!(hit.response_hex(), rendered.join(" "));
}

#[test]
fn progress_reports_each_address() {
    let mut transport = ScriptedTransport::new(vec![]);
    let scanner = ModbusScanner::new("COM3", 1000);
    let mut progress = RecordingProgress::new();
    let _ = scanner.scan_addresses(&mut transport, 9600, 1, 3, &mut progress);
    assert_eq!(
        progress.messages,
        vec![
            "Checking address 1...".to_string(),
            "Checking address 2...".to_string(),
            "Checking address 3...".to_string(),
        ]
    );
}

#[test]
fn progress_reports_baud_changes_and_addresses() {
    let mut transport = ScriptedTransport::new(vec![]);
    let scanner = ModbusScanner::new("COM3", 1000);
    let mut progress = RecordingProgress::new();
    let _ = scanner.scan_all(&mut transport, vec![9600, 19200], 1, 2, &mut progress);
    assert_eq!(
        progress.messages,
        vec![
            "Checking baud rate 9600...".to_string(),
            "  Address 1/2...".to_string(),
            "  Address 2/2...".to_string(),
            "Checking baud rate 19200...".to_string(),
            "  Address 1/2...".to_string(),
            "  Address 2/2...".to_string(),
        ]
    );
}

#[test]
fn first_found_reports_until_the_match() {
    let mut transport = stub_with_device(9600, 2);
    let scanner = ModbusScanner::new("COM3", 1000);
    let mut progress = RecordingProgress::new();
    let _ = scanner.scan_first_found(&mut transport, 9600, 1, 5, &mut progress);
    assert_eq!(
        progress.messages,
        vec![
            "Checking address 1...".to_string(),
            "Checking address 2...".to_string(),
        ]
    );
}
