use netsim::pcap::{file_header, record_header, Endian, LogError, LogState, RECORD_HEADER_LEN};
use netsim::IpPacket;

fn u32_at(b: &[u8], i: usize) -> u32 {
    u32::from_ne_bytes([b[i], b[i + 1], b[i + 2], b[i + 3]])
}

fn u16_at(b: &[u8], i: usize) -> u16 {
    u16::from_ne_bytes([b[i], b[i + 1]])
}

/// The machine's own byte order.
fn native() -> Endian {
    if 1u32.to_ne_bytes()[0] == 1 {
        Endian::Little
    } else {
        Endian::Big
    }
}

fn sample_packet(len: usize) -> IpPacket {
    let mut b: Vec<u8> = (0..len).map(|i| i as u8).collect();
    b[0] = 0x45;
    IpPacket::from_bytes(b)
}

#[test]
fn file_header_fields() {
    let (h, order) = file_header();
    assert_eq!(order, native());
    assert_eq!(u32_at(&h, 0), 0xa1b2_3c4d);
    assert_eq!(u16_at(&h, 4), 2);
    assert_eq!(u16_at(&h, 6), 4);
    assert_eq!(u32_at(&h, 8), 0);
    assert_eq!(u32_at(&h, 12), 0);
    assert_eq!(u32_at(&h, 16), 65_536);
    assert_eq!(u32_at(&h, 20), 101);
}

#[test]
fn record_header_fields() {
    let h = record_header(native(), 1_600_000_000, 123_456_789, 60);
    assert_eq!(u32_at(&h, 0), 1_600_000_000);
    assert_eq!(u32_at(&h, 4), 123_456_789);
    assert_eq!(u32_at(&h, 8), 60);
    assert_eq!(u32_at(&h, 12), 60);
}

#[test]
fn record_header_truncates_seconds() {
    let h = record_header(native(), (1u64 << 32) + 5, 0, 3);
    assert_eq!(u32_at(&h, 0), 5);
}

#[test]
fn record_header_in_each_byte_order() {
    let big = record_header(Endian::Big, 0x0102_0304, 0x0506_0708, 0x090a);
    assert_eq!(
        &big[..],
        &[1, 2, 3, 4, 5, 6, 7, 8, 0, 0, 9, 10, 0, 0, 9, 10][..]
    );
    let little = record_header(Endian::Little, 0x0102_0304, 0x0506_0708, 0x090a);
    assert_eq!(
        &little[..],
        &[4, 3, 2, 1, 8, 7, 6, 5, 10, 9, 0, 0, 10, 9, 0, 0][..]
    );
}

#[test]
fn log_records_use_file_byte_order() {
    let (_, order) = file_header();
    let mut state = LogState::new(order);
    state.start_send(sample_packet(12), 0x0102_0304, 9).unwrap();
    let header = state.chunk().to_vec();
    assert_eq!(&header[..], &record_header(order, 0x0102_0304, 9, 12)[..]);
    assert_eq!(u32_at(&header, 0), 0x0102_0304);
    assert_eq!(u32_at(&header, 8), 12);
}

/// Drains the log with writes of at most `max` bytes, returning everything written.
fn drain(state: &mut LogState, max: usize) -> Vec<u8> {
    let mut out = Vec::new();
    while !state.is_ready() {
        let chunk = state.chunk();
        let n = chunk.len().min(max);
        out.extend_from_slice(&chunk[..n]);
        state.advance(n);
    }
    out
}

#[test]
fn log_writes_header_then_packet() {
    let mut state = LogState::new(native());
    assert!(state.is_ready());
    let p = sample_packet(40);
    let bytes = p.clone().into_bytes();
    state.start_send(p, 7, 8).unwrap();
    assert!(!state.is_ready());
    assert_eq!(state.chunk().len(), RECORD_HEADER_LEN);
    let out = drain(&mut state, 5);
    assert_eq!(out.len(), RECORD_HEADER_LEN + 40);
    assert_eq!(&out[..16], &record_header(native(), 7, 8, 40)[..]);
    assert_eq!(&out[16..], &bytes[..]);
    assert!(state.is_ready());
}

#[test]
fn log_refuses_packet_while_busy() {
    let mut state = LogState::new(native());
    state.start_send(sample_packet(20), 1, 2).unwrap();
    state.advance(3);
    assert_eq!(state.start_send(sample_packet(20), 3, 4), Err(LogError::WouldBlock));
    assert_eq!(state.chunk().len(), RECORD_HEADER_LEN - 3);
    let out = drain(&mut state, 1000);
    assert_eq!(out.len(), RECORD_HEADER_LEN - 3 + 20);
}

#[test]
fn log_partial_payload_writes() {
    let mut state = LogState::new(native());
    state.start_send(sample_packet(10), 0, 0).unwrap();
    state.advance(RECORD_HEADER_LEN);
    assert_eq!(state.chunk().len(), 10);
    state.advance(4);
    assert_eq!(state.chunk().len(), 6);
    state.advance(0);
    assert_eq!(state.chunk().len(), 6);
    state.advance(6);
    assert!(state.is_ready());
    assert_eq!(state.chunk().len(), 0);
}

#[test]
fn log_failure_is_recorded() {
    let mut state = LogState::new(native());
    state.start_send(sample_packet(10), 0, 0).unwrap();
    state.fail();
    assert!(state.has_failed());
    assert!(!state.is_ready());
}
