use iperf3_rust::message::StreamStats;
use iperf3_rust::ui::{bitrate_unit, bits_of, byte_unit, index_column, BitrateUnit, ByteUnit, IndexColumn};

#[test]
fn byte_units_by_threshold() {
    assert_eq!(byte_unit(0), ByteUnit::Bytes);
    assert_eq!(byte_unit(1023), ByteUnit::Bytes);
    assert_eq!(byte_unit(1024), ByteUnit::KBytes);
    assert_eq!(byte_unit(1024 * 1024 - 1), ByteUnit::KBytes);
    assert_eq!(byte_unit(1024 * 1024), ByteUnit::MBytes);
    assert_eq!(byte_unit(1024 * 1024 * 1024), ByteUnit::GBytes);
    assert_eq!(byte_unit(1024 * 1024 * 1024 * 1024), ByteUnit::TBytes);
}

#[test]
fn bitrate_units_follow_byte_count() {
    assert_eq!(bitrate_unit(5_000_000_000, true), BitrateUnit::Bits);
    assert_eq!(bitrate_unit(999_999, false), BitrateUnit::Kbits);
    assert_eq!(bitrate_unit(1_000_000, false), BitrateUnit::Mbits);
    assert_eq!(bitrate_unit(1_000_000_000, false), BitrateUnit::Gbits);
    assert_eq!(bitrate_unit(1_000_000_000_000, false), BitrateUnit::Tbits);
}

#[test]
fn bits_of_bytes() {
    assert_eq!(bits_of(0), 0);
    assert_eq!(bits_of(125), 1000);
}

#[test]
fn index_column_total_or_interval() {
    let mut s = StreamStats {
        id: 1,
        index: Some(4),
        duration: 1000,
        bytes_transferred: 1,
        retransmits: None,
        cwnd: None,
        is_peer: false,
        is_summary: false,
    };
    assert_eq!(index_column(&s), IndexColumn::Interval(4));
    s.index = None;
    assert_eq!(index_column(&s), IndexColumn::Interval(0));
    s.is_summary = true;
    assert_eq!(index_column(&s), IndexColumn::Total);
}
