use dnspeek::config::PacketType;
use dnspeek::pipeline::capture_session;
use dnspeek::pipeline::capture_step;
use dnspeek::pipeline::dispatch_records;
use dnspeek::pipeline::filter_excludes;
use dnspeek::pipeline::handle_frame;
use dnspeek::view::table::TableView;
use dnspeek::view::PacketInfo;

fn dns_frame(flags1: u8, dst: [u8; 4]) -> Vec<u8> {
    let mut f = vec![0x10, 0x20, 0x30, 0x40, 0x50, 0x60, 0x0a, 0x0b, 0x0c, 0x0d, 0x0e, 0x0f];
    f.extend_from_slice(&[0x08, 0x00]);
    f.extend_from_slice(&[0x45, 0x00, 0x00, 0x50, 0x12, 0x34, 0x00, 0x00, 0x40, 17, 0x00, 0x00]);
    f.extend_from_slice(&[1, 2, 3, 4]);
    f.extend_from_slice(&dst);
    f.extend_from_slice(&[0x30, 0x39, 0x00, 0x35, 0x00, 0x30, 0x00, 0x00]);
    f.extend_from_slice(&[0xab, 0xcd, flags1, 0x00, 0x00, 0x01, 0x00, 0x00, 0x00, 0x00, 0x00, 0x00]);
    f.extend_from_slice(&[7]);
    f.extend_from_slice(b"example");
    f.extend_from_slice(&[3]);
    f.extend_from_slice(b"com");
    f.extend_from_slice(&[0x00, 0x00, 0x01, 0x00, 0x01]);
    f
}

#[test]
fn filter_excludes_configured_kind_only() {
    let query = PacketInfo {
        msg_type: PacketType::Query,
        ..PacketInfo::default()
    };
    let response = PacketInfo {
        msg_type: PacketType::Response,
        ..PacketInfo::default()
    };
    assert!(filter_excludes(&query, Some(PacketType::Query)));
    assert!(!filter_excludes(&response, Some(PacketType::Query)));
    assert!(filter_excludes(&response, Some(PacketType::Response)));
    assert!(!filter_excludes(&query, Some(PacketType::Response)));
    assert!(!filter_excludes(&query, None));
    assert!(!filter_excludes(&response, None));
}

#[test]
fn handle_frame_applies_filter() {
    let query = dns_frame(0x00, [5, 6, 7, 8]);
    let response = dns_frame(0x80, [5, 6, 7, 8]);
    assert!(handle_frame(&query, Some(PacketType::Query)).is_none());
    assert!(handle_frame(&response, Some(PacketType::Query)).is_some());
    assert!(handle_frame(&query, Some(PacketType::Response)).is_some());
    assert!(handle_frame(&response, Some(PacketType::Response)).is_none());
    assert!(handle_frame(&query, None).is_some());
    assert!(handle_frame(&response, None).is_some());
}

#[test]
fn dispatch_keeps_capture_order_and_drops_noise() {
    let frames = vec![
        dns_frame(0x00, [5, 6, 7, 1]),
        vec![0u8; 10],
        dns_frame(0x80, [5, 6, 7, 2]),
        dns_frame(0x00, [5, 6, 7, 3]),
    ];
    let records = dispatch_records(&frames, None);
    assert_eq!(records.len(), 3);
    assert_eq!(records[0].dst, dnspeek::view::IpAddress::V4(5, 6, 7, 1));
    assert_eq!(records[1].dst, dnspeek::view::IpAddress::V4(5, 6, 7, 2));
    assert_eq!(records[2].dst, dnspeek::view::IpAddress::V4(5, 6, 7, 3));
}

#[test]
fn capture_step_stops_on_cancellation() {
    assert!(capture_step(false));
    assert!(!capture_step(true));
}

#[test]
fn cancellation_stops_forwarding() {
    let pulled = vec![
        dns_frame(0x00, [5, 6, 7, 1]),
        dns_frame(0x00, [5, 6, 7, 2]),
        dns_frame(0x00, [5, 6, 7, 3]),
        dns_frame(0x00, [5, 6, 7, 4]),
    ];
    let cancelled = vec![false, false, true, false];
    let sent = capture_session(&pulled, &cancelled);
    assert_eq!(sent.len(), 2);
    assert_eq!(sent[0], pulled[0]);
    assert_eq!(sent[1], pulled[1]);
}

#[test]
fn queued_frames_drain_after_cancellation() {
    // Two valid query frames, then cancellation: both queued frames are still
    // decoded and rendered, and one flush surrenders both rows in order.
    let pulled = vec![
        dns_frame(0x00, [5, 6, 7, 1]),
        dns_frame(0x00, [5, 6, 7, 2]),
        dns_frame(0x00, [5, 6, 7, 3]),
    ];
    let cancelled = vec![false, false, true];
    let sent = capture_session(&pulled, &cancelled);
    assert_eq!(sent.len(), 2);
    let records = dispatch_records(&sent, None);
    assert_eq!(records.len(), 2);
    let mut table = TableView::new(true, false, false);
    for rec in &records {
        table.render(rec);
    }
    let rows = table.flush();
    assert_eq!(rows.len(), 2);
    assert_eq!(rows[0], vec!["5.6.7.1".to_string(), "example.com".to_string()]);
    assert_eq!(rows[1], vec!["5.6.7.2".to_string(), "example.com".to_string()]);
    assert_eq!(table.flush().len(), 0);
}
