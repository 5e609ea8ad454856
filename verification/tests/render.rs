use dnspeek::config::PacketType;
use dnspeek::pipeline::handle_frame;
use dnspeek::view::addr_to_string;
use dnspeek::view::csv::CsvView;
use dnspeek::view::msg_type_to_string;
use dnspeek::view::table::TableView;
use dnspeek::view::text::TextView;
use dnspeek::view::IpAddress;
use dnspeek::view::PacketInfo;

fn query_frame() -> Vec<u8> {
    let mut f = vec![0x10, 0x20, 0x30, 0x40, 0x50, 0x60, 0x0a, 0x0b, 0x0c, 0x0d, 0x0e, 0x0f];
    f.extend_from_slice(&[0x08, 0x00]);
    f.extend_from_slice(&[0x45, 0x00, 0x00, 0x50, 0x12, 0x34, 0x00, 0x00, 0x40, 17, 0x00, 0x00]);
    f.extend_from_slice(&[1, 2, 3, 4]);
    f.extend_from_slice(&[5, 6, 7, 8]);
    f.extend_from_slice(&[0x30, 0x39, 0x00, 0x35, 0x00, 0x30, 0x00, 0x00]);
    f.extend_from_slice(&[0xab, 0xcd, 0x00, 0x00, 0x00, 0x01, 0x00, 0x00, 0x00, 0x00, 0x00, 0x00]);
    f.extend_from_slice(&[7]);
    f.extend_from_slice(b"example");
    f.extend_from_slice(&[3]);
    f.extend_from_slice(b"com");
    f.extend_from_slice(&[0x00, 0x00, 0x01, 0x00, 0x01]);
    f
}

fn sample_record() -> PacketInfo {
    PacketInfo::new(
        IpAddress::V4(1, 2, 3, 4),
        12345,
        IpAddress::V4(5, 6, 7, 8),
        53,
        "example.com".to_string(),
        PacketType::Query,
    )
}

#[test]
fn text_line_with_name() {
    // A captured query for example.com, text renderer, only the name toggle.
    let rec = handle_frame(&query_frame(), None).expect("frame should decode");
    let view = TextView::new(true);
    assert_eq!(view.render(&rec), "5.6.7.8 example.com");
}

#[test]
fn filtered_query_produces_no_line() {
    // Same frame, but the filter suppresses queries: nothing reaches a view.
    assert!(handle_frame(&query_frame(), Some(PacketType::Query)).is_none());
}

#[test]
fn text_line_without_name() {
    let view = TextView::new(false);
    assert_eq!(view.render(&sample_record()), "5.6.7.8");
}

#[test]
fn csv_line_all_fields() {
    let view = CsvView::new(true, true, true);
    assert_eq!(view.render(&sample_record()), "5.6.7.8,53,example.com,q");
}

#[test]
fn csv_line_no_toggles() {
    let view = CsvView::new(false, false, false);
    assert_eq!(view.render(&sample_record()), "5.6.7.8");
}

#[test]
fn csv_line_response_kind() {
    let mut rec = sample_record();
    rec.msg_type = PacketType::Response;
    let view = CsvView::new(false, true, false);
    assert_eq!(view.render(&rec), "5.6.7.8,r");
}

#[test]
fn table_accumulates_rows_in_order() {
    let mut table = TableView::new(true, true, true);
    let first = sample_record();
    let mut second = sample_record();
    second.dst = IpAddress::V4(9, 9, 9, 9);
    second.msg_type = PacketType::Response;
    table.render(&first);
    table.render(&second);
    let rows = table.flush();
    assert_eq!(rows.len(), 2);
    assert_eq!(rows[0], vec!["5.6.7.8", "53", "example.com", "q"]);
    assert_eq!(rows[1], vec!["9.9.9.9", "53", "example.com", "r"]);
    assert!(table.flush().is_empty());
}

#[test]
fn msg_type_single_letters() {
    assert_eq!(msg_type_to_string(PacketType::Query), "q");
    assert_eq!(msg_type_to_string(PacketType::Response), "r");
}

#[test]
fn v4_address_rendering() {
    assert_eq!(addr_to_string(&IpAddress::V4(0, 0, 0, 0)), "0.0.0.0");
    assert_eq!(addr_to_string(&IpAddress::V4(255, 255, 255, 255)), "255.255.255.255");
    assert_eq!(addr_to_string(&IpAddress::V4(10, 0, 200, 1)), "10.0.200.1");
}

#[test]
fn v6_address_rendering() {
    assert_eq!(
        addr_to_string(&IpAddress::V6(0x2001, 0x0db8, 0, 0, 0, 0, 0, 1)),
        "2001:db8:0:0:0:0:0:1"
    );
    assert_eq!(
        addr_to_string(&IpAddress::V6(0xffff, 0xffff, 0xffff, 0xffff, 0xffff, 0xffff, 0xffff, 0xffff)),
        "ffff:ffff:ffff:ffff:ffff:ffff:ffff:ffff"
    );
}

#[test]
fn port_rendering_covers_full_range() {
    let mut rec = sample_record();
    rec.dst_port = 65535;
    let view = CsvView::new(false, false, true);
    assert_eq!(view.render(&rec), "5.6.7.8,65535");
    rec.dst_port = 0;
    assert_eq!(view.render(&rec), "5.6.7.8,0");
}
