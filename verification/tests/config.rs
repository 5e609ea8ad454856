use dnspeek::config::Config;
use dnspeek::config::ConfigError;
use dnspeek::config::FormatOptions;
use dnspeek::config::OutputFormat;
use dnspeek::config::PacketType;
use dnspeek::view::IpAddress;
use dnspeek::view::PacketInfo;

#[test]
fn packet_type_from_flag_letters() {
    assert_eq!(PacketType::from_str("q"), Ok(PacketType::Query));
    assert_eq!(PacketType::from_str("r"), Ok(PacketType::Response));
    assert_eq!(PacketType::from_str("x"), Err(ConfigError::UnknownFilter));
    assert_eq!(PacketType::from_str(""), Err(ConfigError::UnknownFilter));
    assert_eq!(PacketType::from_str("qq"), Err(ConfigError::UnknownFilter));
}

#[test]
fn output_format_from_names() {
    assert_eq!(OutputFormat::from_str("text"), Ok(OutputFormat::Text));
    assert_eq!(OutputFormat::from_str("table"), Ok(OutputFormat::Table));
    assert_eq!(OutputFormat::from_str("csv"), Ok(OutputFormat::Csv));
    assert_eq!(OutputFormat::from_str("json"), Err(ConfigError::UnknownFormat));
}

#[test]
fn format_options_from_letters() {
    let all = FormatOptions::from_str("pst").unwrap();
    assert!(all.port && all.service_name && all.packet_type);
    let some = FormatOptions::from_str("sp").unwrap();
    assert!(some.port && some.service_name && !some.packet_type);
    let none = FormatOptions::from_str("").unwrap();
    assert!(!none.port && !none.service_name && !none.packet_type);
    assert_eq!(FormatOptions::from_str("px"), Err(ConfigError::UnknownOption));
}

#[test]
fn config_parse_applies_defaults() {
    let c = Config::parse(None, None, None, None);
    assert!(c.device.is_none());
    assert!(c.filter.is_none());
    assert_eq!(c.options, FormatOptions::default());
    assert_eq!(c.format, OutputFormat::Text);
}

#[test]
fn config_parse_keeps_given_values() {
    let opts = FormatOptions { port: true, service_name: false, packet_type: true };
    let c = Config::parse(
        Some("eth0".to_string()),
        Some(PacketType::Response),
        Some(opts),
        Some(OutputFormat::Csv),
    );
    assert_eq!(c.device.as_deref(), Some("eth0"));
    assert_eq!(c.filter, Some(PacketType::Response));
    assert_eq!(c.options, opts);
    assert_eq!(c.format, OutputFormat::Csv);
}

#[test]
fn default_record_is_zeroed_query() {
    let rec = PacketInfo::default();
    assert_eq!(rec.src, IpAddress::V4(0, 0, 0, 0));
    assert_eq!(rec.src_port, 0);
    assert_eq!(rec.dst, IpAddress::V4(0, 0, 0, 0));
    assert_eq!(rec.dst_port, 0);
    assert_eq!(rec.query_name, "");
    assert_eq!(rec.msg_type, PacketType::Query);
}
