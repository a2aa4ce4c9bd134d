use serial_bevy::log::format_file_timestamp;
use serial_bevy::log::format_log_timestamp;
use serial_bevy::log::log_entry;
use serial_bevy::log::log_file_name;
use serial_bevy::log::sanitize_log_name;
use serial_bevy::log::timestamped_log_entry;
use serial_bevy::DataSource;
use serial_bevy::PortData;

#[test]
fn test_sanitize_log_name() {
    assert_eq!(
        sanitize_log_name("/dev/ttyUSB0_20250101.txt"),
        "logs/dev_ttyUSB0_20250101.txt"
    );
    assert_eq!(sanitize_log_name("COM3_x.txt"), "logs/COM3_x.txt");
    assert_eq!(sanitize_log_name("\\\\share\\f.txt"), "logs/share_f.txt");
}

#[test]
fn test_add_source_file_sanitizes() {
    let mut data = PortData::new();
    let count = data.add_source_file(String::from("/dev/ttyUSB0_1.txt"));
    assert_eq!(count, 1);
    assert_eq!(data.get_source_file_name(0), "logs/dev_ttyUSB0_1.txt");
    assert_eq!(data.get_source_file_name(5), "");
    assert_eq!(data.source_file_index(), 1);
}

#[test]
fn test_parse_file_bookkeeping() {
    let mut data = PortData::new();
    assert_eq!(data.add_parse_file(String::from("out.txt")), 1);
    assert_eq!(data.get_parse_file_name(0), "out.txt");
    assert_eq!(data.parse_file_index(), 1);
}

#[test]
fn test_format_log_timestamp() {
    let ts = format_log_timestamp(2024, 1, 2, 3, 4, 5, 6);
    assert_eq!(ts, "20240102 03:04:05.006");
}

#[test]
fn test_format_file_timestamp() {
    let ts = format_file_timestamp(2024, 12, 31, 23, 59, 9);
    assert_eq!(ts, "20241231_235909");
}

#[test]
fn test_log_entry_format() {
    let entry = log_entry("20240102 03:04:05.006", DataSource::Write, b"hi");
    assert_eq!(entry, b"\n[20240102 03:04:05.006 T]hi".to_vec());
    let entry = log_entry("t", DataSource::Read, b"x");
    assert_eq!(entry, b"\n[t R]x".to_vec());
    let entry = log_entry("t", DataSource::Error, b"x");
    assert_eq!(entry, b"\n[t E]x".to_vec());
}

#[test]
fn test_timestamped_log_entry_shape() {
    let entry = timestamped_log_entry(DataSource::Write, b"payload");
    let text = String::from_utf8(entry).unwrap();
    assert!(text.starts_with("\n["));
    assert!(text.contains(" T]"));
    assert!(text.ends_with("payload"));
}

#[test]
fn test_log_file_name_shape() {
    let name = log_file_name("COM3");
    assert!(name.starts_with("COM3_"));
    assert!(name.ends_with(".txt"));
}

#[test]
fn test_data_source_tags() {
    assert_eq!(DataSource::Write.as_str(), "T");
    assert_eq!(DataSource::Read.as_str(), "R");
    assert_eq!(DataSource::Error.as_str(), "E");
}
