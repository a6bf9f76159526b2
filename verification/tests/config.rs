//! The configuration grammar and its numeric fields.

use fantasy_vm::config_file_parse::try_parse::{try_parse_number, NumberParseError};
use fantasy_vm::config_file_parse::{Config, ConfigErrorKind, DeviceType, LibraryType};

#[test]
fn parses_decimal_hex_and_binary() {
    assert_eq!(try_parse_number("123"), Ok(123));
    assert_eq!(try_parse_number("0"), Ok(0));
    assert_eq!(try_parse_number("0x10"), Ok(16));
    assert_eq!(try_parse_number("0xAbCd"), Ok(0xabcd));
    assert_eq!(try_parse_number("0b101"), Ok(5));
    assert_eq!(try_parse_number("18446744073709551615"), Ok(u64::MAX));
    assert_eq!(try_parse_number("0xffffffffffffffff"), Ok(u64::MAX));
}

#[test]
fn negative_numbers_wrap() {
    assert_eq!(try_parse_number("-1"), Ok(u64::MAX));
    assert_eq!(try_parse_number("-0x10"), Ok(0u64.wrapping_sub(16)));
    assert_eq!(try_parse_number("-0b1"), Ok(u64::MAX));
    assert_eq!(try_parse_number("-0"), Ok(0));
}

#[test]
fn bad_numbers_are_rejected() {
    assert_eq!(try_parse_number(""), Err(NumberParseError::Empty));
    assert_eq!(try_parse_number("-"), Err(NumberParseError::Empty));
    assert_eq!(try_parse_number("0x"), Err(NumberParseError::Empty));
    assert_eq!(try_parse_number("0b"), Err(NumberParseError::Empty));
    assert_eq!(try_parse_number("12z"), Err(NumberParseError::InvalidDigit));
    assert_eq!(try_parse_number("0b102"), Err(NumberParseError::InvalidDigit));
    assert_eq!(try_parse_number("0xfg"), Err(NumberParseError::InvalidDigit));
    assert_eq!(
        try_parse_number("18446744073709551616"),
        Err(NumberParseError::Overflow)
    );
    assert_eq!(
        try_parse_number("0x10000000000000000"),
        Err(NumberParseError::Overflow)
    );
}

#[test]
fn parses_address_and_port_device_lines() {
    let text = "\naddress-device library ./ram.so 0x100 0x1000 ram\n\n   \nport-device library ./serial.so 7 serial\n";
    let config = Config::parse_config(text).unwrap();
    let entries = config.entries();
    assert_eq!(entries.len(), 2);
    assert_eq!(entries[0].library_path, "./ram.so".to_string());
    assert_eq!(entries[0].module_name, "ram".to_string());
    assert_eq!(entries[0].line_number, 2);
    assert!(matches!(entries[0].library_type, LibraryType::SharedLibrary));
    assert!(matches!(
        entries[0].device_type,
        DeviceType::AddressBus { start_address: 0x100, length: 0x1000 }
    ));
    assert_eq!(entries[1].library_path, "./serial.so".to_string());
    assert_eq!(entries[1].module_name, "serial".to_string());
    assert_eq!(entries[1].line_number, 5);
    assert!(matches!(entries[1].device_type, DeviceType::PortBus(7)));
}

#[test]
fn blank_configuration_has_no_entries() {
    let config = Config::parse_config("\n\n   \t \n").unwrap();
    assert_eq!(config.entries().len(), 0);
    let config = Config::parse_config("").unwrap();
    assert_eq!(config.entries().len(), 0);
}

#[test]
fn unknown_device_kind_is_reported_with_its_line() {
    let err = Config::parse_config("\n\nrom-device library x 0 0 y\n").unwrap_err();
    assert_eq!(err.line_number, 3);
    assert!(matches!(err.kind, ConfigErrorKind::UnknownDeviceType));
}

#[test]
fn wrong_field_count_is_reported() {
    let err = Config::parse_config("address-device library x 0 0\n").unwrap_err();
    assert_eq!(err.line_number, 1);
    assert!(matches!(err.kind, ConfigErrorKind::WrongFieldCount));
    let err = Config::parse_config("port-device library x 0 y z\n").unwrap_err();
    assert!(matches!(err.kind, ConfigErrorKind::WrongFieldCount));
}

#[test]
fn unknown_library_kind_is_reported() {
    let err = Config::parse_config("address-device jar x 0 0 y\n").unwrap_err();
    assert!(matches!(err.kind, ConfigErrorKind::UnknownLibraryType));
}

#[test]
fn bad_number_field_is_reported() {
    let err = Config::parse_config("address-device library x 0q 0 y\n").unwrap_err();
    assert!(matches!(
        err.kind,
        ConfigErrorKind::InvalidNumber(NumberParseError::InvalidDigit)
    ));
    let err = Config::parse_config("port-device library x 0x y\n").unwrap_err();
    assert!(matches!(
        err.kind,
        ConfigErrorKind::InvalidNumber(NumberParseError::Empty)
    ));
}

#[test]
fn oversized_port_is_reported() {
    let err = Config::parse_config("port-device library x 0x10000 y\n").unwrap_err();
    assert!(matches!(err.kind, ConfigErrorKind::PortTooLarge));
    let config = Config::parse_config("port-device library x 0xffff y\n").unwrap();
    assert!(matches!(
        config.entries()[0].device_type,
        DeviceType::PortBus(0xffff)
    ));
}

#[test]
fn python_library_kind_parses() {
    let config = Config::parse_config("port-device python x 1 y\n").unwrap();
    assert!(matches!(
        config.entries()[0].library_type,
        LibraryType::Python
    ));
}

#[test]
fn first_bad_line_wins() {
    let text = "port-device library x 1 y\nbad-device library x 1 y\naddress-device jar x 0 0 y\n";
    let err = Config::parse_config(text).unwrap_err();
    assert_eq!(err.line_number, 2);
    assert!(matches!(err.kind, ConfigErrorKind::UnknownDeviceType));
}
