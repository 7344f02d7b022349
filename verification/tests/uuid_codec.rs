use bluedroid::uuid::BleUuid;
use bluedroid::uuid::is_valid_uuid_str;

const BRIGHTNESS_UUID_STR: &str = "F9DFBD73-0181-433A-8091-372E0CA8A598";

const BRIGHTNESS_UUID_BYTES: [u8; 16] = [
    0x98, 0xA5, 0xA8, 0x0C, 0x2E, 0x37, 0x91, 0x80, 0x3A, 0x43, 0x81, 0x01, 0x73, 0xBD, 0xDF, 0xF9,
];

fn uuid128_bytes(uuid: &BleUuid) -> [u8; 16] {
    match uuid {
        BleUuid::Uuid128(bytes) => *bytes,
        _ => panic!("expected a 128-bit UUID"),
    }
}

#[test]
fn parses_dashed_uuid_string_little_endian() {
    let uuid = BleUuid::from_uuid128_str(BRIGHTNESS_UUID_STR);
    assert_eq!(uuid128_bytes(&uuid), BRIGHTNESS_UUID_BYTES);
}

#[test]
fn parses_plain_and_lower_case_uuid_string() {
    let plain = BleUuid::from_uuid128_str("f9dfbd730181433a8091372e0ca8a598");
    assert_eq!(uuid128_bytes(&plain), BRIGHTNESS_UUID_BYTES);
    assert!(plain == BleUuid::from_uuid128_str(BRIGHTNESS_UUID_STR));
}

#[test]
fn formats_uuid128_as_dashed_lower_case() {
    let uuid = BleUuid::from_uuid128(BRIGHTNESS_UUID_BYTES);
    assert_eq!(uuid.to_string(), "f9dfbd73-0181-433a-8091-372e0ca8a598");
}

#[test]
fn formats_uuid16_and_uuid32() {
    assert_eq!(BleUuid::from_uuid16(0x2902).to_string(), "0x2902");
    assert_eq!(BleUuid::from_uuid16(0x000a).to_string(), "0x000a");
    assert_eq!(BleUuid::from_uuid32(0xdeadbeef).to_string(), "0xdeadbeef");
    assert_eq!(BleUuid::from_uuid32(0x1).to_string(), "0x00000001");
}

#[test]
fn parse_format_parse_round_trip() {
    let once = BleUuid::from_uuid128_str(BRIGHTNESS_UUID_STR);
    let formatted = once.to_string();
    assert!(is_valid_uuid_str(&formatted));
    let twice = BleUuid::from_uuid128_string(&formatted);
    assert_eq!(uuid128_bytes(&once), uuid128_bytes(&twice));
    assert!(once == twice);
}

#[test]
fn uuid16_equals_its_expansion() {
    for x in [0u16, 1, 0x2902, 0x1800, 0xffff] {
        let short = BleUuid::from_uuid16(x);
        let expanded = BleUuid::from_uuid128(short.as_uuid128_array());
        assert!(short == expanded);
        assert!(expanded == short);
    }
}

#[test]
fn uuid16_expansion_lands_in_base_uuid() {
    let expanded = BleUuid::from_uuid16(0x2902).as_uuid128_array();
    let expected: [u8; 16] = [
        0xfb, 0x34, 0x9b, 0x5f, 0x80, 0x00, 0x00, 0x80, 0x00, 0x10, 0x00, 0x00, 0x02, 0x29, 0x00,
        0x00,
    ];
    assert_eq!(expanded, expected);
}

#[test]
fn uuid32_expansion_lands_in_base_uuid() {
    let expanded = BleUuid::from_uuid32(0x12345678).as_uuid128_array();
    let expected: [u8; 16] = [
        0xfb, 0x34, 0x9b, 0x5f, 0x80, 0x00, 0x00, 0x80, 0x00, 0x10, 0x00, 0x00, 0x78, 0x56, 0x34,
        0x12,
    ];
    assert_eq!(expanded, expected);
}

#[test]
fn distinct_uuids_are_unequal() {
    let a = BleUuid::from_uuid16(0x2902);
    let b = BleUuid::from_uuid16(0x2903);
    assert!(!(a == b));
    let c = BleUuid::from_uuid128_str(BRIGHTNESS_UUID_STR);
    assert!(!(a == c));
}

#[test]
fn rejects_malformed_uuid_strings() {
    assert!(!is_valid_uuid_str(""));
    assert!(!is_valid_uuid_str("xyz"));
    assert!(!is_valid_uuid_str("f9dfbd730181433a8091372e0ca8a59"));
    assert!(!is_valid_uuid_str("f9dfbd730181433a8091372e0ca8a5981"));
    assert!(!is_valid_uuid_str("f9dfbd73-0181-433a-8091-372e0ca8a59g"));
    assert!(!is_valid_uuid_str("--------------------------------"));
}

#[test]
fn accepts_well_formed_uuid_strings() {
    assert!(is_valid_uuid_str(BRIGHTNESS_UUID_STR));
    assert!(is_valid_uuid_str("f9dfbd730181433a8091372e0ca8a598"));
    assert!(is_valid_uuid_str("00000000-0000-0000-0000-000000000000"));
}
