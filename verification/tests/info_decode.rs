use meterbin::info::decode_info;
use meterbin::records::DecodeError;
use meterbin::timestamp::Timestamp;

/// A well-formed 102-byte INFO buffer with every field set to a known value.
fn info_buffer() -> Vec<u8> {
    let mut b = vec![0u8; 102];
    b[0..5].copy_from_slice(b"INFO:");
    // Total power consumption: 1000 milli-kWh (1.000 kWh).
    b[5] = 0x00;
    b[6] = 0x03;
    b[7] = 0xE8;
    // Total recorded time: 300 centi-hours (3.00 h).
    b[8] = 0x00;
    b[9] = 0x01;
    b[10] = 0x2C;
    // Total on time: 100 centi-hours (1.00 h).
    b[11] = 0x00;
    b[12] = 0x00;
    b[13] = 0x64;
    for d in 0..10usize {
        // Daily kWh entry d: value d milli-kWh.
        b[14 + 3 * d + 2] = d as u8;
        // Daily recorded time entry d: value 10 + d centi-hours.
        b[44 + 2 * d + 1] = 10 + d as u8;
        // Daily on time entry d: value 20 + d centi-hours.
        b[64 + 2 * d + 1] = 20 + d as u8;
    }
    b[84] = 7; // unit id
    // Tariff 1: digits 1,2,3,4 -> 1.234.
    b[85] = 1;
    b[86] = 2;
    b[87] = 3;
    b[88] = 4;
    // Tariff 2: digits 0,0,0,0 -> 0.0.
    b[89] = 0;
    b[90] = 0;
    b[91] = 0;
    b[92] = 0;
    // 2023-05-01 12:34.
    b[93] = 12; // hour
    b[94] = 34; // minute
    b[95] = 5; // month
    b[96] = 1; // day
    b[97] = 23; // two-digit year
    // Terminator.
    b[98] = 0xFF;
    b[99] = 0xFF;
    b[100] = 0xFF;
    b[101] = 0xFF;
    b
}

#[test]
fn info_decodes_every_field() {
    let b = info_buffer();
    let info = decode_info(&b).unwrap();
    assert_eq!(info.total_power_consumption_milli_kwh, 1000);
    assert_eq!(info.total_recorded_time_centi_hours, 300);
    assert_eq!(info.total_on_time_centi_hours, 100);
    assert_eq!(info.daily_milli_kwh.len(), 10);
    assert_eq!(info.daily_recorded_centi_hours.len(), 10);
    assert_eq!(info.daily_on_centi_hours.len(), 10);
    for d in 0..10usize {
        assert_eq!(info.daily_milli_kwh[d], d as u32);
        assert_eq!(info.daily_recorded_centi_hours[d], 10 + d as u16);
        assert_eq!(info.daily_on_centi_hours[d], 20 + d as u16);
    }
    assert_eq!(info.unit_id, 7);
    assert_eq!(info.tariff1_milli, 1234);
    assert_eq!(info.tariff2_milli, 0);
    assert_eq!(
        info.timestamp,
        Timestamp { year: 2023, month: 5, day: 1, hour: 12, minute: 34 }
    );
}

#[test]
fn info_power_consumption_scales_to_one_kwh() {
    // Bytes {0x00, 0x03, 0xE8} at offset 5 are 1000, i.e. 1.000 kWh.
    let b = info_buffer();
    let info = decode_info(&b).unwrap();
    assert_eq!(info.total_power_consumption_milli_kwh as f32 / 1000.0, 1.000);
}

#[test]
fn info_tariffs_decode_positionally() {
    let b = info_buffer();
    let info = decode_info(&b).unwrap();
    assert_eq!(info.tariff1_milli as f64 / 1000.0, 1.234);
    assert_eq!(info.tariff2_milli as f64 / 1000.0, 0.0);
}

#[test]
fn info_tariff_digits_above_nine_are_accepted() {
    // The device never emits digits above 9, but such bytes still decode
    // positionally: {0, 0, 0, 255} is 255 thousandths.
    let mut b = info_buffer();
    b[88] = 255;
    let info = decode_info(&b).unwrap();
    assert_eq!(info.tariff1_milli, 1230 + 255);
}

#[test]
fn info_corrupt_terminator_is_rejected() {
    let mut b = info_buffer();
    b[100] = 0x00;
    assert_eq!(decode_info(&b).unwrap_err(), DecodeError::MissingTerminator);
}

#[test]
fn info_absent_terminator_is_rejected() {
    let mut b = info_buffer();
    b[98] = 0;
    b[99] = 0;
    b[100] = 0;
    b[101] = 0;
    assert_eq!(decode_info(&b).unwrap_err(), DecodeError::MissingTerminator);
}

#[test]
fn info_invalid_month_is_rejected() {
    let mut b = info_buffer();
    b[95] = 13;
    assert_eq!(decode_info(&b).unwrap_err(), DecodeError::InvalidDateTime);
}

#[test]
fn info_day_out_of_month_is_rejected() {
    let mut b = info_buffer();
    b[95] = 4; // April
    b[96] = 31;
    assert_eq!(decode_info(&b).unwrap_err(), DecodeError::InvalidDateTime);
}

#[test]
fn info_leap_day_depends_on_year() {
    let mut b = info_buffer();
    b[95] = 2; // February
    b[96] = 29;
    b[97] = 24; // 2024, a leap year
    let info = decode_info(&b).unwrap();
    assert_eq!(
        info.timestamp,
        Timestamp { year: 2024, month: 2, day: 29, hour: 12, minute: 34 }
    );
    b[97] = 23; // 2023 is not
    assert_eq!(decode_info(&b).unwrap_err(), DecodeError::InvalidDateTime);
}

#[test]
fn info_invalid_date_is_reported_before_missing_terminator() {
    let mut b = info_buffer();
    b[95] = 13;
    b[100] = 0x00;
    assert_eq!(decode_info(&b).unwrap_err(), DecodeError::InvalidDateTime);
}
