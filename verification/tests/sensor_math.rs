use ac_scheduler::sensors::bme280::{
    calibration_from_registers, compensate_humidity, compensate_temperature,
    humidity_compensation_fits, raw_readings, read_measurement, select_address,
    temperature_compensation_fits, Bme280Calibration, BME280_CHIP_ID,
};

fn sample_calibration() -> Bme280Calibration {
    calibration_from_registers(
        &[0x70, 0x6B, 0x43, 0x67, 0x18, 0xFC],
        75,
        &[0x6A, 0x01, 0x00, 0x13, 0x29, 0x03, 0x1E],
    )
}

#[test]
fn calibration_registers_decode() {
    let c = sample_calibration();
    assert_eq!(c.dig_t1, 27504);
    assert_eq!(c.dig_t2, 26435);
    assert_eq!(c.dig_t3, -1000);
    assert_eq!(c.dig_h1, 75);
    assert_eq!(c.dig_h2, 362);
    assert_eq!(c.dig_h3, 0);
    assert_eq!(c.dig_h4, 313);
    assert_eq!(c.dig_h5, 50);
    assert_eq!(c.dig_h6, 30);
    let z = Bme280Calibration::default();
    assert_eq!(z.dig_t1, 0);
}

#[test]
fn humidity_calibration_h4_h5_are_signed() {
    let c = calibration_from_registers(
        &[0x70, 0x6B, 0x43, 0x67, 0x18, 0xFC],
        75,
        &[0x6A, 0x01, 0x00, 0xFF, 0x29, 0x80, 0x1E],
    );
    // H4 = 0xFF9 and H5 = 0x802 as signed 12-bit values.
    assert_eq!(c.dig_h4, -7);
    assert_eq!(c.dig_h5, -2046);
    let c = calibration_from_registers(
        &[0x70, 0x6B, 0x43, 0x67, 0x18, 0xFC],
        75,
        &[0x6A, 0x01, 0x00, 0x7F, 0xF0, 0x7F, 0x1E],
    );
    assert_eq!(c.dig_h4, 2032);
    assert_eq!(c.dig_h5, 2047);
}

#[test]
fn temperature_matches_datasheet_example() {
    let c = sample_calibration();
    assert!(temperature_compensation_fits(519888, &c));
    assert_eq!(compensate_temperature(519888, &c), (2508, 128422));
}

#[test]
fn humidity_exact_value() {
    let c = sample_calibration();
    assert!(humidity_compensation_fits(30000, 128422, &c));
    assert_eq!(compensate_humidity(30000, 128422, &c), 56317);
}

#[test]
fn measurement_decodes_and_checks_range() {
    let c = sample_calibration();
    let data = [0x7E, 0xED, 0x00, 0x75, 0x30];
    assert_eq!(raw_readings(&data), (519888, 30000));
    assert_eq!(read_measurement(&data, &c), Ok((2508, 56317)));
    // A temperature far below -20 degrees is rejected.
    let cold = [0x00, 0x00, 0x00, 0x75, 0x30];
    assert_eq!(
        read_measurement(&cold, &c),
        Err("BME280 reading out of physical range".to_string())
    );
}

#[test]
fn overflowing_calibration_is_rejected() {
    let mut c = sample_calibration();
    c.dig_t2 = i16::MAX;
    c.dig_t1 = 0;
    assert!(!temperature_compensation_fits(0x7FFFFFFF, &c));
    let data = [0xFF, 0xFF, 0xF0, 0x00, 0x00];
    c.dig_t3 = i16::MAX;
    assert_eq!(
        read_measurement(&data, &c),
        Err("BME280 compensation overflow".to_string())
    );
}

#[test]
fn address_selection_prefers_primary() {
    assert_eq!(select_address(Some(BME280_CHIP_ID), Some(BME280_CHIP_ID)), Some(0x76));
    assert_eq!(select_address(Some(0x58), Some(BME280_CHIP_ID)), Some(0x77));
    assert_eq!(select_address(None, Some(0x58)), None);
}
