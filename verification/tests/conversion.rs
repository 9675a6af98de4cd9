use mlx9061x::conversion::{emissivity_from_raw, emissivity_to_raw, temperature, EMISSIVITY_ONE};
use mlx9061x::ic::Mlx90615;
use mlx9061x::{BusRead, Error, Fraction, Mlx9061x, Next, SlaveAddr, TempType};

fn device() -> Mlx9061x<Mlx90615> {
    Mlx9061x::new_mlx90615::<()>(SlaveAddr::default(), 5).unwrap()
}

#[test]
fn temperature_of_the_fixture_in_celsius() {
    // 0x9B65 counts * 0.02 - 273.15 = 522.47
    assert_eq!(temperature(0x9B65, Some(TempType::Celsius)), 522_470);
}

#[test]
fn temperature_of_the_fixture_in_fahrenheit() {
    // 522.47 * 1.8 + 32 = 972.446
    assert_eq!(temperature(0x9B65, Some(TempType::Fahrenheit)), 972_446);
}

#[test]
fn temperature_without_a_scale_is_celsius() {
    assert_eq!(temperature(0x9B65, None), 522_470);
    for raw in [0u16, 1, 13657, 13658, 0x3AD2, 0x7FFF, 0xFFFF] {
        assert_eq!(temperature(raw, None), temperature(raw, Some(TempType::Celsius)));
    }
}

#[test]
fn temperature_at_the_ends_of_the_register() {
    assert_eq!(temperature(0, None), -273_150);
    assert_eq!(temperature(0, Some(TempType::Fahrenheit)), -459_670);
    assert_eq!(temperature(0xFFFF, None), 1_037_550);
    assert_eq!(temperature(0xFFFF, Some(TempType::Fahrenheit)), 1_899_590);
}

#[test]
fn temperature_near_the_freezing_point() {
    // 273.14 K and 273.16 K
    assert_eq!(temperature(13657, None), -10);
    assert_eq!(temperature(13658, None), 10);
    assert_eq!(temperature(13657, Some(TempType::Fahrenheit)), 31_982);
    assert_eq!(temperature(13658, Some(TempType::Fahrenheit)), 32_018);
}

#[test]
fn fahrenheit_is_nine_fifths_of_celsius_and_32() {
    for raw in [0u16, 1, 2, 3, 4, 5, 13657, 0x9B65, 0xFFFE, 0xFFFF] {
        let celsius = temperature(raw, None);
        let fahrenheit = temperature(raw, Some(TempType::Fahrenheit));
        assert_eq!(5 * (fahrenheit - 32_000), 9 * celsius);
    }
}

#[test]
fn ambient_temperature_of_the_fixture() {
    let dev = device();
    assert_eq!(dev.ambient_temperature::<()>(None, Some(Ok([0x65, 0x9B, 0xA2]))), Next::Finished(Ok(522_470)));
    assert_eq!(
        dev.ambient_temperature::<()>(Some(TempType::Celsius), Some(Ok([0x65, 0x9B, 0xA2]))),
        Next::Finished(Ok(522_470))
    );
    assert_eq!(
        dev.ambient_temperature::<()>(Some(TempType::Fahrenheit), Some(Ok([0x65, 0x9B, 0xA2]))),
        Next::Finished(Ok(972_446))
    );
}

#[test]
fn object_temperature_of_the_fixture() {
    let dev = device();
    assert_eq!(dev.object_temperature::<()>(None, Some(Ok([0x65, 0x9B, 0xB4]))), Next::Finished(Ok(522_470)));
    assert_eq!(
        dev.object_temperature::<()>(Some(TempType::Celsius), Some(Ok([0x65, 0x9B, 0xB4]))),
        Next::Finished(Ok(522_470))
    );
    assert_eq!(
        dev.object_temperature::<()>(Some(TempType::Fahrenheit), Some(Ok([0x65, 0x9B, 0xB4]))),
        Next::Finished(Ok(972_446))
    );
}

#[test]
fn object_temperature_is_not_read_from_the_ambient_register() {
    let dev = device();
    // A reply to a read of the ambient register does not pass for the object's.
    assert_eq!(
        dev.object_temperature::<()>(None, Some(Ok([0x65, 0x9B, 0xA2]))),
        Next::Finished(Err(Error::ChecksumMismatch))
    );
    assert_eq!(
        dev.ambient_temperature::<()>(None, Some(Ok([0x65, 0x9B, 0xB4]))),
        Next::Finished(Err(Error::ChecksumMismatch))
    );
}

#[test]
fn temperature_asks_for_its_register() {
    let dev = device();
    assert_eq!(
        dev.ambient_temperature::<()>(None, None),
        Next::Perform(BusRead { address: 0x5A, command: 0x26 })
    );
    assert_eq!(
        dev.object_temperature::<()>(Some(TempType::Fahrenheit), None),
        Next::Perform(BusRead { address: 0x5A, command: 0x27 })
    );
}

#[test]
fn temperature_is_not_exposed_on_a_wrong_checksum() {
    let dev = device();
    assert_eq!(
        dev.ambient_temperature::<()>(None, Some(Ok([0x65, 0x9B, 0xA3]))),
        Next::Finished(Err(Error::ChecksumMismatch))
    );
    assert_eq!(
        dev.object_temperature::<()>(Some(TempType::Fahrenheit), Some(Ok([0x65, 0x9B, 0x00]))),
        Next::Finished(Err(Error::ChecksumMismatch))
    );
}

#[test]
fn temperature_hands_on_the_error_of_the_bus() {
    let dev = device();
    assert_eq!(dev.ambient_temperature(None, Some(Err(3u8))), Next::Finished(Err(Error::I2C(3u8))));
    assert_eq!(dev.object_temperature(None, Some(Err(4u8))), Next::Finished(Err(Error::I2C(4u8))));
}

#[test]
fn read_temperature_takes_any_register() {
    let dev = device();
    assert_eq!(dev.read_temperature::<()>(0x26, None, Some(Ok([0x65, 0x9B, 0xA2]))), Next::Finished(Ok(522_470)));
    assert_eq!(
        dev.read_temperature::<()>(0x27, Some(TempType::Fahrenheit), Some(Ok([0x65, 0x9B, 0xB4]))),
        Next::Finished(Ok(972_446))
    );
}

#[test]
fn emissivity_of_the_full_register_is_one() {
    assert_eq!(EMISSIVITY_ONE, 16384);
    let epsilon = emissivity_from_raw(16384);
    assert_eq!(epsilon, Fraction { numerator: 16384, denominator: 16384 });
    assert_eq!(epsilon.numerator as f32 / epsilon.denominator as f32, 1.0);
}

#[test]
fn emissivity_is_read_in_16384ths() {
    assert_eq!(emissivity_from_raw(0), Fraction { numerator: 0, denominator: 16384 });
    assert_eq!(emissivity_from_raw(8192), Fraction { numerator: 8192, denominator: 16384 });
    assert_eq!(emissivity_from_raw(0xFFFF), Fraction { numerator: 65535, denominator: 16384 });
    let dev = device();
    assert_eq!(dev.emissivity::<()>(None), Next::Perform(BusRead { address: 0x5A, command: 0x13 }));
    assert_eq!(
        dev.emissivity::<()>(Some(Ok([0x00, 0x40, 0xFE]))),
        Next::Finished(Ok(Fraction { numerator: 16384, denominator: 16384 }))
    );
    assert_eq!(
        dev.emissivity::<()>(Some(Ok([0x00, 0x40, 0xFF]))),
        Next::Finished(Err(Error::ChecksumMismatch))
    );
    assert_eq!(dev.emissivity(Some(Err(2u8))), Next::Finished(Err(Error::I2C(2u8))));
}

#[test]
fn emissivity_one_encodes_to_16384() {
    assert_eq!(emissivity_to_raw(Fraction { numerator: 1, denominator: 1 }), Some(16384));
    assert_eq!(emissivity_to_raw(Fraction { numerator: 100, denominator: 100 }), Some(16384));
    assert_eq!(
        emissivity_to_raw(Fraction { numerator: i32::MAX, denominator: i32::MAX as u32 }),
        Some(16384)
    );
}

#[test]
fn emissivity_is_rounded_to_the_nearest_count() {
    assert_eq!(emissivity_to_raw(Fraction { numerator: 0, denominator: 1 }), Some(0));
    assert_eq!(emissivity_to_raw(Fraction { numerator: 1, denominator: 2 }), Some(8192));
    // 0.95 * 16384 = 15564.8
    assert_eq!(emissivity_to_raw(Fraction { numerator: 95, denominator: 100 }), Some(15565));
    // 16384 / 3 = 5461.33, 2 * 16384 / 3 = 10922.67
    assert_eq!(emissivity_to_raw(Fraction { numerator: 1, denominator: 3 }), Some(5461));
    assert_eq!(emissivity_to_raw(Fraction { numerator: 2, denominator: 3 }), Some(10923));
}

#[test]
fn emissivity_half_a_count_is_rounded_up() {
    assert_eq!(emissivity_to_raw(Fraction { numerator: 1, denominator: 32768 }), Some(1));
    assert_eq!(emissivity_to_raw(Fraction { numerator: 3, denominator: 32768 }), Some(2));
    assert_eq!(emissivity_to_raw(Fraction { numerator: 1, denominator: 32769 }), Some(0));
    assert_eq!(emissivity_to_raw(Fraction { numerator: 1, denominator: u32::MAX }), Some(0));
}

#[test]
fn emissivity_outside_zero_to_one_is_refused() {
    assert_eq!(emissivity_to_raw(Fraction { numerator: -1, denominator: 10 }), None);
    assert_eq!(emissivity_to_raw(Fraction { numerator: 11, denominator: 10 }), None);
    assert_eq!(emissivity_to_raw(Fraction { numerator: i32::MIN, denominator: 1 }), None);
    assert_eq!(emissivity_to_raw(Fraction { numerator: i32::MAX, denominator: 1 }), None);
    assert_eq!(emissivity_to_raw(Fraction { numerator: 0, denominator: 0 }), None);
    assert_eq!(emissivity_to_raw(Fraction { numerator: 1, denominator: 0 }), None);
}

#[test]
fn emissivity_read_and_written_back_is_unchanged() {
    for raw in [0u16, 1, 2, 8191, 8192, 15565, 16383, 16384] {
        assert_eq!(emissivity_to_raw(emissivity_from_raw(raw)), Some(raw));
    }
    assert_eq!(emissivity_to_raw(emissivity_from_raw(16385)), None);
}
