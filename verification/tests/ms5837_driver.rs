use sensor_drivers::ms5837::{
    adc_reading, crc4, new, Command, FactoryCalibrationData, OverSamplingRatio, SensorError,
    TemperaturePressureCounts,
};

const PROM: [u16; 7] = [0x6FA6, 0x8E00, 0x4F68, 0x5752, 0x6622, 0x6622, 0x6622];

#[test]
fn crc4_of_datasheet_prom() {
    let mut prom = PROM;
    prom[0] &= 0x0FFF;
    assert_eq!(crc4(&prom), 0x6);
    assert!(crc4(&[0xFFFF; 7]) < 16);
    assert!(crc4(&[]) < 16);
}

#[test]
fn prom_is_accepted_and_parsed() {
    let data = FactoryCalibrationData::from_prom::<()>(PROM).ok().unwrap();
    let sensor = new((), ()).into_initialised(data);
    // C5 = 0x6622, so a raw temperature of C5 * 256 is the reference
    assert_eq!(sensor.normalise_temperature(0x6622 * 256), 2000);
}

#[test]
fn prom_crc_mismatch() {
    let mut prom = PROM;
    prom[0] = 0x5FA6;
    assert_eq!(
        FactoryCalibrationData::from_prom::<()>(prom),
        Err(SensorError::PromCrcMismatch { got: 6, expected: 5 })
    );
}

#[test]
fn command_bytes() {
    assert_eq!(u8::from(Command::Reset), 0x1E);
    assert_eq!(u8::from(Command::AdcRead), 0x00);
    assert_eq!(u8::from(Command::ConvertD1(OverSamplingRatio::R4096)), 0b0100_1000);
    assert_eq!(u8::from(Command::ConvertD2(OverSamplingRatio::R4096)), 0b0101_1000);
    assert_eq!(u8::from(Command::ConvertD1(OverSamplingRatio::R256)), 0x40);
    for address in 0..7u8 {
        assert_eq!(u8::from(Command::PromRead(address)), 0xA0 + 2 * address);
    }
}

#[test]
fn conversion_times() {
    assert_eq!(OverSamplingRatio::R256.conversion_time_us(), 600);
    assert_eq!(OverSamplingRatio::R512.conversion_time_us(), 1170);
    assert_eq!(OverSamplingRatio::R1024.conversion_time_us(), 2280);
    assert_eq!(OverSamplingRatio::R2048.conversion_time_us(), 4540);
    assert_eq!(OverSamplingRatio::R4096.conversion_time_us(), 9040);
    assert_eq!(OverSamplingRatio::R2048.code(), 6);
}

#[test]
fn adc_bytes() {
    assert_eq!(adc_reading([0x67, 0xFE, 0xB6]), 0x67FEB6);
    assert_eq!(adc_reading([0xFF, 0xFF, 0xFF]), 0xFF_FFFF);
}

#[test]
fn compensation_of_datasheet_reading() {
    let data = FactoryCalibrationData::from_prom::<()>(PROM).ok().unwrap();
    let sensor = new((), ()).into_initialised(data);
    assert_eq!(
        sensor.normalise_raw_measurement(0x67FEB6, 0x4BA7E3),
        TemperaturePressureCounts { temperature: 2380, pressure: 181189 }
    );
    // below 20 degrees C: second-order terms of the cold range
    assert_eq!(
        sensor.normalise_raw_measurement(0x600000, 0x4BA7E3),
        TemperaturePressureCounts { temperature: 692, pressure: 181053 }
    );
    // below -15 degrees C: the extra terms of the very cold range
    assert_eq!(
        sensor.normalise_raw_measurement(0, 0x4BA7E3),
        TemperaturePressureCounts { temperature: -34508, pressure: 90152 }
    );
}

#[test]
fn first_order_temperature_rounds_towards_zero() {
    let data = FactoryCalibrationData::from_prom::<()>(PROM).ok().unwrap();
    let sensor = new((), ()).into_initialised(data);
    assert_eq!(sensor.normalise_temperature(0x67FEB6), 2380);
    assert_eq!(sensor.normalise_temperature(0), -18862);
}

#[test]
fn release_gives_back_handles() {
    let sensor = new(1u8, 2u16);
    assert_eq!(sensor.release(), (1u8, 2u16));
    let data = FactoryCalibrationData::from_prom::<()>(PROM).ok().unwrap();
    assert_eq!(new(3u8, 4u16).into_initialised(data).release(), (3u8, 4u16));
}

#[test]
fn bus_handles_are_lent_and_kept() {
    let mut sensor = new(1u8, 2u16);
    *sensor.i2c_mut() += 10;
    let data = FactoryCalibrationData::from_prom::<()>(PROM).ok().unwrap();
    let mut sensor = sensor.into_initialised(data);
    {
        let (i2c, sleep) = sensor.bus_mut();
        assert_eq!((*i2c, *sleep), (11u8, 2u16));
        *sleep = 5;
    }
    assert_eq!(sensor.normalise_temperature(0x67FEB6), 2380);
    assert_eq!(sensor.release(), (11u8, 5u16));
}
