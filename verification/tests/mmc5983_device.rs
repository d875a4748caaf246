use sensor_drivers::mmc5983::device::{
    check_product_id, decode_magnetic_field, init_sequence, Command, OneShotStep, RegisterWrite,
};
use sensor_drivers::mmc5983::interface::{I2cInterface, SpiInterface};
use sensor_drivers::mmc5983::magnetometer::continuous_sequence;
use sensor_drivers::mmc5983::register_address::RegRead;
use sensor_drivers::mmc5983::types::StatusFlags;
use sensor_drivers::mmc5983::{
    BandwidthMode, Error, MagMode, MagOutputDataRate, MagneticField, Mmc5983, ProductId,
    SetResetPeriod, Status,
};

fn field(x: u32, y: u32, z: u32) -> MagneticField {
    <MagneticField as RegRead<(u32, u32, u32)>>::from_data((x, y, z))
}

fn continuous(rate: MagOutputDataRate, period: Option<SetResetPeriod>) -> Vec<Command> {
    let (cmds, len) = continuous_sequence(rate, period);
    cmds[..len].to_vec()
}

fn run<DI, M>(dev: &mut Mmc5983<DI, M>, cmds: &[Command]) -> Vec<RegisterWrite> {
    let mut writes = Vec::new();
    for cmd in cmds {
        writes.push(dev.command_write(*cmd));
        dev.command_done(*cmd);
    }
    writes
}

#[test]
fn new_driver_state_and_destroy() {
    let dev = Mmc5983::new_with_i2c(7u32);
    assert_eq!(dev.offset(), field(131072, 131072, 131072));
    assert_eq!(dev.ctrl_reg2().bits(), 0);
    assert_eq!(dev.destroy(), 7u32);
    let mut dev = Mmc5983::new_with_spi("spi");
    assert_eq!(dev.iface_mut().spi, "spi");
    dev.iface_mut().spi = "other";
    assert_eq!(dev.ctrl_reg2().bits(), 0);
    assert_eq!(dev.destroy(), "other");
}

#[test]
fn init_writes() {
    let mut dev = Mmc5983::new_with_i2c(());
    let writes = run(&mut dev, &init_sequence());
    assert_eq!(
        writes,
        vec![
            RegisterWrite { addr: 0x0A, data: 0x80 },
            RegisterWrite { addr: 0x09, data: 0x40 },
            RegisterWrite { addr: 0x09, data: 0x44 },
            RegisterWrite { addr: 0x0A, data: 0x00 },
        ]
    );
    // the measurement trigger keeps the OTP and interrupt flags
    assert_eq!(dev.command_write(Command::MeasureMagneticField), RegisterWrite { addr: 0x09, data: 0x45 });
    assert_eq!(dev.command_write(Command::MeasureTemperature), RegisterWrite { addr: 0x09, data: 0x46 });
}

#[test]
fn product_id_errors() {
    assert!(check_product_id::<()>(ProductId::from_bits_truncate(0x30)).is_ok());
    match check_product_id::<()>(ProductId::from_bits_truncate(0x12)) {
        Err(Error::InvalidId(id)) => assert_eq!(id.raw(), 0x12),
        _ => panic!("expected InvalidId"),
    }
}

#[test]
fn set_and_reset_pulses_are_not_kept() {
    let mut dev = Mmc5983::new_with_i2c(());
    let writes = run(&mut dev, &[Command::SetPulse, Command::ResetPulse, Command::SetExtraPulse, Command::ResetExtraPulse]);
    assert_eq!(
        writes,
        vec![
            RegisterWrite { addr: 0x09, data: 0x08 },
            RegisterWrite { addr: 0x09, data: 0x10 },
            RegisterWrite { addr: 0x0C, data: 0x01 },
            RegisterWrite { addr: 0x0C, data: 0x02 },
        ]
    );
    assert_eq!(dev.command_write(Command::MeasureMagneticField).data, 0x01);
    assert_eq!(Command::SetPulse.settle_time_ns(), 1000);
    assert_eq!(Command::ResetPulse.settle_time_ns(), 1000);
    assert_eq!(Command::SetExtraPulse.settle_time_ns(), 500);
    assert_eq!(Command::ResetExtraPulse.settle_time_ns(), 500);
    assert_eq!(Command::MeasureTemperature.settle_time_ns(), 0);
}

#[test]
fn software_reset_clears_control_1() {
    let mut dev = Mmc5983::new_with_i2c(());
    run(&mut dev, &[Command::SetBandwidth(BandwidthMode::Hz800)]);
    assert_eq!(dev.command_write(Command::SoftwareReset).data, 0x83);
    dev.command_done(Command::SoftwareReset);
    assert_eq!(dev.command_write(Command::SoftwareReset).data, 0x80);
}

#[test]
fn decode_field_exact() {
    let buffer = [0x80, 0x01, 0x12, 0x34, 0xFF, 0xFF, 0b11_01_10_00];
    let f = decode_magnetic_field(&buffer);
    assert_eq!(f.x_raw(), (0x80 << 10) | (0x01 << 2) | 0b11);
    assert_eq!(f.y_raw(), (0x12 << 10) | (0x34 << 2) | 0b01);
    assert_eq!(f.z_raw(), (0xFF << 10) | (0xFF << 2) | 0b10);
    assert_eq!(decode_magnetic_field(&[0xFF; 7]).x_raw(), 262143);
}

#[test]
fn calibration_offset_and_wrapping() {
    let mut dev = Mmc5983::new_with_i2c(());
    let off = dev.record_offset(field(131000, 100, 7), field(131010, 300, 8));
    assert_eq!(off, field(131005, 200, 7));
    assert_eq!(dev.offset(), off);
    let cal = dev.calibrated(field(131006, 200, 6));
    assert_eq!(cal.x_raw(), 1);
    assert_eq!(cal.y_raw(), 0);
    assert_eq!(cal.z_raw(), u32::MAX);
    assert_eq!(cal.z_raw() as i32, -1);
}

#[test]
fn one_shot_step_decision() {
    let dev = Mmc5983::new_with_i2c(());
    let done = Status::new(StatusFlags::from_bits_truncate(1));
    let not_done = Status::new(StatusFlags::from_bits_truncate(2));
    assert_eq!(dev.one_shot_step(done), OneShotStep::ReadField);
    assert_eq!(dev.one_shot_step(not_done), OneShotStep::Trigger(Command::MeasureMagneticField));
}

const ALL_RATES: [MagOutputDataRate; 7] = [
    MagOutputDataRate::Hz1,
    MagOutputDataRate::Hz10,
    MagOutputDataRate::Hz20,
    MagOutputDataRate::Hz50,
    MagOutputDataRate::Hz100,
    MagOutputDataRate::Hz200,
    MagOutputDataRate::Hz1000,
];

#[test]
fn continuous_mode_round_trip() {
    for rate in ALL_RATES {
        for period in [None, Some(SetResetPeriod::Every1), Some(SetResetPeriod::Every75), Some(SetResetPeriod::Every2000)] {
            let mut dev = Mmc5983::new_with_spi(());
            run(&mut dev, &continuous(rate, period));
            assert_eq!(dev.ctrl_reg2().bits() & 0x08, 0x08);
            let dev = dev.into_continuous_mode();
            assert_eq!(dev.get_mode_config(), MagMode::Continuous { frequency: rate, set_period: period });
        }
    }
}

#[test]
fn continuous_mode_slow_rate_round_trip() {
    let mut dev = Mmc5983::new_with_spi(());
    let writes = run(&mut dev, &continuous(MagOutputDataRate::Hz1, Some(SetResetPeriod::Every25)));
    assert_eq!(
        writes,
        vec![RegisterWrite { addr: 0x0B, data: 0x90 }, RegisterWrite { addr: 0x0B, data: 0x99 }]
    );
    let dev = dev.into_continuous_mode();
    assert_eq!(
        dev.get_mode_config(),
        MagMode::Continuous { frequency: MagOutputDataRate::Hz1, set_period: Some(SetResetPeriod::Every25) }
    );
}

#[test]
fn continuous_settings_and_back_to_oneshot() {
    let mut dev = Mmc5983::new_with_i2c(());
    let writes = run(&mut dev, &continuous(MagOutputDataRate::Hz100, None));
    assert_eq!(writes, vec![RegisterWrite { addr: 0x0B, data: 0x0D }]);
    let mut dev = dev.into_continuous_mode();
    let writes = run(&mut dev, &[Command::EnableAutoSetReset(SetResetPeriod::Every100)]);
    assert_eq!(writes, vec![RegisterWrite { addr: 0x0B, data: 0xBD }]);
    assert_eq!(
        dev.get_mode_config(),
        MagMode::Continuous { frequency: MagOutputDataRate::Hz100, set_period: Some(SetResetPeriod::Every100) }
    );
    let writes = run(&mut dev, &[Command::SetFrequency(MagOutputDataRate::Hz1000)]);
    assert_eq!(writes, vec![RegisterWrite { addr: 0x0B, data: 0xBF }]);
    assert_eq!(
        dev.get_mode_config(),
        MagMode::Continuous { frequency: MagOutputDataRate::Hz1000, set_period: Some(SetResetPeriod::Every100) }
    );
    run(&mut dev, &[Command::DisableAutoSetReset]);
    assert_eq!(
        dev.get_mode_config(),
        MagMode::Continuous { frequency: MagOutputDataRate::Hz1000, set_period: None }
    );
    let writes = run(&mut dev, &[Command::DisableContinuous]);
    assert_eq!(writes, vec![RegisterWrite { addr: 0x0B, data: 0b0011_0111 }]);
    let dev = dev.into_oneshot_mode();
    assert_eq!(dev.ctrl_reg2().bits(), 0b0011_0111);
}

#[test]
fn set_frequency_keeps_continuous_mode_on() {
    for start in ALL_RATES {
        for rate in ALL_RATES {
            let mut dev = Mmc5983::new_with_i2c(());
            run(&mut dev, &continuous(start, Some(SetResetPeriod::Every500)));
            let mut dev = dev.into_continuous_mode();
            let writes = run(&mut dev, &[Command::SetFrequency(rate)]);
            assert_eq!(writes[0].data & 0xF8, 0x80 | 0x50 | 0x08);
            assert_eq!(writes[0].data & 0x07, rate.bits());
            assert_eq!(
                dev.get_mode_config(),
                MagMode::Continuous { frequency: rate, set_period: Some(SetResetPeriod::Every500) }
            );
        }
    }
}

#[test]
fn bandwidth_write_keeps_other_bits() {
    let mut dev = Mmc5983::new_with_spi(());
    run(&mut dev, &init_sequence());
    for (bw, code) in [
        (BandwidthMode::Hz100, 0u8),
        (BandwidthMode::Hz200, 1),
        (BandwidthMode::Hz400, 2),
        (BandwidthMode::Hz800, 3),
    ] {
        let writes = run(&mut dev, &[Command::SetBandwidth(bw)]);
        assert_eq!(writes, vec![RegisterWrite { addr: 0x0A, data: code }]);
    }
}

#[test]
fn i2c_and_spi_drivers_write_alike() {
    let mut on_i2c = Mmc5983::new_with_i2c(());
    let mut on_spi = Mmc5983::new_with_spi(());
    let mut cmds = init_sequence().to_vec();
    cmds.extend(continuous(MagOutputDataRate::Hz20, Some(SetResetPeriod::Every250)));
    cmds.push(Command::SetFrequency(MagOutputDataRate::Hz200));
    cmds.push(Command::DisableContinuous);
    let writes_i2c = run(&mut on_i2c, &cmds);
    let writes_spi = run(&mut on_spi, &cmds);
    assert_eq!(writes_i2c, writes_spi);
    for w in writes_i2c {
        assert_eq!(
            I2cInterface::<()>::write_payload(w.addr, w.data),
            SpiInterface::<()>::write_payload(w.addr, w.data)
        );
    }
}

#[test]
fn interface_framing() {
    assert_eq!(I2cInterface::<()>::write_payload(0x0B, 0x85), [0x0B, 0x85]);
    assert_eq!(I2cInterface::<()>::read_command(0x2F), [0x2F]);
    assert_eq!(SpiInterface::<()>::write_payload(0x89, 0x01), [0x09, 0x01]);
    assert_eq!(SpiInterface::<()>::read_register_frame(0x08), [0x88, 0x00]);
    let frame = SpiInterface::<()>::consecutive_frame::<()>(0x05, 7).ok().unwrap();
    assert_eq!(frame.len(), 32);
    assert_eq!(frame[0], 0x85);
    assert!(frame[1..].iter().all(|b| *b == 0));
    let mut buffer = [0u8; 3];
    SpiInterface::<()>::frame_data(&[0x80, 1, 2, 3], &mut buffer);
    assert_eq!(buffer, [1, 2, 3]);
    assert!(SpiInterface::<()>::consecutive_frame::<()>(0x00, 31).is_ok());
    match SpiInterface::<()>::consecutive_frame::<()>(0x00, 32) {
        Err(Error::InvalidInputData) => {}
        _ => panic!("expected InvalidInputData"),
    }
}

#[test]
fn calibration_is_undone_by_adding_the_offset() {
    let mut dev = Mmc5983::new_with_i2c(());
    let off = dev.record_offset(field(10, 20, 30), field(20, 40, 60));
    for raw in [field(0, 0, 0), field(15, 30, 45), field(262143, 1, 29)] {
        let cal = dev.calibrated(raw);
        assert_eq!(cal.x_raw().wrapping_add(off.x_raw()), raw.x_raw());
        assert_eq!(cal.y_raw().wrapping_add(off.y_raw()), raw.y_raw());
        assert_eq!(cal.z_raw().wrapping_add(off.z_raw()), raw.z_raw());
    }
    assert_eq!(dev.calibrated(off), field(0, 0, 0));
}

#[test]
fn communication_error_conversion() {
    let e: Error<u8> = 5u8.into();
    match e {
        Error::Comm(c) => assert_eq!(c, 5),
        _ => panic!("expected Comm"),
    }
}

use sensor_drivers::mmc5983::device::{
    calibration_steps, continuous_reading_steps, measurement_steps, temperature_steps, Step,
};

#[test]
fn operation_steps() {
    assert_eq!(
        calibration_steps(),
        [
            Step::Write(Command::SetPulse),
            Step::Write(Command::MeasureMagneticField),
            Step::AwaitMeasurement,
            Step::ReadField,
            Step::Write(Command::ResetPulse),
            Step::Write(Command::MeasureMagneticField),
            Step::AwaitMeasurement,
            Step::ReadField,
        ]
    );
    assert_eq!(
        measurement_steps(),
        [Step::Write(Command::MeasureMagneticField), Step::AwaitMeasurement, Step::ReadField]
    );
    assert_eq!(
        temperature_steps(),
        [Step::Write(Command::MeasureTemperature), Step::AwaitTemperature]
    );
    assert_eq!(continuous_reading_steps(), [Step::AwaitMeasurement, Step::ReadField]);
}

#[test]
fn calibration_run_against_recorded_readings() {
    let mut dev = Mmc5983::new_with_i2c(());
    run(&mut dev, &init_sequence());
    let readings = [field(131080, 131000, 130000), field(130920, 131010, 132000)];
    let mut read = Vec::new();
    let mut writes = Vec::new();
    for step in calibration_steps() {
        match step {
            Step::Write(cmd) => {
                writes.push(dev.command_write(cmd));
                dev.command_done(cmd);
            }
            Step::ReadField => read.push(readings[read.len()]),
            Step::AwaitMeasurement | Step::AwaitTemperature => {}
        }
    }
    assert_eq!(
        writes,
        vec![
            RegisterWrite { addr: 0x09, data: 0x4C },
            RegisterWrite { addr: 0x09, data: 0x45 },
            RegisterWrite { addr: 0x09, data: 0x54 },
            RegisterWrite { addr: 0x09, data: 0x45 },
        ]
    );
    let off = dev.record_offset(read[0], read[1]);
    assert_eq!(off, field(131000, 131005, 131000));
    assert_eq!(dev.calibrated(field(131001, 131005, 130999)), field(1, 0, u32::MAX));
}
