use sensor_drivers::mmc5983::register_address::{
    InternalControl0, InternalControl1, InternalControl2, InternalControl3, ProductId1, RegRead,
    RegWrite, XYZout2,
};
use sensor_drivers::mmc5983::types::StatusFlags;
use sensor_drivers::mmc5983::{BandwidthMode, MagOutputDataRate, ProductId, SetResetPeriod, Status, Temperature};

const RATES: [MagOutputDataRate; 7] = [
    MagOutputDataRate::Hz1,
    MagOutputDataRate::Hz10,
    MagOutputDataRate::Hz20,
    MagOutputDataRate::Hz50,
    MagOutputDataRate::Hz100,
    MagOutputDataRate::Hz200,
    MagOutputDataRate::Hz1000,
];

const PERIODS: [SetResetPeriod; 8] = [
    SetResetPeriod::Every1,
    SetResetPeriod::Every25,
    SetResetPeriod::Every75,
    SetResetPeriod::Every100,
    SetResetPeriod::Every250,
    SetResetPeriod::Every500,
    SetResetPeriod::Every1000,
    SetResetPeriod::Every2000,
];

#[test]
fn output_rate_bits_values() {
    let expected: [u8; 7] = [1, 2, 3, 4, 5, 6, 7];
    for (rate, bits) in RATES.iter().zip(expected.iter()) {
        assert_eq!(rate.bits(), *bits);
    }
}

#[test]
fn output_rate_round_trip_from_any_register() {
    for start in 0..=255u8 {
        for rate in RATES.iter() {
            let reg = InternalControl2::from_bits_truncate(start).with_output_rate(*rate);
            assert_eq!(reg.output_rate(), *rate);
        }
    }
}

#[test]
fn set_period_round_trip_from_any_register() {
    for start in 0..=255u8 {
        for period in PERIODS.iter() {
            let reg = InternalControl2::from_bits_truncate(start).with_set_period(*period);
            assert_eq!(reg.set_period(), *period);
            assert_eq!(reg.output_rate(), InternalControl2::from_bits_truncate(start).output_rate());
        }
    }
}

#[test]
fn with_set_period_places_code_in_bits_4_to_6() {
    let reg = InternalControl2::default().with_set_period(SetResetPeriod::Every500);
    assert_eq!(reg.bits(), 5 << 4);
    let reg = InternalControl2::from_bits_truncate(0xFF).with_set_period(SetResetPeriod::Every1);
    assert_eq!(reg.bits(), 0b1000_1111);
}

#[test]
fn with_output_rate_keeps_other_bits() {
    let reg = InternalControl2::from_bits_truncate(0b1011_1000).with_output_rate(MagOutputDataRate::Hz20);
    assert_eq!(reg.bits(), 0b1011_1011);
}

#[test]
fn control_2_flag_layout() {
    assert_eq!(InternalControl2::CM_FREQ, 0b0000_0111);
    assert_eq!(InternalControl2::CMM_EN, 0b0000_1000);
    assert_eq!(InternalControl2::PRD_SET, 0b0111_0000);
    assert_eq!(InternalControl2::EN_PRD_SET, 0b1000_0000);
    // selecting a rate or a period never touches the continuous mode bit
    for start in [0x00u8, InternalControl2::CMM_EN] {
        for rate in RATES.iter() {
            let reg = InternalControl2::from_bits_truncate(start).with_output_rate(*rate);
            assert_eq!(reg.bits() & InternalControl2::CMM_EN, start);
        }
        for period in PERIODS.iter() {
            let reg = InternalControl2::from_bits_truncate(start).with_set_period(*period);
            assert_eq!(reg.bits() & InternalControl2::CMM_EN, start);
        }
    }
}

#[test]
fn output_rate_of_zero_bits_is_lowest() {
    assert_eq!(InternalControl2::default().output_rate(), MagOutputDataRate::Hz1);
}

#[test]
fn with_bandwidth_sets_bw_bits() {
    assert_eq!(InternalControl1::default().with_bandwidth(BandwidthMode::Hz800).bits(), 0b11);
    assert_eq!(
        InternalControl1::from_bits_truncate(0xFF).with_bandwidth(BandwidthMode::Hz200).bits(),
        0b1011_1001
    );
    assert_eq!(BandwidthMode::Hz400.bits(), 2);
}

#[test]
fn from_bits_truncate_keeps_defined_flags() {
    assert_eq!(InternalControl0::from_bits_truncate(0xFF).bits(), 0x7F);
    assert_eq!(InternalControl1::from_bits_truncate(0xFF).bits(), 0xBB);
    assert_eq!(InternalControl2::from_bits_truncate(0xFF).bits(), 0xFF);
    assert_eq!(InternalControl3::from_bits_truncate(0xFF).bits(), 0x43);
    assert_eq!(<InternalControl2 as RegRead>::from_data(0x40).bits(), 0x40);
    assert_eq!(<InternalControl1 as RegRead>::from_data(0x40).bits(), 0);
}

#[test]
fn register_writes_carry_their_value() {
    let reg = InternalControl0::default().union(InternalControl0::TM_M);
    assert_eq!(reg.data(), 1);
    assert_eq!(reg.difference(InternalControl0::TM_M).bits(), 0);
    assert_eq!(InternalControl3::default().union(InternalControl3::ST_ENP).data(), 1);
    assert!(InternalControl2::from_bits_truncate(0x84).contains(InternalControl2::EN_PRD_SET));
    assert!(!InternalControl2::from_bits_truncate(0x04).contains(InternalControl2::EN_PRD_SET));
}

#[test]
fn register_addresses() {
    assert_eq!(<InternalControl0 as RegRead>::ADDR, 0x09);
    assert_eq!(<InternalControl1 as RegRead>::ADDR, 0x0A);
    assert_eq!(<InternalControl2 as RegRead>::ADDR, 0x0B);
    assert_eq!(<InternalControl3 as RegRead>::ADDR, 0x0C);
    assert_eq!(<ProductId1 as RegRead>::ADDR, 0x2F);
    assert_eq!(<XYZout2 as RegRead>::ADDR, 0x06);
    assert_eq!(<Temperature as RegRead>::ADDR, 0x07);
}

#[test]
fn xyzout2_bits() {
    let reg = <XYZout2 as RegRead>::from_data(0b10_01_11_00);
    assert_eq!(reg.x_bits(), 0b10);
    assert_eq!(reg.y_bits(), 0b01);
    assert_eq!(reg.z_bits(), 0b11);
}

#[test]
fn product_id_check() {
    let id = <ProductId1 as RegRead>::from_data(0x30);
    assert!(id.is_correct());
    assert_eq!(id.raw(), 0x30);
    assert!(!ProductId::from_bits_truncate(0x31).is_correct());
}

#[test]
fn status_flags() {
    let status = Status::new(StatusFlags::from_bits_truncate(0b0001_0001));
    assert!(status.meas_done());
    assert!(!status.temp_done());
    assert!(status.otp_read_done());
    let status = Status::new(StatusFlags::from_bits_truncate(0b0000_0010));
    assert!(!status.meas_done());
    assert!(status.temp_done());
    assert!(!status.otp_read_done());
}

#[test]
fn temperature_raw() {
    assert_eq!(<Temperature as RegRead>::from_data(0x5A).raw(), 0x5A);
}
