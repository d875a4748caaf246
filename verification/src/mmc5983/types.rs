//! Values exchanged with the MMC5983MA magnetometer.
use vstd::prelude::*;

use crate::mmc5983::register_address::{ProductId1, RegRead};

verus! {

/// All possible errors of the magnetometer driver.
#[derive(Debug)]
pub enum Error<CommE> {
    /// I²C / SPI communication error
    Comm(CommE),
    /// Invalid input data provided
    InvalidInputData,
    /// The device answered with an unexpected product identifier
    InvalidId(ProductId),
}

impl<CommE> From<CommE> for Error<CommE> {
    fn from(e: CommE) -> (r: Self) {
        Error::Comm(e)
    }
}

impl<CommE> vstd::std_specs::convert::FromSpecImpl<CommE> for Error<CommE> {
    open spec fn obeys_from_spec() -> bool {
        true
    }

    open spec fn from_spec(e: CommE) -> Self {
        Error::Comm(e)
    }
}

/// A product identifier, used to identify the device.
#[derive(Debug, Clone, Copy, PartialEq)]
pub struct ProductId {
    raw: u8,
}

impl View for ProductId {
    type V = u8;

    closed spec fn view(&self) -> u8 {
        self.raw
    }
}

impl ProductId {
    /// Builds an identifier from the product identifier register contents.
    pub fn from_bits_truncate(raw: u8) -> (r: Self)
        ensures
            r@ == raw,
    {
        Self { raw }
    }

    /// Raw product ID.
    pub fn raw(&self) -> (r: u8)
        ensures
            r == self@,
    {
        self.raw
    }

    /// Check if the ID corresponds to the expected value.
    pub fn is_correct(&self) -> (r: bool)
        ensures
            r == (self@ == ProductId1::ID),
    {
        self.raw == ProductId1::ID
    }
}

/// A magnetic field measurement: the three raw 18-bit axis readings.
#[derive(Debug, Clone, Copy, PartialEq)]
pub struct MagneticField {
    x: u32,
    y: u32,
    z: u32,
}

impl View for MagneticField {
    type V = (u32, u32, u32);

    closed spec fn view(&self) -> (u32, u32, u32) {
        (self.x, self.y, self.z)
    }
}

impl Default for MagneticField {
    fn default() -> (r: Self)
        ensures
            r@ == (0u32, 0u32, 0u32),
    {
        MagneticField { x: 0, y: 0, z: 0 }
    }
}

impl RegRead<(u32, u32, u32)> for MagneticField {
    type Output = Self;

    /// X_OUT0 register starting address
    const ADDR: u8 = 0x00;

    fn from_data(data: (u32, u32, u32)) -> (r: Self::Output)
        ensures
            r@ == data,
    {
        let (x, y, z) = data;
        Self { x, y, z }
    }
}

impl MagneticField {
    /// Raw magnetic field in X-direction
    pub fn x_raw(&self) -> (r: u32)
        ensures
            r == self@.0,
    {
        self.x
    }

    /// Raw magnetic field in Y-direction
    pub fn y_raw(&self) -> (r: u32)
        ensures
            r == self@.1,
    {
        self.y
    }

    /// Raw magnetic field in Z-direction
    pub fn z_raw(&self) -> (r: u32)
        ensures
            r == self@.2,
    {
        self.z
    }
}

/// Magnetometer output data rate/bandwidth
#[derive(Debug, Clone, Copy, PartialEq, Eq, Structural)]
pub enum BandwidthMode {
    /// BW = 00, 100Hz bandwidth
    Hz100,
    /// BW = 01, 200Hz bandwidth
    Hz200,
    /// BW = 10, 400Hz bandwidth
    Hz400,
    /// BW = 11, 800Hz bandwidth
    Hz800,
}

impl BandwidthMode {
    /// The two BW bits of internal control register 1.
    pub open spec fn spec_bits(self) -> u8 {
        match self {
            BandwidthMode::Hz100 => 0,
            BandwidthMode::Hz200 => 1,
            BandwidthMode::Hz400 => 2,
            BandwidthMode::Hz800 => 3,
        }
    }

    /// The two BW bits of internal control register 1.
    pub fn bits(&self) -> (r: u8)
        ensures
            r == self.spec_bits(),
    {
        match self {
            BandwidthMode::Hz100 => 0,
            BandwidthMode::Hz200 => 1,
            BandwidthMode::Hz400 => 2,
            BandwidthMode::Hz800 => 3,
        }
    }
}

/// Magnetometer operating mode
#[derive(Debug, Clone, Copy, PartialEq, Eq, Structural)]
pub enum MagMode {
    /// Continuous measurement mode
    Continuous {
        /// Measurement frequency
        frequency: MagOutputDataRate,
        /// Set/Reset period
        set_period: Option<SetResetPeriod>,
    },
    /// Single measurement mode
    OneShot,
}

/// Magnetometer output data rate for continuous mode
#[derive(Debug, Clone, Copy, PartialEq, Eq, Structural)]
pub enum MagOutputDataRate {
    /// 1 Hz
    Hz1,
    /// 10 Hz
    Hz10,
    /// 20 Hz
    Hz20,
    /// 50 Hz
    Hz50,
    /// 100 Hz
    Hz100,
    /// 200 Hz (when BW=01)
    Hz200,
    /// 1000 Hz (when BW=11)
    Hz1000,
}

impl MagOutputDataRate {
    /// The CM_FREQ bits that select this rate.
    pub open spec fn spec_bits(self) -> u8 {
        match self {
            MagOutputDataRate::Hz1 => 0b001,
            MagOutputDataRate::Hz10 => 0b010,
            MagOutputDataRate::Hz20 => 0b011,
            MagOutputDataRate::Hz50 => 0b100,
            MagOutputDataRate::Hz100 => 0b101,
            MagOutputDataRate::Hz200 => 0b110,
            MagOutputDataRate::Hz1000 => 0b111,
        }
    }

    /// Convert frequency to register bits
    pub fn bits(&self) -> (r: u8)
        ensures
            r == self.spec_bits(),
            1 <= r <= 7,
    {
        match self {
            MagOutputDataRate::Hz1 => 0b001,
            MagOutputDataRate::Hz10 => 0b010,
            MagOutputDataRate::Hz20 => 0b011,
            MagOutputDataRate::Hz50 => 0b100,
            MagOutputDataRate::Hz100 => 0b101,
            MagOutputDataRate::Hz200 => 0b110,
            MagOutputDataRate::Hz1000 => 0b111,
        }
    }
}

/// Period for automatic SET operations
#[derive(Debug, Clone, Copy, PartialEq, Eq, Structural)]
pub enum SetResetPeriod {
    /// Every measurement
    Every1,
    /// Every 25 measurements
    Every25,
    /// Every 75 measurements
    Every75,
    /// Every 100 measurements
    Every100,
    /// Every 250 measurements
    Every250,
    /// Every 500 measurements
    Every500,
    /// Every 1000 measurements
    Every1000,
    /// Every 2000 measurements
    Every2000,
}

impl SetResetPeriod {
    /// The PRD_SET code of this period (0 to 7).
    pub open spec fn spec_code(self) -> u8 {
        match self {
            SetResetPeriod::Every1 => 0,
            SetResetPeriod::Every25 => 1,
            SetResetPeriod::Every75 => 2,
            SetResetPeriod::Every100 => 3,
            SetResetPeriod::Every250 => 4,
            SetResetPeriod::Every500 => 5,
            SetResetPeriod::Every1000 => 6,
            SetResetPeriod::Every2000 => 7,
        }
    }

    /// The PRD_SET code of this period (0 to 7).
    pub fn code(&self) -> (r: u8)
        ensures
            r == self.spec_code(),
            r <= 7,
    {
        match self {
            SetResetPeriod::Every1 => 0,
            SetResetPeriod::Every25 => 1,
            SetResetPeriod::Every75 => 2,
            SetResetPeriod::Every100 => 3,
            SetResetPeriod::Every250 => 4,
            SetResetPeriod::Every500 => 5,
            SetResetPeriod::Every1000 => 6,
            SetResetPeriod::Every2000 => 7,
        }
    }
}

/// The flags of the status register.
#[derive(Debug, Default, Clone, Copy, PartialEq)]
pub struct StatusFlags {
    bits: u8,
}

impl View for StatusFlags {
    type V = u8;

    closed spec fn view(&self) -> u8 {
        self.bits
    }
}

impl StatusFlags {
    /// Measurement done
    pub const MEAS_M_DONE: u8 = 0b00000001;
    /// Temperature measurement done
    pub const MEAS_T_DONE: u8 = 0b00000010;
    /// OTP read done
    pub const OTP_READ_DONE: u8 = 0b00010000;
    /// Every defined flag.
    pub const ALL_BITS: u8 = 0b00010011;

    /// Keeps the defined flags of a status register value.
    pub fn from_bits_truncate(bits: u8) -> (r: Self)
        ensures
            r@ == bits & Self::ALL_BITS,
    {
        StatusFlags { bits: bits & Self::ALL_BITS }
    }

    /// Whether every flag of `flags` is set.
    pub fn contains(&self, flags: u8) -> (r: bool)
        ensures
            r == (self@ & flags == flags),
    {
        self.bits & flags == flags
    }
}

/// Device status
#[derive(Debug, Default, Clone, Copy, PartialEq)]
pub struct Status {
    flags: StatusFlags,
}

impl View for Status {
    type V = u8;

    closed spec fn view(&self) -> u8 {
        self.flags@
    }
}

impl Status {
    /// Whether the magnetic measurement done flag is set.
    pub open spec fn spec_meas_done(self) -> bool {
        self@ & StatusFlags::MEAS_M_DONE == StatusFlags::MEAS_M_DONE
    }

    /// Whether the temperature measurement done flag is set.
    pub open spec fn spec_temp_done(self) -> bool {
        self@ & StatusFlags::MEAS_T_DONE == StatusFlags::MEAS_T_DONE
    }

    /// Whether the OTP read done flag is set.
    pub open spec fn spec_otp_read_done(self) -> bool {
        self@ & StatusFlags::OTP_READ_DONE == StatusFlags::OTP_READ_DONE
    }

    /// Builds a status from its flags.
    pub fn new(flags: StatusFlags) -> (r: Self)
        ensures
            r@ == flags@,
    {
        Self { flags }
    }

    /// Check if magnetic measurement is complete
    pub fn meas_done(&self) -> (r: bool)
        ensures
            r == self.spec_meas_done(),
    {
        self.flags.contains(StatusFlags::MEAS_M_DONE)
    }

    /// Check if temperature measurement is complete
    pub fn temp_done(&self) -> (r: bool)
        ensures
            r == self.spec_temp_done(),
    {
        self.flags.contains(StatusFlags::MEAS_T_DONE)
    }

    /// Check if OTP read completed
    pub fn otp_read_done(&self) -> (r: bool)
        ensures
            r == self.spec_otp_read_done(),
    {
        self.flags.contains(StatusFlags::OTP_READ_DONE)
    }
}

/// A temperature measurement.
#[derive(Debug, Clone, Copy, PartialEq)]
pub struct Temperature {
    raw: u8,
}

impl View for Temperature {
    type V = u8;

    closed spec fn view(&self) -> u8 {
        self.raw
    }
}

impl RegRead<u8> for Temperature {
    type Output = Self;

    /// TOUT register
    const ADDR: u8 = 0x07;

    fn from_data(data: u8) -> (r: Self::Output)
        ensures
            r@ == data,
    {
        Temperature { raw: data }
    }
}

impl Temperature {
    /// Raw temperature reading
    pub fn raw(&self) -> (r: u8)
        ensures
            r == self@,
    {
        self.raw
    }
}

} // verus!
