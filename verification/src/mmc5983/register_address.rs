//! Register map of the MMC5983MA magnetometer.
use vstd::prelude::*;

use crate::mmc5983::types::{BandwidthMode, MagOutputDataRate, ProductId, SetResetPeriod, StatusFlags};

verus! {

/// Trait for reading from registers
pub trait RegRead<D = u8> {
    type Output;

    const ADDR: u8;

    fn from_data(data: D) -> Self::Output;
}

/// Trait for writing to registers
pub trait RegWrite<D = u8>: RegRead<D> {
    fn data(&self) -> D;
}

/// Xout[17:10] register (`0x00`)
pub struct Xout0;

impl RegRead for Xout0 {
    type Output = u8;

    const ADDR: u8 = 0x00;

    fn from_data(data: u8) -> (r: u8)
        ensures
            r == data,
    {
        data
    }
}

/// Xout[9:2] register (`0x01`)
pub struct Xout1;

impl RegRead for Xout1 {
    type Output = u8;

    const ADDR: u8 = 0x01;

    fn from_data(data: u8) -> (r: u8)
        ensures
            r == data,
    {
        data
    }
}

/// Yout[17:10] register (`0x02`)
pub struct Yout0;

impl RegRead for Yout0 {
    type Output = u8;

    const ADDR: u8 = 0x02;

    fn from_data(data: u8) -> (r: u8)
        ensures
            r == data,
    {
        data
    }
}

/// Yout[9:2] register (`0x03`)
pub struct Yout1;

impl RegRead for Yout1 {
    type Output = u8;

    const ADDR: u8 = 0x03;

    fn from_data(data: u8) -> (r: u8)
        ensures
            r == data,
    {
        data
    }
}

/// Zout[17:10] register (`0x04`)
pub struct Zout0;

impl RegRead for Zout0 {
    type Output = u8;

    const ADDR: u8 = 0x04;

    fn from_data(data: u8) -> (r: u8)
        ensures
            r == data,
    {
        data
    }
}

/// Zout[9:2] register (`0x05`)
pub struct Zout1;

impl RegRead for Zout1 {
    type Output = u8;

    const ADDR: u8 = 0x05;

    fn from_data(data: u8) -> (r: u8)
        ensures
            r == data,
    {
        data
    }
}

/// Two's complement of X/Y/Z[1:0] bits
#[derive(Debug, Copy, Clone)]
pub struct XYZout2(u8);

impl View for XYZout2 {
    type V = u8;

    closed spec fn view(&self) -> u8 {
        self.0
    }
}

impl XYZout2 {
    /// Extract X[1:0] bits
    pub fn x_bits(&self) -> (r: u8)
        ensures
            r == (self@ >> 6u8) & 0b11,
            r < 4,
    {
        let v = self.0;
        let r = (v >> 6u8) & 0b11;
        assert(r < 4) by (bit_vector)
            requires
                r == (v >> 6u8) & 0b11,
        ;
        r
    }

    /// Extract Y[1:0] bits
    pub fn y_bits(&self) -> (r: u8)
        ensures
            r == (self@ >> 4u8) & 0b11,
            r < 4,
    {
        let v = self.0;
        let r = (v >> 4u8) & 0b11;
        assert(r < 4) by (bit_vector)
            requires
                r == (v >> 4u8) & 0b11,
        ;
        r
    }

    /// Extract Z[1:0] bits
    pub fn z_bits(&self) -> (r: u8)
        ensures
            r == (self@ >> 2u8) & 0b11,
            r < 4,
    {
        let v = self.0;
        let r = (v >> 2u8) & 0b11;
        assert(r < 4) by (bit_vector)
            requires
                r == (v >> 2u8) & 0b11,
        ;
        r
    }
}

impl RegRead for XYZout2 {
    type Output = Self;

    const ADDR: u8 = 0x06;

    fn from_data(data: u8) -> (r: Self::Output)
        ensures
            r@ == data,
    {
        XYZout2(data)
    }
}

/// Temperature output register (`0x07`)
pub struct Tout;

impl RegRead for Tout {
    type Output = u8;

    const ADDR: u8 = 0x07;

    fn from_data(data: u8) -> (r: u8)
        ensures
            r == data,
    {
        data
    }
}

/// Status register (`0x08`)
pub struct Status;

impl RegRead for Status {
    type Output = StatusFlags;

    const ADDR: u8 = 0x08;

    fn from_data(data: u8) -> (r: StatusFlags)
        ensures
            r@ == data & StatusFlags::ALL_BITS,
    {
        StatusFlags::from_bits_truncate(data)
    }
}

/// Address of internal control register 0.
pub const INTERNAL_CONTROL_0_ADDR: u8 = 0x09;

/// Address of internal control register 1.
pub const INTERNAL_CONTROL_1_ADDR: u8 = 0x0A;

/// Address of internal control register 2.
pub const INTERNAL_CONTROL_2_ADDR: u8 = 0x0B;

/// Address of internal control register 3.
pub const INTERNAL_CONTROL_3_ADDR: u8 = 0x0C;

/// Internal Control 0 register (`0x09`)
#[derive(Debug, Copy, Clone)]
pub struct InternalControl0 {
    bits: u8,
}

impl View for InternalControl0 {
    type V = u8;

    closed spec fn view(&self) -> u8 {
        self.bits
    }
}

impl Default for InternalControl0 {
    fn default() -> (r: Self)
        ensures
            r@ == 0,
    {
        InternalControl0 { bits: 0 }
    }
}

impl InternalControl0 {
    pub const OTP_READ: u8 = 0b01000000;
    pub const AUTO_SR: u8 = 0b00100000;
    pub const RESET: u8 = 0b00010000;
    pub const SET: u8 = 0b00001000;
    pub const INT_MEAS_DONE_EN: u8 = 0b00000100;
    pub const TM_T: u8 = 0b00000010;
    pub const TM_M: u8 = 0b00000001;
    /// Every defined flag.
    pub const ALL_BITS: u8 = 0b01111111;

    /// Keeps the defined flags of `bits`.
    pub fn from_bits_truncate(bits: u8) -> (r: Self)
        ensures
            r@ == bits & Self::ALL_BITS,
    {
        InternalControl0 { bits: bits & Self::ALL_BITS }
    }

    /// The register value.
    pub fn bits(&self) -> (r: u8)
        ensures
            r == self@,
    {
        self.bits
    }

    /// The register with the flags of `flags` set as well.
    pub fn union(self, flags: u8) -> (r: Self)
        ensures
            r@ == self@ | flags,
    {
        InternalControl0 { bits: self.bits | flags }
    }

    /// The register with the flags of `flags` cleared.
    pub fn difference(self, flags: u8) -> (r: Self)
        ensures
            r@ == self@ & !flags,
    {
        InternalControl0 { bits: self.bits & !flags }
    }
}

impl RegRead for InternalControl0 {
    type Output = Self;

    const ADDR: u8 = INTERNAL_CONTROL_0_ADDR;

    fn from_data(data: u8) -> (r: Self)
        ensures
            r@ == data & Self::ALL_BITS,
    {
        Self::from_bits_truncate(data)
    }
}

impl RegWrite for InternalControl0 {
    fn data(&self) -> (r: u8)
        ensures
            r == self@,
    {
        self.bits
    }
}

/// Internal Control 1 register (`0x0A`)
#[derive(Debug, Copy, Clone)]
pub struct InternalControl1 {
    bits: u8,
}

impl View for InternalControl1 {
    type V = u8;

    closed spec fn view(&self) -> u8 {
        self.bits
    }
}

impl Default for InternalControl1 {
    fn default() -> (r: Self)
        ensures
            r@ == 0,
    {
        InternalControl1 { bits: 0 }
    }
}

/// Internal control register 1 with its BW bits replaced by those of `bw`,
/// truncated to the defined flags.
pub open spec fn with_bandwidth_bits(bits: u8, bw: BandwidthMode) -> u8 {
    ((bits & !InternalControl1::BW) | bw.spec_bits()) & InternalControl1::ALL_BITS
}

impl InternalControl1 {
    pub const SW_RST: u8 = 0b10000000;
    pub const YZ_INHIBIT: u8 = 0b00110000;
    pub const X_INHIBIT: u8 = 0b00001000;
    pub const BW1: u8 = 0b00000010;
    pub const BW0: u8 = 0b00000001;
    pub const BW: u8 = 0b00000011;
    /// Every defined flag.
    pub const ALL_BITS: u8 = 0b10111011;

    /// Keeps the defined flags of `bits`.
    pub fn from_bits_truncate(bits: u8) -> (r: Self)
        ensures
            r@ == bits & Self::ALL_BITS,
    {
        InternalControl1 { bits: bits & Self::ALL_BITS }
    }

    /// The register value.
    pub fn bits(&self) -> (r: u8)
        ensures
            r == self@,
    {
        self.bits
    }

    /// The register with the flags of `flags` set as well.
    pub fn union(self, flags: u8) -> (r: Self)
        ensures
            r@ == self@ | flags,
    {
        InternalControl1 { bits: self.bits | flags }
    }

    /// The register with its bandwidth bits replaced by those of `bw`.
    pub fn with_bandwidth(self, bw: BandwidthMode) -> (r: Self)
        ensures
            r@ == with_bandwidth_bits(self@, bw),
    {
        let reg = self.bits & !Self::BW;
        Self::from_bits_truncate(reg | bw.bits())
    }
}

impl RegRead for InternalControl1 {
    type Output = Self;

    const ADDR: u8 = INTERNAL_CONTROL_1_ADDR;

    fn from_data(data: u8) -> (r: Self)
        ensures
            r@ == data & Self::ALL_BITS,
    {
        Self::from_bits_truncate(data)
    }
}

impl RegWrite for InternalControl1 {
    fn data(&self) -> (r: u8)
        ensures
            r == self@,
    {
        self.bits
    }
}

/// Internal Control 2 register (`0x0B`)
#[derive(Debug, Copy, Clone)]
pub struct InternalControl2 {
    bits: u8,
}

impl View for InternalControl2 {
    type V = u8;

    closed spec fn view(&self) -> u8 {
        self.bits
    }
}

impl Default for InternalControl2 {
    fn default() -> (r: Self)
        ensures
            r@ == 0,
    {
        InternalControl2 { bits: 0 }
    }
}

/// The output data rate that the CM_FREQ bits `bits & 0b111` select.
pub open spec fn output_rate_of_bits(bits: u8) -> MagOutputDataRate {
    let b = bits & 0b111;
    if b == 0b010 {
        MagOutputDataRate::Hz10
    } else if b == 0b011 {
        MagOutputDataRate::Hz20
    } else if b == 0b100 {
        MagOutputDataRate::Hz50
    } else if b == 0b101 {
        MagOutputDataRate::Hz100
    } else if b == 0b110 {
        MagOutputDataRate::Hz200
    } else if b == 0b111 {
        MagOutputDataRate::Hz1000
    } else {
        MagOutputDataRate::Hz1
    }
}

/// The set/reset period whose code is `code`, for a code from 0 to 7.
pub open spec fn set_period_of_code(code: u8) -> SetResetPeriod {
    if code == 0 {
        SetResetPeriod::Every1
    } else if code == 1 {
        SetResetPeriod::Every25
    } else if code == 2 {
        SetResetPeriod::Every75
    } else if code == 3 {
        SetResetPeriod::Every100
    } else if code == 4 {
        SetResetPeriod::Every250
    } else if code == 5 {
        SetResetPeriod::Every500
    } else if code == 6 {
        SetResetPeriod::Every1000
    } else {
        SetResetPeriod::Every2000
    }
}

/// The set/reset period that the PRD_SET bits of `bits` select.
pub open spec fn set_period_of_bits(bits: u8) -> SetResetPeriod {
    set_period_of_code(((bits & InternalControl2::PRD_SET) >> 4u8) & 0b111)
}

/// Internal control register 2 with its PRD_SET bits replaced by `period`,
/// truncated to the defined flags.
pub open spec fn with_set_period_bits(bits: u8, period: SetResetPeriod) -> u8 {
    ((bits & !InternalControl2::PRD_SET) | (period.spec_code() << 4u8)) & InternalControl2::ALL_BITS
}

/// Internal control register 2 with its CM_FREQ bits replaced by those of
/// `rate`, truncated to the defined flags.
pub open spec fn with_output_rate_bits(bits: u8, rate: MagOutputDataRate) -> u8 {
    ((bits & !InternalControl2::CM_FREQ) | rate.spec_bits()) & InternalControl2::ALL_BITS
}

impl InternalControl2 {
    pub const EN_PRD_SET: u8 = 0b10000000;
    pub const PRD_SET2: u8 = 0b01000000;
    pub const PRD_SET1: u8 = 0b00100000;
    pub const PRD_SET0: u8 = 0b00010000;
    pub const CMM_EN: u8 = 0b00001000;
    pub const CM_FREQ2: u8 = 0b00000100;
    pub const CM_FREQ1: u8 = 0b00000010;
    pub const CM_FREQ0: u8 = 0b00000001;
    pub const PRD_SET: u8 = 0b01110000;
    pub const CM_FREQ: u8 = 0b00000111;
    /// Every defined flag.
    pub const ALL_BITS: u8 = 0b11111111;

    /// Keeps the defined flags of `bits`.
    pub fn from_bits_truncate(bits: u8) -> (r: Self)
        ensures
            r@ == bits & Self::ALL_BITS,
    {
        InternalControl2 { bits: bits & Self::ALL_BITS }
    }

    /// The register value.
    pub fn bits(&self) -> (r: u8)
        ensures
            r == self@,
    {
        self.bits
    }

    /// The register with the flags of `flags` set as well.
    pub fn union(self, flags: u8) -> (r: Self)
        ensures
            r@ == self@ | flags,
    {
        InternalControl2 { bits: self.bits | flags }
    }

    /// The register with the flags of `flags` cleared.
    pub fn difference(self, flags: u8) -> (r: Self)
        ensures
            r@ == self@ & !flags,
    {
        InternalControl2 { bits: self.bits & !flags }
    }

    /// Whether every flag of `flags` is set.
    pub fn contains(&self, flags: u8) -> (r: bool)
        ensures
            r == (self@ & flags == flags),
    {
        self.bits & flags == flags
    }

    /// The register with its set/reset period bits replaced by `period`.
    pub fn with_set_period(self, period: SetResetPeriod) -> (r: Self)
        ensures
            r@ == with_set_period_bits(self@, period),
    {
        let reg = self.bits & !Self::PRD_SET;
        Self::from_bits_truncate(reg | (period.code() << 4u8))
    }

    /// The register with its output rate bits replaced by those of `rate`.
    pub fn with_output_rate(self, rate: MagOutputDataRate) -> (r: Self)
        ensures
            r@ == with_output_rate_bits(self@, rate),
    {
        let reg = self.bits & !Self::CM_FREQ;
        Self::from_bits_truncate(reg | rate.bits())
    }

    /// Get current output data rate configuration
    pub fn output_rate(&self) -> (r: MagOutputDataRate)
        ensures
            r == output_rate_of_bits(self@),
    {
        let bits = self.bits & Self::CM_FREQ;
        match bits {
            0b001 => MagOutputDataRate::Hz1,
            0b010 => MagOutputDataRate::Hz10,
            0b011 => MagOutputDataRate::Hz20,
            0b100 => MagOutputDataRate::Hz50,
            0b101 => MagOutputDataRate::Hz100,
            0b110 => MagOutputDataRate::Hz200,
            0b111 => MagOutputDataRate::Hz1000,
            _ => MagOutputDataRate::Hz1,  // Default to lowest rate
        }
    }

    /// Get current SET/RESET period configuration
    pub fn set_period(&self) -> (r: SetResetPeriod)
        ensures
            r == set_period_of_bits(self@),
    {
        let bits = ((self.bits & Self::PRD_SET) >> 4u8) & 0b111;
        match bits {
            0 => SetResetPeriod::Every1,
            1 => SetResetPeriod::Every25,
            2 => SetResetPeriod::Every75,
            3 => SetResetPeriod::Every100,
            4 => SetResetPeriod::Every250,
            5 => SetResetPeriod::Every500,
            6 => SetResetPeriod::Every1000,
            _ => SetResetPeriod::Every2000,
        }
    }
}

impl RegRead for InternalControl2 {
    type Output = Self;

    const ADDR: u8 = INTERNAL_CONTROL_2_ADDR;

    fn from_data(data: u8) -> (r: Self)
        ensures
            r@ == data & Self::ALL_BITS,
    {
        Self::from_bits_truncate(data)
    }
}

impl RegWrite for InternalControl2 {
    fn data(&self) -> (r: u8)
        ensures
            r == self@,
    {
        self.bits
    }
}

/// Internal Control 3 register (`0x0C`)
#[derive(Debug, Copy, Clone)]
pub struct InternalControl3 {
    bits: u8,
}

impl View for InternalControl3 {
    type V = u8;

    closed spec fn view(&self) -> u8 {
        self.bits
    }
}

impl Default for InternalControl3 {
    fn default() -> (r: Self)
        ensures
            r@ == 0,
    {
        InternalControl3 { bits: 0 }
    }
}

impl InternalControl3 {
    pub const SPI_3W: u8 = 0b01000000;
    pub const ST_ENM: u8 = 0b00000010;
    pub const ST_ENP: u8 = 0b00000001;
    /// Every defined flag.
    pub const ALL_BITS: u8 = 0b01000011;

    /// Keeps the defined flags of `bits`.
    pub fn from_bits_truncate(bits: u8) -> (r: Self)
        ensures
            r@ == bits & Self::ALL_BITS,
    {
        InternalControl3 { bits: bits & Self::ALL_BITS }
    }

    /// The register value.
    pub fn bits(&self) -> (r: u8)
        ensures
            r == self@,
    {
        self.bits
    }

    /// The register with the flags of `flags` set as well.
    pub fn union(self, flags: u8) -> (r: Self)
        ensures
            r@ == self@ | flags,
    {
        InternalControl3 { bits: self.bits | flags }
    }
}

impl RegRead for InternalControl3 {
    type Output = Self;

    const ADDR: u8 = INTERNAL_CONTROL_3_ADDR;

    fn from_data(data: u8) -> (r: Self)
        ensures
            r@ == data & Self::ALL_BITS,
    {
        Self::from_bits_truncate(data)
    }
}

impl RegWrite for InternalControl3 {
    fn data(&self) -> (r: u8)
        ensures
            r == self@,
    {
        self.bits
    }
}

/// Selecting an output rate and reading it back gives that rate, whatever
/// the register held before.
pub proof fn lemma_output_rate_round_trip(bits: u8, rate: MagOutputDataRate)
    ensures
        output_rate_of_bits(with_output_rate_bits(bits, rate)) == rate,
{
    let c = rate.spec_bits();
    let w = with_output_rate_bits(bits, rate);
    assert(w & 0b111 == c) by (bit_vector)
        requires
            w == ((bits & !0b00000111u8) | c) & 0xFFu8,
            1 <= c <= 7,
    ;
}

/// Selecting a set/reset period and reading it back gives that period,
/// whatever the register held before.
pub proof fn lemma_set_period_round_trip(bits: u8, period: SetResetPeriod)
    ensures
        set_period_of_bits(with_set_period_bits(bits, period)) == period,
{
    let c = period.spec_code();
    let w = with_set_period_bits(bits, period);
    assert(((w & 0b01110000u8) >> 4u8) & 0b111 == c) by (bit_vector)
        requires
            w == ((bits & !0b01110000u8) | (c << 4u8)) & 0xFFu8,
            c <= 7,
    ;
}

/// Selecting an output rate keeps the set/reset period, the automatic
/// set/reset enable bit and the continuous mode enable bit; selecting a
/// period keeps the output rate and both enable bits.
pub proof fn lemma_rate_and_period_independent(
    bits: u8,
    rate: MagOutputDataRate,
    period: SetResetPeriod,
)
    ensures
        set_period_of_bits(with_output_rate_bits(bits, rate)) == set_period_of_bits(bits),
        with_output_rate_bits(bits, rate) & InternalControl2::EN_PRD_SET == bits
            & InternalControl2::EN_PRD_SET,
        with_output_rate_bits(bits, rate) & InternalControl2::CMM_EN == bits
            & InternalControl2::CMM_EN,
        output_rate_of_bits(with_set_period_bits(bits, period)) == output_rate_of_bits(bits),
        with_set_period_bits(bits, period) & InternalControl2::EN_PRD_SET == bits
            & InternalControl2::EN_PRD_SET,
        with_set_period_bits(bits, period) & InternalControl2::CMM_EN == bits
            & InternalControl2::CMM_EN,
{
    let c = rate.spec_bits();
    let p = period.spec_code();
    let w = with_output_rate_bits(bits, rate);
    let v = with_set_period_bits(bits, period);
    assert(((w & 0b01110000u8) >> 4u8) & 0b111 == ((bits & 0b01110000u8) >> 4u8) & 0b111
        && w & 0x80 == bits & 0x80 && w & 0x08 == bits & 0x08) by (bit_vector)
        requires
            w == ((bits & !0b00000111u8) | c) & 0xFFu8,
            c <= 7,
    ;
    assert(v & 0b111 == bits & 0b111 && v & 0x80 == bits & 0x80 && v & 0x08 == bits & 0x08)
        by (bit_vector)
        requires
            v == ((bits & !0b01110000u8) | (p << 4u8)) & 0xFFu8,
            p <= 7,
    ;
}

/// Selecting a bandwidth sets the BW bits to its code and keeps the other
/// defined bits.
pub proof fn lemma_bandwidth_bits(bits: u8, bw: BandwidthMode)
    ensures
        with_bandwidth_bits(bits, bw) & InternalControl1::BW == bw.spec_bits(),
        with_bandwidth_bits(bits, bw) & !InternalControl1::BW == bits & InternalControl1::ALL_BITS
            & !InternalControl1::BW,
{
    let c = bw.spec_bits();
    let w = with_bandwidth_bits(bits, bw);
    assert(w & 0b11 == c && w & !0b11u8 == bits & 0b10111011u8 & !0b11u8) by (bit_vector)
        requires
            w == ((bits & !0b11u8) | c) & 0b10111011u8,
            c <= 3,
    ;
}

/// Product ID register (`0x2F`)
pub struct ProductId1;

impl RegRead for ProductId1 {
    type Output = ProductId;

    const ADDR: u8 = 0x2F;

    fn from_data(data: u8) -> (r: ProductId)
        ensures
            r@ == data,
    {
        ProductId::from_bits_truncate(data)
    }
}

impl ProductId1 {
    /// The product identifier of the MMC5983MA.
    pub const ID: u8 = 0x30;
}

} // verus!
