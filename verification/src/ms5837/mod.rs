//! MS5837 pressure sensor driver: PROM check, command bytes and the
//! temperature-compensated pressure computation of the datasheet.
use vstd::prelude::*;

pub mod sealed;

use crate::crc::{crc_shift_n, shift_byte};
use crate::ms5837::sealed::Sealed;

verus! {

/// The 7-bit I2C address of the sensor.
pub const I2C_ADDRESS: u8 = 0x76;

/// The polynomial of the PROM CRC, aligned on the top of the register.
pub const CRC4_POLY: u16 = 0x3000;

/// The big-endian bytes of `words`, in order.
pub open spec fn word_bytes(words: Seq<u16>) -> Seq<u8>
    decreases words.len(),
{
    if words.len() == 0 {
        seq![]
    } else {
        let w = words.last();
        word_bytes(words.drop_last()) + seq![(w >> 8u16) as u8, (w & 0xff) as u8]
    }
}

/// The CRC register after one byte.
pub open spec fn crc4_byte(rem: u16, byte: u8) -> u16 {
    crc_shift_n(rem ^ (byte as u16), CRC4_POLY, 8)
}

/// The CRC register after `bytes`, from zero.
pub open spec fn crc4_register(bytes: Seq<u8>) -> u16
    decreases bytes.len(),
{
    if bytes.len() == 0 {
        0
    } else {
        crc4_byte(crc4_register(bytes.drop_last()), bytes.last())
    }
}

/// The 4-bit CRC of the datasheet over `words` followed by a zero word.
pub open spec fn spec_crc4(words: Seq<u16>) -> u8 {
    ((crc4_register(word_bytes(words.push(0u16))) >> 12u16) & 0xF) as u8
}

proof fn lemma_crc4_push(words: Seq<u16>, w: u16)
    ensures
        crc4_register(word_bytes(words.push(w))) == crc4_byte(
            crc4_byte(crc4_register(word_bytes(words)), (w >> 8u16) as u8),
            (w & 0xff) as u8,
        ),
{
    let b = word_bytes(words);
    let hi = (w >> 8u16) as u8;
    let lo = (w & 0xff) as u8;
    assert(words.push(w).drop_last() =~= words);
    assert(word_bytes(words.push(w)) == b + seq![hi, lo]);
    let bh = b + seq![hi];
    let bhl = b + seq![hi, lo];
    assert(bhl.drop_last() =~= bh);
    assert(bh.drop_last() =~= b);
    assert(bhl.last() == lo);
    assert(bh.last() == hi);
    assert(crc4_register(bhl) == crc4_byte(crc4_register(bh), lo));
    assert(crc4_register(bh) == crc4_byte(crc4_register(b), hi));
}

/// Feeds one word, high byte first, to the CRC register.
fn crc4_word(rem: u16, word: u16) -> (r: u16)
    ensures
        r == crc4_byte(crc4_byte(rem, (word >> 8u16) as u8), (word & 0xff) as u8),
{
    let hi = (word >> 8u16) as u8;
    let lo = (word & 0xff) as u8;
    let r = shift_byte(rem ^ (hi as u16), CRC4_POLY);
    shift_byte(r ^ (lo as u16), CRC4_POLY)
}

/// Generates a 4bit cyclic redundancy check as described in the datasheet.
///
/// The 4bit crc is stored in the 4 LSBs of the result.
pub fn crc4(buffer: &[u16]) -> (r: u8)
    ensures
        r == spec_crc4(buffer@),
        r < 16,
{
    let mut n_remainder: u16 = 0;
    let n = buffer.len();
    let mut i: usize = 0;
    while i < n
        invariant
            n == buffer@.len(),
            i <= n,
            n_remainder == crc4_register(word_bytes(buffer@.take(i as int))),
        decreases n - i,
    {
        proof {
            lemma_crc4_push(buffer@.take(i as int), buffer@[i as int]);
            assert(buffer@.take(i as int).push(buffer@[i as int]) =~= buffer@.take(i + 1));
        }
        n_remainder = crc4_word(n_remainder, buffer[i]);
        i = i + 1;
    }
    proof {
        assert(buffer@.take(n as int) =~= buffer@);
        lemma_crc4_push(buffer@, 0u16);
    }
    n_remainder = crc4_word(n_remainder, 0);
    let register = n_remainder;
    n_remainder = (register >> 12u16) & 0x000F;
    let out = n_remainder ^ 0x00;
    assert(out == n_remainder && out < 16) by (bit_vector)
        requires
            out == n_remainder ^ 0x00,
            n_remainder == (register >> 12u16) & 0x000F,
    ;
    out as u8
}

/// A catch all error for this driver
#[derive(Debug, PartialEq)]
pub enum SensorError<E> {
    PromCrcMismatch { got: u8, expected: u8 },
    I2cError(E),
}

/// The state of a driver: uninitialised or initialised.
pub trait State: Sealed {}

/// Create an uninitialised driver object
pub fn new<I2C, D>(i2c: I2C, sleep: D) -> (r: Uninitialised<I2C, D>)
    ensures
        r.spec_i2c() == i2c,
        r.spec_sleep() == sleep,
{
    Uninitialised::<I2C, D> { i2c, sleep }
}

/// The oversampling ratio to use internal to the ADC. This is analogous to taking
/// n samples and then takeing the average.
#[derive(Debug, PartialEq, Eq, Clone, Copy, Structural)]
pub enum OverSamplingRatio {
    R256,
    R512,
    R1024,
    R2048,
    R4096,
}

impl OverSamplingRatio {
    /// The code of the ratio in the conversion commands.
    pub open spec fn spec_code(self) -> u8 {
        match self {
            OverSamplingRatio::R256 => 0x0,
            OverSamplingRatio::R512 => 0x2,
            OverSamplingRatio::R1024 => 0x4,
            OverSamplingRatio::R2048 => 0x6,
            OverSamplingRatio::R4096 => 0x8,
        }
    }

    /// The code of the ratio in the conversion commands.
    pub fn code(&self) -> (r: u8)
        ensures
            r == self.spec_code(),
    {
        match self {
            OverSamplingRatio::R256 => 0x0,
            OverSamplingRatio::R512 => 0x2,
            OverSamplingRatio::R1024 => 0x4,
            OverSamplingRatio::R2048 => 0x6,
            OverSamplingRatio::R4096 => 0x8,
        }
    }

    /// The time in microseconds that a conversion takes at this ratio.
    pub open spec fn spec_conversion_time_us(self) -> u32 {
        match self {
            OverSamplingRatio::R256 => 600,
            OverSamplingRatio::R512 => 1170,
            OverSamplingRatio::R1024 => 2280,
            OverSamplingRatio::R2048 => 4540,
            OverSamplingRatio::R4096 => 9040,
        }
    }

    /// The time in microseconds that a conversion takes at this ratio.
    pub fn conversion_time_us(&self) -> (r: u32)
        ensures
            r == self.spec_conversion_time_us(),
    {
        match *self {
            OverSamplingRatio::R256 => 600,
            OverSamplingRatio::R512 => 1170,
            OverSamplingRatio::R1024 => 2280,
            OverSamplingRatio::R2048 => 4540,
            OverSamplingRatio::R4096 => 9040,
        }
    }
}

/// An I2C command to send to the pressure sensor.
#[derive(Debug, PartialEq, Eq, Clone, Copy, Structural)]
pub enum Command {
    Reset,
    ConvertD1(OverSamplingRatio),
    ConvertD2(OverSamplingRatio),
    AdcRead,
    PromRead(u8),
}

/// The byte that carries `val` over I2C.
pub open spec fn command_byte(val: Command) -> u8 {
    match val {
        Command::Reset => 0x1E,
        Command::ConvertD1(osr) => 0x40u8 | osr.spec_code(),
        Command::ConvertD2(osr) => 0x50u8 | osr.spec_code(),
        Command::AdcRead => 0x00,
        Command::PromRead(address) => 0xA0u8 | (address << 1u8),
    }
}

/// Convert the command into a single byte that can be sent over i2c.
impl From<Command> for u8 {
    fn from(val: Command) -> (r: u8) {
        match val {
            Command::Reset => 0x1E,
            Command::ConvertD1(osr) => 0x40u8 | osr.code(),
            Command::ConvertD2(osr) => 0x50u8 | osr.code(),
            Command::AdcRead => 0x00,
            Command::PromRead(address) => 0xA0u8 | (address << 1u8),
        }
    }
}

impl vstd::std_specs::convert::FromSpecImpl<Command> for u8 {
    open spec fn obeys_from_spec() -> bool {
        true
    }

    open spec fn from_spec(val: Command) -> u8 {
        command_byte(val)
    }
}

/// The factory calibration data as fetched from the PROM.
#[derive(PartialEq, Debug)]
pub struct FactoryCalibrationData {
    /// Pressure sensitivity
    pressure_sensitivity: u16,
    pressure_offset: u16,
    temperature_coefficient_of_pressure_sensitivty: u16,
    temperature_coefficient_of_pressure_offset: u16,
    reference_temperature: u16,
    temperature_coefficient_of_temperature: u16,
}

impl View for FactoryCalibrationData {
    /// The coefficients C1 to C6 of the datasheet, in order.
    type V = (u16, u16, u16, u16, u16, u16);

    closed spec fn view(&self) -> (u16, u16, u16, u16, u16, u16) {
        (
            self.pressure_sensitivity,
            self.pressure_offset,
            self.temperature_coefficient_of_pressure_sensitivty,
            self.temperature_coefficient_of_pressure_offset,
            self.reference_temperature,
            self.temperature_coefficient_of_temperature,
        )
    }
}

/// The CRC that the first PROM word carries in its top four bits.
pub open spec fn prom_expected_crc(prom: Seq<u16>) -> u8 {
    ((0xF000u16 & prom[0]) >> 12u16) as u8
}

/// The CRC computed over the PROM with the CRC bits of the first word cleared.
pub open spec fn prom_computed_crc(prom: Seq<u16>) -> u8 {
    spec_crc4(prom.update(0, prom[0] & 0x0FFFu16))
}

impl FactoryCalibrationData {
    /// Checks the CRC of the seven PROM words and parses the six coefficients
    /// that follow the first word.
    pub fn from_prom<E>(prom: [u16; 7]) -> (r: Result<Self, SensorError<E>>)
        ensures
            r is Ok <==> prom_expected_crc(prom@) == prom_computed_crc(prom@),
            r matches Ok(data) ==> data@ == (prom@[1], prom@[2], prom@[3], prom@[4], prom@[5], prom@[6]),
            r matches Err(e) ==> e == (SensorError::<E>::PromCrcMismatch {
                got: prom_computed_crc(prom@),
                expected: prom_expected_crc(prom@),
            }),
    {
        let mut prom = prom;
        let ghost original = prom@;
        let expected_crc4 = ((0xF000 & prom[0]) >> 12) as u8;
        prom[0] = prom[0] & 0x0FFF;
        assert(prom@ == original.update(0, original[0] & 0x0FFFu16));
        let got_crc4 = crc4(&prom);
        if expected_crc4 != got_crc4 {
            return Err(SensorError::PromCrcMismatch { expected: expected_crc4, got: got_crc4 });
        }
        Ok(FactoryCalibrationData {
            pressure_sensitivity: prom[1],
            pressure_offset: prom[2],
            temperature_coefficient_of_pressure_sensitivty: prom[3],
            temperature_coefficient_of_pressure_offset: prom[4],
            reference_temperature: prom[5],
            temperature_coefficient_of_temperature: prom[6],
        })
    }
}

/// An uninitialised ms5837 object.
pub struct Uninitialised<I2C, D> {
    i2c: I2C,
    sleep: D,
}

impl<I2C, D> State for Uninitialised<I2C, D> {}

impl<I2C, D> Sealed for Uninitialised<I2C, D> {}

impl<I2C, D> Uninitialised<I2C, D> {
    /// The I2C handle of the driver.
    pub closed spec fn spec_i2c(&self) -> I2C {
        self.i2c
    }

    /// The delay of the driver.
    pub closed spec fn spec_sleep(&self) -> D {
        self.sleep
    }

    /// The I2C handle, for the transfers of an operation.
    pub fn i2c_mut(&mut self) -> (r: &mut I2C)
        ensures
            *r == old(self).spec_i2c(),
            final(self).spec_i2c() == *final(r),
            final(self).spec_sleep() == old(self).spec_sleep(),
    {
        &mut self.i2c
    }

    /// Releases the i2c handle consuming the driver object.
    pub fn release(self) -> (r: (I2C, D))
        ensures
            r == (self.spec_i2c(), self.spec_sleep()),
    {
        (self.i2c, self.sleep)
    }

    /// The initialised driver, once the calibration data is read and checked.
    pub fn into_initialised(self, calibration_data: FactoryCalibrationData) -> (r: Initialised<
        I2C,
        D,
    >)
        ensures
            r.spec_i2c() == self.spec_i2c(),
            r.spec_sleep() == self.spec_sleep(),
            r.spec_calibration_data() == calibration_data,
    {
        Initialised { i2c: self.i2c, calibration_data, sleep: self.sleep }
    }
}

/// An initialised ms5837 object.
pub struct Initialised<I2C, D> {
    i2c: I2C,
    calibration_data: FactoryCalibrationData,
    sleep: D,
}

impl<I2C, D> State for Initialised<I2C, D> {}

impl<I2C, D> Sealed for Initialised<I2C, D> {}

impl<I2C, D> Initialised<I2C, D> {
    /// The I2C handle of the driver.
    pub closed spec fn spec_i2c(&self) -> I2C {
        self.i2c
    }

    /// The delay of the driver.
    pub closed spec fn spec_sleep(&self) -> D {
        self.sleep
    }

    /// The calibration data of the driver.
    pub closed spec fn spec_calibration_data(&self) -> FactoryCalibrationData {
        self.calibration_data
    }

    /// The I2C handle and the delay, for the transfers and waits of a
    /// measurement; the calibration data stays as it is.
    pub fn bus_mut(&mut self) -> (r: (&mut I2C, &mut D))
        ensures
            *r.0 == old(self).spec_i2c(),
            *r.1 == old(self).spec_sleep(),
            final(self).spec_i2c() == *final(r.0),
            final(self).spec_sleep() == *final(r.1),
            final(self).spec_calibration_data() == old(self).spec_calibration_data(),
    {
        (&mut self.i2c, &mut self.sleep)
    }

    /// Release the i2c handle consuming the driver.
    pub fn release(self) -> (r: (I2C, D))
        ensures
            r == (self.spec_i2c(), self.spec_sleep()),
    {
        (self.i2c, self.sleep)
    }
}

/// Largest raw reading of the 24-bit ADC, plus one.
pub const ADC_RANGE: u32 = 0x100_0000;

/// A raw ADC reading from the three bytes that the sensor answers to an ADC
/// read, most significant first.
pub fn adc_reading(bytes: [u8; 3]) -> (r: u32)
    ensures
        r == bytes@[0] * 65536 + bytes@[1] * 256 + bytes@[2],
        r < ADC_RANGE,
{
    (bytes[0] as u32) * 65536 + (bytes[1] as u32) * 256 + (bytes[2] as u32)
}

/// Integer division rounding towards zero.
pub open spec fn trunc_div(a: int, b: int) -> int {
    if a >= 0 {
        a / b
    } else {
        -((-a) / b)
    }
}

/// The first-order temperature, in hundredths of a degree Celsius, that the
/// raw temperature `adc_t` gives with calibration coefficients `c`.
pub open spec fn first_order_temperature(c: (u16, u16, u16, u16, u16, u16), adc_t: int) -> int {
    2000 + trunc_div((adc_t - c.4 * 256) * c.5, 8388608)
}

/// The second-order compensated temperature, in hundredths of a degree
/// Celsius, and pressure, in tenths of a millibar, that the raw temperature
/// `adc_t` and raw pressure `adc_p` give with calibration coefficients `c`.
/// The first-order temperature is that of `first_order_temperature`; every
/// later division by a power of two rounds down, as an arithmetic shift does.
pub open spec fn compensated(c: (u16, u16, u16, u16, u16, u16), adc_t: int, adc_p: int) -> (
    int,
    int,
) {
    let dt = adc_t - c.4 * 256;
    let temperature = first_order_temperature(c, adc_t);
    let dev = temperature - 2000;
    let low = temperature + 1500;
    let t2 = if temperature < 2000 {
        (3 * (dt * dt)) / 8589934592
    } else {
        (2 * (dt * dt)) / 137438953472
    };
    let offset2 = if temperature < 2000 {
        (3 * (dev * dev)) / 2 + if temperature < -1500 {
            7 * (low * low)
        } else {
            0
        }
    } else {
        (dev * dev) / 16
    };
    let sensitivity2 = if temperature < 2000 {
        (5 * (dev * dev)) / 8 + if temperature < -1500 {
            4 * (low * low)
        } else {
            0
        }
    } else {
        0
    };
    let offset = c.1 * 65536 + (c.3 * dt) / 128 - offset2;
    let sensitivity = c.0 * 32768 + (c.2 * dt) / 256 - sensitivity2;
    let pressure = ((adc_p * sensitivity) / 2097152 - offset) / 8192;
    (temperature - t2, pressure)
}

/// A compensated measurement in the integer units of the datasheet.
#[derive(Debug, Clone, Copy, PartialEq, Eq, Structural)]
pub struct TemperaturePressureCounts {
    /// Temperature in hundredths of a degree Celsius
    pub temperature: i64,
    /// Pressure in tenths of a millibar
    pub pressure: i64,
}

proof fn lemma_shifts(x: i64)
    ensures
        x >> 4u64 == x / 16,
        x >> 7u64 == x / 128,
        x >> 8u64 == x / 256,
        x >> 13u64 == x / 8192,
        x >> 21u64 == x / 2097152,
        x >> 33u64 == x / 8589934592,
        x >> 37u64 == x / 137438953472,
{
    assert(x >> 4u64 == x / 16) by (bit_vector);
    assert(x >> 7u64 == x / 128) by (bit_vector);
    assert(x >> 8u64 == x / 256) by (bit_vector);
    assert(x >> 13u64 == x / 8192) by (bit_vector);
    assert(x >> 21u64 == x / 2097152) by (bit_vector);
    assert(x >> 33u64 == x / 8589934592) by (bit_vector);
    assert(x >> 37u64 == x / 137438953472) by (bit_vector);
}

proof fn lemma_coefficient_shifts(c: i64)
    requires
        0 <= c < 65536,
    ensures
        c << 8u64 == c * 256,
        c << 15u64 == c * 32768,
        c << 16u64 == c * 65536,
{
    assert(c << 8u64 == c * 256 && c << 15u64 == c * 32768 && c << 16u64 == c * 65536)
        by (bit_vector)
        requires
            0 <= c < 65536,
    ;
}

proof fn lemma_square_bound(a: int, b: int)
    by (nonlinear_arith)
    requires
        -b < a < b,
    ensures
        0 <= a * a < b * b,
{
}

proof fn lemma_product_bound(a: int, b: int, ba: int, bb: int)
    by (nonlinear_arith)
    requires
        -ba < a < ba,
        -bb < b < bb,
        ba > 0,
        bb > 0,
    ensures
        -(ba * bb) < a * b < ba * bb,
{
}

impl<I2C, D> Initialised<I2C, D> {
    /// Normalises the raw temperature into hundredths of a degree Celsius
    /// with the first-order formula of the datasheet.
    pub fn normalise_temperature(&self, temperature: u32) -> (r: i64)
        ensures
            r == first_order_temperature(self.spec_calibration_data()@, temperature as int),
    {
        let temperature = temperature as i64;
        let reference = self.calibration_data.reference_temperature as i64;
        let coefficient = self.calibration_data.temperature_coefficient_of_temperature as i64;
        let d_temperature: i64 = temperature - reference * 256;
        proof {
            lemma_product_bound(d_temperature as int, coefficient as int, 0x1_0000_0000, 65536);
        }
        2000 + d_temperature * coefficient / 8388608
    }

    /// Normalises raw temperature and pressure readings into a compensated
    /// temperature, in hundredths of a degree Celsius, and pressure, in
    /// tenths of a millibar.
    pub fn normalise_raw_measurement(&self, temperature: u32, pressure: u32) -> (r:
        TemperaturePressureCounts)
        requires
            temperature < ADC_RANGE,
            pressure < ADC_RANGE,
        ensures
            (r.temperature as int, r.pressure as int) == compensated(
                self.spec_calibration_data()@,
                temperature as int,
                pressure as int,
            ),
    {
        let ghost c = self.spec_calibration_data()@;
        let adc_temperature = temperature as i64;
        let adc_pressure = pressure as i64;
        let pressure_sensitivity = self.calibration_data.pressure_sensitivity as i64;
        let pressure_offset = self.calibration_data.pressure_offset as i64;
        let temperature_coefficient_of_pressure_sensitivty =
            self.calibration_data.temperature_coefficient_of_pressure_sensitivty as i64;
        let temperature_coefficient_of_pressure_offset =
            self.calibration_data.temperature_coefficient_of_pressure_offset as i64;
        let reference_temperature = self.calibration_data.reference_temperature as i64;
        let temperature_coefficient_of_temperature =
            self.calibration_data.temperature_coefficient_of_temperature as i64;
        proof {
            lemma_coefficient_shifts(pressure_sensitivity);
            lemma_coefficient_shifts(pressure_offset);
            lemma_coefficient_shifts(reference_temperature);
        }

        let dt = adc_temperature - (reference_temperature << 8u64);
        proof {
            lemma_product_bound(
                dt as int,
                temperature_coefficient_of_temperature as int,
                0x100_0000,
                65536,
            );
            lemma_product_bound(dt as int, dt as int, 0x100_0000, 0x100_0000);
        }

        // Actual temperature = 2000 + dT * C6 / 2^23
        let temperature = 2000 + dt * temperature_coefficient_of_temperature / 8388608;
        assert(temperature == first_order_temperature(c, adc_temperature as int));
        assert(-131072 < temperature - 2000 < 131072);
        proof {
            lemma_square_bound((temperature - 2000) as int, 131072);
        }
        let t2;
        let mut offset2: i64;
        let mut sensitivity2: i64;

        // Second order temperature compensation
        if temperature < 2000 {
            let square = 3 * (dt * dt);
            t2 = square >> 33u64;
            offset2 = 3 * ((temperature - 2000) * (temperature - 2000)) / 2;
            sensitivity2 = 5 * ((temperature - 2000) * (temperature - 2000)) / 8;
            proof {
                lemma_shifts(square);
            }

            if temperature < -1500 {
                proof {
                    lemma_square_bound((temperature + 1500) as int, 131072);
                }
                offset2 += 7 * ((temperature + 1500) * (temperature + 1500));
                sensitivity2 += 4 * ((temperature + 1500) * (temperature + 1500));
            }
        } else {
            let square = 2 * (dt * dt);
            t2 = square >> 37u64;
            offset2 = ((temperature - 2000) * (temperature - 2000)) >> 4u64;
            sensitivity2 = 0;
            proof {
                lemma_shifts(square);
                lemma_shifts(((temperature - 2000) * (temperature - 2000)) as i64);
            }
        }
        assert(0 <= offset2 < 0x40_0000_0000);
        assert(0 <= sensitivity2 < 0x20_0000_0000);

        proof {
            lemma_product_bound(
                temperature_coefficient_of_pressure_offset as int,
                dt as int,
                65536,
                0x100_0000,
            );
            lemma_product_bound(
                temperature_coefficient_of_pressure_sensitivty as int,
                dt as int,
                65536,
                0x100_0000,
            );
            lemma_shifts((temperature_coefficient_of_pressure_offset * dt) as i64);
            lemma_shifts((temperature_coefficient_of_pressure_sensitivty * dt) as i64);
        }
        // OFF = OFF_T1 + TCO * dT
        let mut offset = (pressure_offset << 16u64) + ((temperature_coefficient_of_pressure_offset
            * dt) >> 7u64);
        offset -= offset2;

        // Sensitivity at actual temperature = SENS_T1 + TCS * dT
        let mut sensitivty = (pressure_sensitivity << 15u64) + ((
        temperature_coefficient_of_pressure_sensitivty * dt) >> 8u64);
        sensitivty -= sensitivity2;

        proof {
            lemma_product_bound(adc_pressure as int, sensitivty as int, 0x100_0000, 0x40_0000_0000);
            lemma_shifts((adc_pressure * sensitivty) as i64);
        }
        // Temperature compensated pressure = D1 * SENS - OFF
        let scaled = (adc_pressure * sensitivty) >> 21u64;
        proof {
            lemma_shifts((scaled - offset) as i64);
        }
        let pressure = (scaled - offset) >> 13u64;
        let temperature = temperature - t2;

        TemperaturePressureCounts { pressure, temperature }
    }
}

/// The pressure offset at the actual temperature, OFF = C2 * 2^16 + C4 * dT / 2^7,
/// before the second-order correction.
pub open spec fn offset_at(c: (u16, u16, u16, u16, u16, u16), adc_t: int) -> int {
    c.1 * 65536 + (c.3 * (adc_t - c.4 * 256)) / 128
}

/// The sensitivity at the actual temperature, SENS = C1 * 2^15 + C3 * dT / 2^8,
/// before the second-order correction.
pub open spec fn sensitivity_at(c: (u16, u16, u16, u16, u16, u16), adc_t: int) -> int {
    c.0 * 32768 + (c.2 * (adc_t - c.4 * 256)) / 256
}

/// The compensated pressure depends on C2 (pressure offset) and C4
/// (temperature coefficient of the offset) only through OFF, and falls by one
/// tenth of a millibar for each 2^13 that OFF rises: two calibrations that
/// differ only in C2 and C4 give pressures that differ by `k` when their OFF
/// differ by `k * 2^13`. The temperature does not depend on them.
pub proof fn lemma_pressure_follows_offset(
    c: (u16, u16, u16, u16, u16, u16),
    c2: u16,
    c4: u16,
    adc_t: int,
    adc_p: int,
    k: int,
)
    requires
        offset_at((c.0, c2, c.2, c4, c.4, c.5), adc_t) == offset_at(c, adc_t) + 8192 * k,
    ensures
        compensated((c.0, c2, c.2, c4, c.4, c.5), adc_t, adc_p).1 == compensated(c, adc_t, adc_p).1
            - k,
        compensated((c.0, c2, c.2, c4, c.4, c.5), adc_t, adc_p).0 == compensated(
            c,
            adc_t,
            adc_p,
        ).0,
{
    let d = (c.0, c2, c.2, c4, c.4, c.5);
    let t = first_order_temperature(c, adc_t);
    assert(first_order_temperature(d, adc_t) == t);
    let sens2 = if t < 2000 {
        (5 * ((t - 2000) * (t - 2000))) / 8 + if t < -1500 {
            4 * ((t + 1500) * (t + 1500))
        } else {
            0
        }
    } else {
        0
    };
    let x = (adc_p * (sensitivity_at(c, adc_t) - sens2)) / 2097152;
    let o = offset_at(c, adc_t);
    let off2 = if t < 2000 {
        (3 * ((t - 2000) * (t - 2000))) / 2 + if t < -1500 {
            7 * ((t + 1500) * (t + 1500))
        } else {
            0
        }
    } else {
        ((t - 2000) * (t - 2000)) / 16
    };
    assert(compensated(c, adc_t, adc_p).1 == (x - (o - off2)) / 8192);
    assert(compensated(d, adc_t, adc_p).1 == (x - (o + 8192 * k - off2)) / 8192);
    assert((x - (o + 8192 * k - off2)) / 8192 == (x - (o - off2)) / 8192 - k) by {
        vstd::arithmetic::div_mod::lemma_hoist_over_denominator(x - (o - off2), -k, 8192);
    }
}

/// The compensated pressure depends on C1 (pressure sensitivity) and C3
/// (temperature coefficient of the sensitivity) only through SENS: two
/// calibrations that differ only in C1 and C3 and have the same SENS give the
/// same temperature and pressure.
pub proof fn lemma_pressure_follows_sensitivity(
    c: (u16, u16, u16, u16, u16, u16),
    c1: u16,
    c3: u16,
    adc_t: int,
    adc_p: int,
)
    requires
        sensitivity_at((c1, c.1, c3, c.3, c.4, c.5), adc_t) == sensitivity_at(c, adc_t),
    ensures
        compensated((c1, c.1, c3, c.3, c.4, c.5), adc_t, adc_p) == compensated(c, adc_t, adc_p),
{
    let d = (c1, c.1, c3, c.3, c.4, c.5);
    assert(first_order_temperature(d, adc_t) == first_order_temperature(c, adc_t));
}

/// C6 (temperature coefficient of the temperature) acts only through the
/// first-order temperature: two calibrations that differ only in C6 and give
/// the same first-order temperature for a reading give the same compensated
/// temperature and pressure for it.
pub proof fn lemma_c6_acts_through_temperature(
    c: (u16, u16, u16, u16, u16, u16),
    c6: u16,
    adc_t: int,
    adc_p: int,
)
    requires
        first_order_temperature((c.0, c.1, c.2, c.3, c.4, c6), adc_t) == first_order_temperature(
            c,
            adc_t,
        ),
    ensures
        compensated((c.0, c.1, c.2, c.3, c.4, c6), adc_t, adc_p) == compensated(c, adc_t, adc_p),
{
}

/// The compensated temperature does not depend on the raw pressure, nor on
/// the pressure coefficients C1 to C4.
pub proof fn lemma_temperature_ignores_pressure_terms(
    c: (u16, u16, u16, u16, u16, u16),
    d: (u16, u16, u16, u16, u16, u16),
    adc_t: int,
    adc_p: int,
    adc_p2: int,
)
    requires
        d.4 == c.4,
        d.5 == c.5,
    ensures
        compensated(d, adc_t, adc_p2).0 == compensated(c, adc_t, adc_p).0,
{
    assert(first_order_temperature(d, adc_t) == first_order_temperature(c, adc_t));
}

/// A PROM whose first word carries in bits 15..12 the CRC-4 of the PROM
/// with those four bits cleared passes the check, whatever the other bits
/// hold: writing that CRC into any PROM gives one that `from_prom` accepts.
pub proof fn lemma_prom_with_its_crc_is_accepted(prom: Seq<u16>)
    requires
        prom.len() == 7,
    ensures
        ({
            let crc = spec_crc4(prom.update(0, prom[0] & 0x0FFFu16));
            let signed = prom.update(0, (prom[0] & 0x0FFFu16) | ((crc as u16) << 12u16));
            prom_expected_crc(signed) == prom_computed_crc(signed)
        }),
{
    let cleared = prom.update(0, prom[0] & 0x0FFFu16);
    let crc = spec_crc4(cleared);
    let reg = crc4_register(word_bytes(cleared.push(0u16)));
    let n: u16 = (reg >> 12u16) & 0xF;
    assert(n < 16) by (bit_vector)
        requires
            n == (reg >> 12u16) & 0xF,
    ;
    assert(crc as u16 == n);
    let c: u16 = crc as u16;
    let p0 = prom[0];
    let w = (p0 & 0x0FFFu16) | (c << 12u16);
    assert(w & 0x0FFFu16 == p0 & 0x0FFFu16 && (0xF000u16 & w) >> 12u16 == c) by (bit_vector)
        requires
            w == (p0 & 0x0FFFu16) | (c << 12u16),
            c < 16,
    ;
    let signed = prom.update(0, w);
    assert(signed.update(0, signed[0] & 0x0FFFu16) =~= cleared);
}

/// The CRC that the check computes does not depend on bits 15..12 of the
/// first word, which carry the expected CRC: two PROMs that differ only
/// there have the same computed CRC.
pub proof fn lemma_computed_crc_ignores_crc_nibble(prom: Seq<u16>, other: Seq<u16>)
    requires
        prom.len() == 7,
        other.len() == 7,
        forall|i: int| 1 <= i < 7 ==> prom[i] == other[i],
        prom[0] & 0x0FFFu16 == other[0] & 0x0FFFu16,
    ensures
        prom_computed_crc(prom) == prom_computed_crc(other),
{
    assert(prom.update(0, prom[0] & 0x0FFFu16) =~= other.update(0, other[0] & 0x0FFFu16));
}

/// At the reference temperature reading, D2 = C5 * 2^8, the temperature is
/// exactly 20.00 degrees and no second-order term applies: the pressure is
/// (D1 * C1 * 2^15 / 2^21 - C2 * 2^16) / 2^13, from the pressure sensitivity
/// C1 and the pressure offset C2 alone.
pub proof fn lemma_reference_temperature_point(c: (u16, u16, u16, u16, u16, u16), adc_p: int)
    ensures
        compensated(c, c.4 * 256, adc_p) == (
            2000int,
            ((adc_p * (c.0 * 32768)) / 2097152 - c.1 * 65536) / 8192,
        ),
{
    assert(first_order_temperature(c, c.4 * 256) == 2000);
}

/// The second-order correction never raises the temperature: the compensated
/// temperature is at most the first-order one.
pub proof fn lemma_second_order_lowers_temperature(
    c: (u16, u16, u16, u16, u16, u16),
    adc_t: int,
    adc_p: int,
)
    ensures
        compensated(c, adc_t, adc_p).0 <= first_order_temperature(c, adc_t),
{
    let dt = adc_t - c.4 * 256;
    assert(dt * dt >= 0) by (nonlinear_arith);
}

/// Above the reference reading the first-order temperature rises by C6
/// hundredths of a degree for every 2^23 counts of D2: C6 is the temperature
/// coefficient of the temperature, on the scale of the datasheet.
pub proof fn lemma_temperature_slope(c: (u16, u16, u16, u16, u16, u16), adc_t: int)
    requires
        adc_t >= c.4 * 256,
    ensures
        first_order_temperature(c, adc_t + 8388608) == first_order_temperature(c, adc_t) + c.5,
{
    let dt = adc_t - c.4 * 256;
    assert(dt * c.5 >= 0) by (nonlinear_arith)
        requires
            dt >= 0,
    ;
    assert((dt + 8388608) * c.5 == dt * c.5 + c.5 * 8388608) by (nonlinear_arith);
    vstd::arithmetic::div_mod::lemma_hoist_over_denominator(dt * c.5, c.5 as int, 8388608);
}

} // verus!
