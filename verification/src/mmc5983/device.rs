//! State and decisions of the MMC5983MA driver: what each operation writes to
//! the control registers, how the driver state follows, and how the values
//! read back are decoded.
use vstd::prelude::*;

use core::marker::PhantomData;

use crate::mmc5983::interface::{
    i2c_write_bytes, lemma_write_bytes_agree, spi_write_bytes, I2cInterface, SpiInterface,
};
use crate::mmc5983::mode::OneShot;
use crate::mmc5983::register_address::{
    INTERNAL_CONTROL_0_ADDR, INTERNAL_CONTROL_1_ADDR, INTERNAL_CONTROL_2_ADDR,
    INTERNAL_CONTROL_3_ADDR, with_bandwidth_bits, with_output_rate_bits, with_set_period_bits, InternalControl0,
    InternalControl1, InternalControl2, InternalControl3, ProductId1, RegRead,
};
use crate::mmc5983::types::{BandwidthMode, Error, MagOutputDataRate, MagneticField, ProductId, SetResetPeriod, Status};

verus! {

/// The offset that a new driver assumes on each axis: the middle of the
/// 18-bit range.
pub const DEFAULT_OFFSET: u32 = 131072;

/// Number of output registers read for one magnetic field measurement, from
/// Xout0 (`0x00`) to XYZout2 (`0x06`).
pub const MAGNETIC_FIELD_LEN: usize = 7;

/// What the driver remembers of the device: the last values of the four
/// internal control registers and the offset of each axis.
pub struct DriverState {
    pub ctrl0: u8,
    pub ctrl1: u8,
    pub ctrl2: u8,
    pub ctrl3: u8,
    pub offset: (u32, u32, u32),
}

/// The state of a newly created driver.
pub open spec fn initial_state() -> DriverState {
    DriverState {
        ctrl0: 0,
        ctrl1: 0,
        ctrl2: 0,
        ctrl3: 0,
        offset: (DEFAULT_OFFSET, DEFAULT_OFFSET, DEFAULT_OFFSET),
    }
}

/// Each remembered control register holds only bits that the register
/// defines.
pub open spec fn registers_well_formed(s: DriverState) -> bool {
    &&& s.ctrl0 & !InternalControl0::ALL_BITS == 0
    &&& s.ctrl1 & !InternalControl1::ALL_BITS == 0
    &&& s.ctrl2 & !InternalControl2::ALL_BITS == 0
    &&& s.ctrl3 & !InternalControl3::ALL_BITS == 0
}

/// The register writes of initialisation, after the product identifier was
/// accepted: software reset, OTP read, measurement done interrupt, and the
/// default 100 Hz bandwidth.
pub open spec fn init_commands() -> Seq<Command> {
    seq![
        Command::SoftwareReset,
        Command::ReadOtp,
        Command::EnableMeasDoneInterrupt,
        Command::SetBandwidth(BandwidthMode::Hz100),
    ]
}

/// MMC5983MA device driver
#[derive(Debug)]
pub struct Mmc5983<DI, MODE> {
    /// Digital interface: I2C or SPI
    iface: DI,
    /// Internal control registers
    ctrl_reg0: InternalControl0,
    ctrl_reg1: InternalControl1,
    ctrl_reg2: InternalControl2,
    ctrl_reg3: InternalControl3,
    /// Driver internal data
    offset: MagneticField,
    /// Operating mode marker
    _mode: PhantomData<MODE>,
}

impl<DI, MODE> View for Mmc5983<DI, MODE> {
    type V = DriverState;

    closed spec fn view(&self) -> DriverState {
        DriverState {
            ctrl0: self.ctrl_reg0@,
            ctrl1: self.ctrl_reg1@,
            ctrl2: self.ctrl_reg2@,
            ctrl3: self.ctrl_reg3@,
            offset: self.offset@,
        }
    }
}

impl<DI, MODE> Mmc5983<DI, MODE> {
    /// The bus interface of the driver.
    pub closed spec fn spec_iface(&self) -> DI {
        self.iface
    }

    /// The registers that the driver remembers hold only defined bits.
    pub open spec fn wf(&self) -> bool {
        registers_well_formed(self@)
    }
}

/// One register write of the driver.
#[derive(Debug, Clone, Copy, PartialEq, Eq, Structural)]
pub struct RegisterWrite {
    /// Register address
    pub addr: u8,
    /// Value written
    pub data: u8,
}

/// The register writes by which the driver operates the device.
#[derive(Debug, Clone, Copy, PartialEq, Eq, Structural)]
pub enum Command {
    /// Software reset
    SoftwareReset,
    /// Read the OTP memory
    ReadOtp,
    /// Enable the measurement done interrupt
    EnableMeasDoneInterrupt,
    /// Set the measurement bandwidth
    SetBandwidth(BandwidthMode),
    /// SET operation (magnetize sensor in positive direction)
    SetPulse,
    /// RESET operation (magnetize sensor in negative direction)
    ResetPulse,
    /// Self-test SET current
    SetExtraPulse,
    /// Self-test RESET current
    ResetExtraPulse,
    /// Trigger a temperature measurement
    MeasureTemperature,
    /// Trigger a magnetic field measurement
    MeasureMagneticField,
    /// Enable automatic SET/RESET operations with the given period
    EnableAutoSetReset(SetResetPeriod),
    /// Enable continuous measurement mode at the given frequency
    EnableContinuous(MagOutputDataRate),
    /// Change the continuous mode measurement frequency
    SetFrequency(MagOutputDataRate),
    /// Disable continuous mode and automatic SET/RESET
    DisableContinuous,
    /// Disable automatic SET/RESET operations
    DisableAutoSetReset,
}

/// The register (address, value) that `cmd` writes when the driver is in
/// state `s`.
pub open spec fn command_register(s: DriverState, cmd: Command) -> (u8, u8) {
    match cmd {
        Command::SoftwareReset => (
            INTERNAL_CONTROL_1_ADDR,
            s.ctrl1 | InternalControl1::SW_RST,
        ),
        Command::ReadOtp => (INTERNAL_CONTROL_0_ADDR, s.ctrl0 | InternalControl0::OTP_READ),
        Command::EnableMeasDoneInterrupt => (
            INTERNAL_CONTROL_0_ADDR,
            s.ctrl0 | InternalControl0::INT_MEAS_DONE_EN,
        ),
        Command::SetBandwidth(bw) => (
            INTERNAL_CONTROL_1_ADDR,
            with_bandwidth_bits(s.ctrl1, bw),
        ),
        Command::SetPulse => (INTERNAL_CONTROL_0_ADDR, s.ctrl0 | InternalControl0::SET),
        Command::ResetPulse => (INTERNAL_CONTROL_0_ADDR, s.ctrl0 | InternalControl0::RESET),
        Command::SetExtraPulse => (INTERNAL_CONTROL_3_ADDR, s.ctrl3 | InternalControl3::ST_ENP),
        Command::ResetExtraPulse => (INTERNAL_CONTROL_3_ADDR, s.ctrl3 | InternalControl3::ST_ENM),
        Command::MeasureTemperature => (
            INTERNAL_CONTROL_0_ADDR,
            s.ctrl0 | InternalControl0::TM_T,
        ),
        Command::MeasureMagneticField => (
            INTERNAL_CONTROL_0_ADDR,
            s.ctrl0 | InternalControl0::TM_M,
        ),
        Command::EnableAutoSetReset(period) => (
            INTERNAL_CONTROL_2_ADDR,
            with_set_period_bits(s.ctrl2, period) | InternalControl2::EN_PRD_SET,
        ),
        Command::EnableContinuous(rate) => (
            INTERNAL_CONTROL_2_ADDR,
            with_output_rate_bits(s.ctrl2, rate) | InternalControl2::CMM_EN,
        ),
        Command::SetFrequency(rate) => (
            INTERNAL_CONTROL_2_ADDR,
            with_output_rate_bits(s.ctrl2, rate),
        ),
        Command::DisableContinuous => (
            INTERNAL_CONTROL_2_ADDR,
            s.ctrl2 & !(InternalControl2::CMM_EN | InternalControl2::EN_PRD_SET),
        ),
        Command::DisableAutoSetReset => (
            INTERNAL_CONTROL_2_ADDR,
            s.ctrl2 & !InternalControl2::EN_PRD_SET,
        ),
    }
}

/// The driver state once the write of `cmd` has succeeded in state `s`.
pub open spec fn after_command(s: DriverState, cmd: Command) -> DriverState {
    let written = command_register(s, cmd).1;
    match cmd {
        Command::SoftwareReset => DriverState { ctrl1: 0, ..s },
        Command::ReadOtp => DriverState { ctrl0: written, ..s },
        Command::EnableMeasDoneInterrupt => DriverState { ctrl0: written, ..s },
        Command::SetBandwidth(_) => DriverState { ctrl1: written, ..s },
        Command::SetPulse => DriverState { ctrl0: s.ctrl0 & !InternalControl0::SET, ..s },
        Command::ResetPulse => DriverState { ctrl0: s.ctrl0 & !InternalControl0::RESET, ..s },
        Command::SetExtraPulse => DriverState { ctrl0: s.ctrl0 & !InternalControl0::SET, ..s },
        Command::ResetExtraPulse => DriverState { ctrl0: s.ctrl0 & !InternalControl0::SET, ..s },
        Command::MeasureTemperature => s,
        Command::MeasureMagneticField => s,
        Command::EnableAutoSetReset(_) => DriverState { ctrl2: written, ..s },
        Command::EnableContinuous(_) => DriverState { ctrl2: written, ..s },
        Command::SetFrequency(_) => DriverState { ctrl2: written, ..s },
        Command::DisableContinuous => DriverState { ctrl2: written, ..s },
        Command::DisableAutoSetReset => DriverState { ctrl2: written, ..s },
    }
}

/// The driver state once every command of `cmds` has succeeded, in order.
pub open spec fn after_commands(s: DriverState, cmds: Seq<Command>) -> DriverState
    decreases cmds.len(),
{
    if cmds.len() == 0 {
        s
    } else {
        after_commands(after_command(s, cmds[0]), cmds.drop_first())
    }
}

/// The time in nanoseconds to wait after the write of `cmd` before the next
/// operation.
pub open spec fn settle_time_ns(cmd: Command) -> u32 {
    match cmd {
        Command::SetPulse => 1000,
        Command::ResetPulse => 1000,
        Command::SetExtraPulse => 500,
        Command::ResetExtraPulse => 500,
        _ => 0,
    }
}

/// An 18-bit axis reading from its bits 17..10, bits 9..2 and bits 1..0.
pub open spec fn axis_value(msb: u8, lsb: u8, low: u8) -> int {
    msb * 1024 + lsb * 4 + low
}

/// The magnetic field that the output registers Xout0 to XYZout2 hold.
pub open spec fn decoded_field(b: Seq<u8>) -> (int, int, int) {
    (
        axis_value(b[0], b[1], (b[6] >> 6u8) & 0b11),
        axis_value(b[2], b[3], (b[6] >> 4u8) & 0b11),
        axis_value(b[4], b[5], (b[6] >> 2u8) & 0b11),
    )
}

/// Joins the three parts of an 18-bit axis reading.
fn join_axis(msb: u8, lsb: u8, low: u8) -> (r: u32)
    requires
        low < 4,
    ensures
        r == axis_value(msb, lsb, low),
        r < 262144,
{
    let m = msb as u32;
    let l = lsb as u32;
    let t = low as u32;
    let r = (m << 10u32) | (l << 2u32) | t;
    assert(r == m * 1024 + l * 4 + t && r < 262144) by (bit_vector)
        requires
            r == (m << 10u32) | (l << 2u32) | t,
            m < 256,
            l < 256,
            t < 4,
    ;
    r
}

/// Decodes a magnetic field measurement from the seven output registers,
/// Xout0 (`0x00`) to XYZout2 (`0x06`), in order.
pub fn decode_magnetic_field(buffer: &[u8; 7]) -> (r: MagneticField)
    ensures
        r@.0 == decoded_field(buffer@).0,
        r@.1 == decoded_field(buffer@).1,
        r@.2 == decoded_field(buffer@).2,
        r@.0 < 262144,
        r@.1 < 262144,
        r@.2 < 262144,
{
    let xyz_2bit = buffer[6];
    let x_2bit = (xyz_2bit >> 6u8) & 0b11;
    let y_2bit = (xyz_2bit >> 4u8) & 0b11;
    let z_2bit = (xyz_2bit >> 2u8) & 0b11;
    assert(x_2bit < 4 && y_2bit < 4 && z_2bit < 4) by (bit_vector)
        requires
            x_2bit == (xyz_2bit >> 6u8) & 0b11,
            y_2bit == (xyz_2bit >> 4u8) & 0b11,
            z_2bit == (xyz_2bit >> 2u8) & 0b11,
    ;
    let x = join_axis(buffer[0], buffer[1], x_2bit);
    let y = join_axis(buffer[2], buffer[3], y_2bit);
    let z = join_axis(buffer[4], buffer[5], z_2bit);
    <MagneticField as RegRead<(u32, u32, u32)>>::from_data((x, y, z))
}

/// Accepts the product identifier read at initialisation only when it is the
/// MMC5983MA one.
pub fn check_product_id<CommE>(product_id: ProductId) -> (r: Result<(), Error<CommE>>)
    ensures
        r is Ok <==> product_id@ == ProductId1::ID,
        r matches Err(e) ==> e matches Error::InvalidId(id) && id@ == product_id@,
{
    if !product_id.is_correct() {
        return Err(Error::InvalidId(product_id));
    }
    Ok(())
}

/// The register writes of initialisation, after the product identifier was
/// accepted: software reset, OTP read, measurement done interrupt, and the
/// default 100 Hz bandwidth.
pub fn init_sequence() -> (r: [Command; 4])
    ensures
        r@ == init_commands(),
{
    let r = [
        Command::SoftwareReset,
        Command::ReadOtp,
        Command::EnableMeasDoneInterrupt,
        Command::SetBandwidth(BandwidthMode::Hz100),
    ];
    r
}

/// One step of a driver operation.
#[derive(Debug, Clone, Copy, PartialEq, Eq, Structural)]
pub enum Step {
    /// Write the command, then wait its settle time.
    Write(Command),
    /// Read the status until a magnetic measurement is done.
    AwaitMeasurement,
    /// Read the status until a temperature measurement is done.
    AwaitTemperature,
    /// Read the seven output registers and decode the field.
    ReadField,
}

/// Offset calibration: a measurement after a SET pulse, then one after a
/// RESET pulse; the offset is the midpoint of the two fields read.
pub fn calibration_steps() -> (r: [Step; 8])
    ensures
        r@ == seq![
            Step::Write(Command::SetPulse),
            Step::Write(Command::MeasureMagneticField),
            Step::AwaitMeasurement,
            Step::ReadField,
            Step::Write(Command::ResetPulse),
            Step::Write(Command::MeasureMagneticField),
            Step::AwaitMeasurement,
            Step::ReadField,
        ],
{
    let r = [
        Step::Write(Command::SetPulse),
        Step::Write(Command::MeasureMagneticField),
        Step::AwaitMeasurement,
        Step::ReadField,
        Step::Write(Command::ResetPulse),
        Step::Write(Command::MeasureMagneticField),
        Step::AwaitMeasurement,
        Step::ReadField,
    ];
    r
}

/// A new magnetic measurement: trigger it, wait for it, read it.
pub fn measurement_steps() -> (r: [Step; 3])
    ensures
        r@ == seq![
            Step::Write(Command::MeasureMagneticField),
            Step::AwaitMeasurement,
            Step::ReadField,
        ],
{
    let r = [
        Step::Write(Command::MeasureMagneticField),
        Step::AwaitMeasurement,
        Step::ReadField,
    ];
    r
}

/// A temperature measurement: trigger it and wait for it; the temperature
/// register is read afterwards.
pub fn temperature_steps() -> (r: [Step; 2])
    ensures
        r@ == seq![Step::Write(Command::MeasureTemperature), Step::AwaitTemperature],
{
    let r = [
        Step::Write(Command::MeasureTemperature),
        Step::AwaitTemperature,
    ];
    r
}

/// A reading in continuous mode: wait for the next measurement, read it.
pub fn continuous_reading_steps() -> (r: [Step; 2])
    ensures
        r@ == seq![Step::AwaitMeasurement, Step::ReadField],
{
    let r = [
        Step::AwaitMeasurement,
        Step::ReadField,
    ];
    r
}

impl Command {
    /// The time in nanoseconds to wait after this write before the next
    /// operation: the SET and RESET pulses need it.
    pub fn settle_time_ns(&self) -> (r: u32)
        ensures
            r == settle_time_ns(*self),
    {
        match self {
            Command::SetPulse => 1000,
            Command::ResetPulse => 1000,
            Command::SetExtraPulse => 500,
            Command::ResetExtraPulse => 500,
            _ => 0,
        }
    }
}

impl<I2C> Mmc5983<I2cInterface<I2C>, OneShot> {
    /// Create new instance of the MMC5983 device communicating through I2C.
    pub fn new_with_i2c(i2c: I2C) -> (r: Self)
        ensures
            r.spec_iface().i2c == i2c,
            r@ == initial_state(),
            r.wf(),
    {
        proof {
            lemma_initial_state_well_formed();
        }
        Mmc5983 {
            iface: I2cInterface { i2c },
            ctrl_reg0: InternalControl0::default(),
            ctrl_reg1: InternalControl1::default(),
            ctrl_reg2: InternalControl2::default(),
            ctrl_reg3: InternalControl3::default(),
            offset: <MagneticField as RegRead<(u32, u32, u32)>>::from_data(
                (DEFAULT_OFFSET, DEFAULT_OFFSET, DEFAULT_OFFSET),
            ),
            _mode: PhantomData,
        }
    }
}

impl<I2C, MODE> Mmc5983<I2cInterface<I2C>, MODE> {
    /// Destroy driver instance, return I2C bus.
    pub fn destroy(self) -> (r: I2C)
        ensures
            r == self.spec_iface().i2c,
    {
        self.iface.i2c
    }
}

impl<SPI> Mmc5983<SpiInterface<SPI>, OneShot> {
    /// Create new instance of the MMC5983 device communicating through SPI.
    pub fn new_with_spi(spi: SPI) -> (r: Self)
        ensures
            r.spec_iface().spi == spi,
            r@ == initial_state(),
            r.wf(),
    {
        proof {
            lemma_initial_state_well_formed();
        }
        Mmc5983 {
            iface: SpiInterface { spi },
            ctrl_reg0: InternalControl0::default(),
            ctrl_reg1: InternalControl1::default(),
            ctrl_reg2: InternalControl2::default(),
            ctrl_reg3: InternalControl3::default(),
            offset: <MagneticField as RegRead<(u32, u32, u32)>>::from_data(
                (DEFAULT_OFFSET, DEFAULT_OFFSET, DEFAULT_OFFSET),
            ),
            _mode: PhantomData,
        }
    }
}

impl<SPI, MODE> Mmc5983<SpiInterface<SPI>, MODE> {
    /// Destroy driver instance, return SPI bus.
    pub fn destroy(self) -> (r: SPI)
        ensures
            r == self.spec_iface().spi,
    {
        self.iface.spi
    }
}

impl<DI, MODE> Mmc5983<DI, MODE> {
    /// The register write that `cmd` makes in the current state.
    pub fn command_write(&self, cmd: Command) -> (w: RegisterWrite)
        ensures
            (w.addr, w.data) == command_register(self@, cmd),
    {
        match cmd {
            Command::SoftwareReset => RegisterWrite {
                addr: INTERNAL_CONTROL_1_ADDR,
                data: self.ctrl_reg1.union(InternalControl1::SW_RST).bits(),
            },
            Command::ReadOtp => RegisterWrite {
                addr: INTERNAL_CONTROL_0_ADDR,
                data: self.ctrl_reg0.union(InternalControl0::OTP_READ).bits(),
            },
            Command::EnableMeasDoneInterrupt => RegisterWrite {
                addr: INTERNAL_CONTROL_0_ADDR,
                data: self.ctrl_reg0.union(InternalControl0::INT_MEAS_DONE_EN).bits(),
            },
            Command::SetBandwidth(bw) => RegisterWrite {
                addr: INTERNAL_CONTROL_1_ADDR,
                data: self.ctrl_reg1.with_bandwidth(bw).bits(),
            },
            Command::SetPulse => RegisterWrite {
                addr: INTERNAL_CONTROL_0_ADDR,
                data: self.ctrl_reg0.union(InternalControl0::SET).bits(),
            },
            Command::ResetPulse => RegisterWrite {
                addr: INTERNAL_CONTROL_0_ADDR,
                data: self.ctrl_reg0.union(InternalControl0::RESET).bits(),
            },
            Command::SetExtraPulse => RegisterWrite {
                addr: INTERNAL_CONTROL_3_ADDR,
                data: self.ctrl_reg3.union(InternalControl3::ST_ENP).bits(),
            },
            Command::ResetExtraPulse => RegisterWrite {
                addr: INTERNAL_CONTROL_3_ADDR,
                data: self.ctrl_reg3.union(InternalControl3::ST_ENM).bits(),
            },
            Command::MeasureTemperature => RegisterWrite {
                addr: INTERNAL_CONTROL_0_ADDR,
                data: self.ctrl_reg0.union(InternalControl0::TM_T).bits(),
            },
            Command::MeasureMagneticField => RegisterWrite {
                addr: INTERNAL_CONTROL_0_ADDR,
                data: self.ctrl_reg0.union(InternalControl0::TM_M).bits(),
            },
            Command::EnableAutoSetReset(period) => RegisterWrite {
                addr: INTERNAL_CONTROL_2_ADDR,
                data: self.ctrl_reg2.with_set_period(period).union(
                    InternalControl2::EN_PRD_SET,
                ).bits(),
            },
            Command::EnableContinuous(rate) => RegisterWrite {
                addr: INTERNAL_CONTROL_2_ADDR,
                data: self.ctrl_reg2.with_output_rate(rate).union(InternalControl2::CMM_EN).bits(),
            },
            Command::SetFrequency(rate) => RegisterWrite {
                addr: INTERNAL_CONTROL_2_ADDR,
                data: self.ctrl_reg2.with_output_rate(rate).bits(),
            },
            Command::DisableContinuous => RegisterWrite {
                addr: INTERNAL_CONTROL_2_ADDR,
                data: self.ctrl_reg2.difference(
                    InternalControl2::CMM_EN | InternalControl2::EN_PRD_SET,
                ).bits(),
            },
            Command::DisableAutoSetReset => RegisterWrite {
                addr: INTERNAL_CONTROL_2_ADDR,
                data: self.ctrl_reg2.difference(InternalControl2::EN_PRD_SET).bits(),
            },
        }
    }

    /// Records that the write of `cmd` has succeeded.
    pub fn command_done(&mut self, cmd: Command)
        ensures
            final(self)@ == after_command(old(self)@, cmd),
            final(self).spec_iface() == old(self).spec_iface(),
            old(self).wf() ==> final(self).wf(),
    {
        proof {
            if old(self).wf() {
                lemma_after_command_well_formed(old(self)@, cmd);
            }
        }
        match cmd {
            Command::SoftwareReset => {
                self.ctrl_reg1 = InternalControl1::default();
            },
            Command::ReadOtp => {
                self.ctrl_reg0 = self.ctrl_reg0.union(InternalControl0::OTP_READ);
            },
            Command::EnableMeasDoneInterrupt => {
                self.ctrl_reg0 = self.ctrl_reg0.union(InternalControl0::INT_MEAS_DONE_EN);
            },
            Command::SetBandwidth(bw) => {
                self.ctrl_reg1 = self.ctrl_reg1.with_bandwidth(bw);
            },
            Command::SetPulse => {
                self.ctrl_reg0 = self.ctrl_reg0.difference(InternalControl0::SET);
            },
            Command::ResetPulse => {
                self.ctrl_reg0 = self.ctrl_reg0.difference(InternalControl0::RESET);
            },
            Command::SetExtraPulse => {
                self.ctrl_reg0 = self.ctrl_reg0.difference(InternalControl0::SET);
            },
            Command::ResetExtraPulse => {
                self.ctrl_reg0 = self.ctrl_reg0.difference(InternalControl0::SET);
            },
            Command::MeasureTemperature => {},
            Command::MeasureMagneticField => {},
            Command::EnableAutoSetReset(period) => {
                self.ctrl_reg2 = self.ctrl_reg2.with_set_period(period).union(
                    InternalControl2::EN_PRD_SET,
                );
            },
            Command::EnableContinuous(rate) => {
                self.ctrl_reg2 = self.ctrl_reg2.with_output_rate(rate).union(
                    InternalControl2::CMM_EN,
                );
            },
            Command::SetFrequency(rate) => {
                self.ctrl_reg2 = self.ctrl_reg2.with_output_rate(rate);
            },
            Command::DisableContinuous => {
                self.ctrl_reg2 = self.ctrl_reg2.difference(
                    InternalControl2::CMM_EN | InternalControl2::EN_PRD_SET,
                );
            },
            Command::DisableAutoSetReset => {
                self.ctrl_reg2 = self.ctrl_reg2.difference(InternalControl2::EN_PRD_SET);
            },
        }
    }

    /// The mode marker changed, the bus and the registers kept.
    pub(crate) fn change_mode<NEW>(self) -> (r: Mmc5983<DI, NEW>)
        ensures
            r@ == self@,
            r.spec_iface() == self.spec_iface(),
            r.wf() == self.wf(),
    {
        Mmc5983 {
            iface: self.iface,
            ctrl_reg0: self.ctrl_reg0,
            ctrl_reg1: self.ctrl_reg1,
            ctrl_reg2: self.ctrl_reg2,
            ctrl_reg3: self.ctrl_reg3,
            offset: self.offset,
            _mode: PhantomData,
        }
    }

    /// The bus interface, for the transfers of an operation; the registers
    /// that the driver remembers stay as they are.
    pub fn iface_mut(&mut self) -> (r: &mut DI)
        ensures
            *r == old(self).spec_iface(),
            final(self).spec_iface() == *final(r),
            final(self)@ == old(self)@,
    {
        &mut self.iface
    }

    /// The last value written to internal control register 2.
    pub fn ctrl_reg2(&self) -> (r: InternalControl2)
        ensures
            r@ == self@.ctrl2,
    {
        self.ctrl_reg2
    }

    /// The offset currently subtracted from raw readings.
    pub fn offset(&self) -> (r: MagneticField)
        ensures
            r@ == self@.offset,
    {
        self.offset
    }

    /// Stores as offset the midpoint of a reading taken after a SET and one
    /// taken after a RESET, and returns it.
    pub fn record_offset(&mut self, field1: MagneticField, field2: MagneticField)
        -> (r: MagneticField)
        requires
            field1@.0 + field2@.0 <= u32::MAX,
            field1@.1 + field2@.1 <= u32::MAX,
            field1@.2 + field2@.2 <= u32::MAX,
        ensures
            r@ == (
                ((field1@.0 + field2@.0) / 2) as u32,
                ((field1@.1 + field2@.1) / 2) as u32,
                ((field1@.2 + field2@.2) / 2) as u32,
            ),
            final(self)@ == (DriverState { offset: r@, ..old(self)@ }),
            final(self).spec_iface() == old(self).spec_iface(),
            old(self).wf() ==> final(self).wf(),
    {
        let offset = <MagneticField as RegRead<(u32, u32, u32)>>::from_data(
            (
                (field1.x_raw() + field2.x_raw()) / 2,
                (field1.y_raw() + field2.y_raw()) / 2,
                (field1.z_raw() + field2.z_raw()) / 2,
            ),
        );
        self.offset = offset;
        offset
    }

    /// A raw reading with the offset subtracted from each axis, modulo 2^32:
    /// a reading below the offset gives the two's complement of the
    /// difference.
    pub fn calibrated(&self, raw: MagneticField) -> (r: MagneticField)
        ensures
            r@.0 == calibrated_axis(raw@.0, self@.offset.0),
            r@.1 == calibrated_axis(raw@.1, self@.offset.1),
            r@.2 == calibrated_axis(raw@.2, self@.offset.2),
    {
        let offset = self.offset;
        <MagneticField as RegRead<(u32, u32, u32)>>::from_data(
            (
                raw.x_raw().wrapping_sub(offset.x_raw()),
                raw.y_raw().wrapping_sub(offset.y_raw()),
                raw.z_raw().wrapping_sub(offset.z_raw()),
            ),
        )
    }
}

/// What a one-shot read does next.
#[derive(Debug, Clone, Copy, PartialEq, Eq, Structural)]
pub enum OneShotStep {
    /// A measurement is done: read the output registers.
    ReadField,
    /// No measurement is done: write this command to trigger one, and try
    /// again later.
    Trigger(Command),
}

impl<DI> Mmc5983<DI, OneShot> {
    /// Decides the next step of a one-shot read from the device status.
    pub fn one_shot_step(&self, status: Status) -> (r: OneShotStep)
        ensures
            status.spec_meas_done() ==> r == OneShotStep::ReadField,
            !status.spec_meas_done() ==> r == OneShotStep::Trigger(Command::MeasureMagneticField),
    {
        if status.meas_done() {
            OneShotStep::ReadField
        } else {
            OneShotStep::Trigger(Command::MeasureMagneticField)
        }
    }
}

/// Every command writes one of the four internal control registers, and
/// never an output or status register.
pub proof fn lemma_commands_write_control_registers(s: DriverState, cmd: Command)
    ensures
        INTERNAL_CONTROL_0_ADDR <= command_register(s, cmd).0
            <= INTERNAL_CONTROL_3_ADDR,
{
}

/// Initialisation leaves the bandwidth at 100 Hz with no other flag of
/// internal control register 1, sets the OTP read and measurement done
/// interrupt flags, and keeps the other registers and the offset.
pub proof fn lemma_init_configures(s: DriverState)
    ensures
        ({
            let t = after_commands(s, init_commands());
            &&& t.ctrl1 == 0
            &&& t.ctrl0 == s.ctrl0 | InternalControl0::OTP_READ | InternalControl0::INT_MEAS_DONE_EN
            &&& t.ctrl2 == s.ctrl2
            &&& t.ctrl3 == s.ctrl3
            &&& t.offset == s.offset
        }),
{
    let cmds = seq![
        Command::SoftwareReset,
        Command::ReadOtp,
        Command::EnableMeasDoneInterrupt,
        Command::SetBandwidth(BandwidthMode::Hz100),
    ];
    let s1 = after_command(s, Command::SoftwareReset);
    let s2 = after_command(s1, Command::ReadOtp);
    let s3 = after_command(s2, Command::EnableMeasDoneInterrupt);
    let s4 = after_command(s3, Command::SetBandwidth(BandwidthMode::Hz100));
    reveal_with_fuel(after_commands, 5);
    assert(cmds.drop_first() =~= seq![
        Command::ReadOtp,
        Command::EnableMeasDoneInterrupt,
        Command::SetBandwidth(BandwidthMode::Hz100),
    ]);
    assert(cmds.drop_first().drop_first() =~= seq![
        Command::EnableMeasDoneInterrupt,
        Command::SetBandwidth(BandwidthMode::Hz100),
    ]);
    assert(cmds.drop_first().drop_first().drop_first() =~= seq![
        Command::SetBandwidth(BandwidthMode::Hz100),
    ]);
    assert(cmds.drop_first().drop_first().drop_first().drop_first() =~= Seq::<Command>::empty());
    assert(after_commands(s, cmds) == s4);
    let c1 = s4.ctrl1;
    assert(c1 == ((0u8 & !3u8) | 0u8) & 0b10111011u8);
    assert(c1 == 0) by (bit_vector)
        requires
            c1 == ((0u8 & !3u8) | 0u8) & 0b10111011u8,
    ;
    let c0 = s.ctrl0;
    let d = s4.ctrl0;
    assert(d == (c0 | 0x40u8) | 0x04u8);
    assert(d == c0 | 0x40u8 | 0x04u8) by (bit_vector)
        requires
            d == (c0 | 0x40u8) | 0x04u8,
    ;
}

/// The SET and RESET pulses are written with their flag set and are not
/// kept in the driver state; measurement triggers leave the state unchanged.
pub proof fn lemma_pulses_not_latched(s: DriverState)
    ensures
        command_register(s, Command::SetPulse).1 & InternalControl0::SET == InternalControl0::SET,
        after_command(s, Command::SetPulse).ctrl0 & InternalControl0::SET == 0,
        command_register(s, Command::ResetPulse).1 & InternalControl0::RESET
            == InternalControl0::RESET,
        after_command(s, Command::ResetPulse).ctrl0 & InternalControl0::RESET == 0,
        after_command(s, Command::MeasureTemperature) == s,
        after_command(s, Command::MeasureMagneticField) == s,
{
    let c = s.ctrl0;
    assert((c | 0x08u8) & 0x08u8 == 0x08u8 && (c & !0x08u8) & 0x08u8 == 0 && (c | 0x10u8) & 0x10u8
        == 0x10u8 && (c & !0x10u8) & 0x10u8 == 0) by (bit_vector);
}

/// The reading of one axis with `offset` subtracted, modulo 2^32.
pub open spec fn calibrated_axis(raw: u32, offset: u32) -> int {
    (raw - offset) % 0x1_0000_0000
}

/// Adding the offset back to a calibrated reading gives the raw reading, and
/// a reading equal to the offset calibrates to zero.
pub proof fn lemma_calibration_undone(raw: u32, offset: u32)
    ensures
        (calibrated_axis(raw, offset) + offset) % 0x1_0000_0000 == raw,
        calibrated_axis(offset, offset) == 0,
{
    assert(0 <= calibrated_axis(raw, offset) < 0x1_0000_0000);
    if raw >= offset {
        assert(calibrated_axis(raw, offset) == raw - offset);
    } else {
        assert(calibrated_axis(raw, offset) == raw - offset + 0x1_0000_0000);
    }
}

/// A new driver remembers only defined bits.
pub proof fn lemma_initial_state_well_formed()
    ensures
        registers_well_formed(initial_state()),
{
    assert(0u8 & !0x7Fu8 == 0 && 0u8 & !0xBBu8 == 0 && 0u8 & !0xFFu8 == 0 && 0u8 & !0x43u8 == 0)
        by (bit_vector);
}

proof fn lemma_flag_within(bits: u8, flag: u8, defined: u8)
    by (bit_vector)
    requires
        bits & !defined == 0,
        flag & !defined == 0,
    ensures
        (bits | flag) & !defined == 0,
        (bits & !flag) & !defined == 0,
{
}

/// Every command keeps the remembered registers to their defined bits.
pub proof fn lemma_after_command_well_formed(s: DriverState, cmd: Command)
    requires
        registers_well_formed(s),
    ensures
        registers_well_formed(after_command(s, cmd)),
{
    let c0 = s.ctrl0;
    let c1 = s.ctrl1;
    assert(0u8 & !0xBBu8 == 0) by (bit_vector);
    assert(forall|f: u8| #[trigger] (f & !0xFFu8) == 0) by (bit_vector);
    assert(0x40u8 & !0x7Fu8 == 0 && 0x04u8 & !0x7Fu8 == 0 && 0x08u8 & !0x7Fu8 == 0 && 0x10u8
        & !0x7Fu8 == 0) by (bit_vector);
    match cmd {
        Command::ReadOtp => lemma_flag_within(c0, InternalControl0::OTP_READ, 0x7F),
        Command::EnableMeasDoneInterrupt => lemma_flag_within(
            c0,
            InternalControl0::INT_MEAS_DONE_EN,
            0x7F,
        ),
        Command::SetPulse => lemma_flag_within(c0, InternalControl0::SET, 0x7F),
        Command::ResetPulse => lemma_flag_within(c0, InternalControl0::RESET, 0x7F),
        Command::SetExtraPulse => lemma_flag_within(c0, InternalControl0::SET, 0x7F),
        Command::ResetExtraPulse => lemma_flag_within(c0, InternalControl0::SET, 0x7F),
        Command::SetBandwidth(bw) => {
            let c = bw.spec_bits();
            let w = after_command(s, cmd).ctrl1;
            assert(w & !0xBBu8 == 0) by (bit_vector)
                requires
                    w == ((c1 & !3u8) | c) & 0xBBu8,
            ;
        },
        _ => {},
    }
}

/// With well-formed registers, setting the bandwidth writes internal control
/// register 1 with its BW bits replaced by the bandwidth's code and every
/// other bit kept; the driver then remembers that value and nothing else
/// changes.
pub proof fn lemma_bandwidth_write(s: DriverState, bw: BandwidthMode)
    requires
        registers_well_formed(s),
    ensures
        command_register(s, Command::SetBandwidth(bw)) == (
        INTERNAL_CONTROL_1_ADDR,
        (s.ctrl1 & !InternalControl1::BW) | bw.spec_bits(),
        ),
        after_command(s, Command::SetBandwidth(bw)) == (DriverState {
            ctrl1: (s.ctrl1 & !InternalControl1::BW) | bw.spec_bits(),
            ..s
        }),
{
    let c1 = s.ctrl1;
    let c = bw.spec_bits();
    assert(((c1 & !3u8) | c) & 0xBBu8 == (c1 & !3u8) | c) by (bit_vector)
        requires
            c1 & !0xBBu8 == 0,
            c <= 3,
    ;
}

/// The register writes, as (address, value), that the commands of `cmds`
/// make one after another from state `s`, each in the state that the writes
/// before it left.
pub open spec fn command_writes(s: DriverState, cmds: Seq<Command>) -> Seq<(u8, u8)>
    decreases cmds.len(),
{
    if cmds.len() == 0 {
        Seq::empty()
    } else {
        seq![command_register(s, cmds[0])] + command_writes(
            after_command(s, cmds[0]),
            cmds.drop_first(),
        )
    }
}

/// Whether a register write goes to the device as the same bytes over SPI
/// as over I2C.
pub open spec fn same_bytes_on_both_buses(w: (u8, u8)) -> bool {
    spi_write_bytes(w.0, w.1) == i2c_write_bytes(w.0, w.1)
}

/// Every command of a sequence makes one write, to an internal control
/// register.
pub proof fn lemma_command_writes_addresses(s: DriverState, cmds: Seq<Command>)
    ensures
        command_writes(s, cmds).len() == cmds.len(),
        forall|i: int|
            0 <= i < cmds.len() ==> INTERNAL_CONTROL_0_ADDR <= (#[trigger] command_writes(
                s,
                cmds,
            )[i]).0 <= INTERNAL_CONTROL_3_ADDR,
    decreases cmds.len(),
{
    if cmds.len() > 0 {
        lemma_command_writes_addresses(after_command(s, cmds[0]), cmds.drop_first());
        let rest = command_writes(after_command(s, cmds[0]), cmds.drop_first());
        assert forall|i: int| 0 <= i < cmds.len() implies INTERNAL_CONTROL_0_ADDR <= (
        #[trigger] command_writes(s, cmds)[i]).0 <= INTERNAL_CONTROL_3_ADDR by {
            if i > 0 {
                assert(command_writes(s, cmds)[i] == rest[i - 1]);
            }
        }
    }
}

/// A driver over I2C and one over SPI that remember the same state make the
/// same register writes, in the same order, and reach the same state, for
/// every sequence of commands; each of those writes goes to the device as
/// the same two bytes on either bus. Both constructors start from the same
/// state, so two new drivers behave alike on the two buses.
pub proof fn lemma_buses_agree<I2C, SPI, M1, M2>(
    i2c_driver: Mmc5983<I2cInterface<I2C>, M1>,
    spi_driver: Mmc5983<SpiInterface<SPI>, M2>,
    cmds: Seq<Command>,
)
    requires
        i2c_driver@ == spi_driver@,
    ensures
        command_writes(i2c_driver@, cmds) == command_writes(spi_driver@, cmds),
        after_commands(i2c_driver@, cmds) == after_commands(spi_driver@, cmds),
        forall|i: int|
            0 <= i < cmds.len() ==> same_bytes_on_both_buses(
                #[trigger] command_writes(spi_driver@, cmds)[i],
            ),
{
    let w = command_writes(spi_driver@, cmds);
    lemma_command_writes_addresses(spi_driver@, cmds);
    assert forall|i: int| 0 <= i < cmds.len() implies same_bytes_on_both_buses(
        #[trigger] command_writes(spi_driver@, cmds)[i],
    ) by {
        lemma_write_bytes_agree(w[i].0, w[i].1);
    }
}

/// Each axis of a field reading is joined from its own output registers:
/// X from Xout0 (`0x00`, bits 17..10) and Xout1 (`0x01`, bits 9..2), Y from
/// Yout0 (`0x02`) and Yout1 (`0x03`), Z from Zout0 (`0x04`) and Zout1
/// (`0x05`), and bits 1..0 of X, Y and Z from bits 7..6, 5..4 and 3..2 of
/// XYZout2 (`0x06`).
pub proof fn lemma_field_registers(b: Seq<u8>)
    requires
        b.len() == MAGNETIC_FIELD_LEN,
    ensures
        decoded_field(b).0 == b[0] * 1024 + b[1] * 4 + b[6] / 64,
        decoded_field(b).1 == b[2] * 1024 + b[3] * 4 + (b[6] / 16) % 4,
        decoded_field(b).2 == b[4] * 1024 + b[5] * 4 + (b[6] / 4) % 4,
{
    let t = b[6];
    assert((t >> 6u8) & 0b11 == t / 64 && (t >> 4u8) & 0b11 == (t / 16) % 4 && (t >> 2u8) & 0b11
        == (t / 4) % 4) by (bit_vector);
}

/// Raising one output register by one moves only its own axis: by 1024 for
/// Xout0, Yout0 and Zout0, by 4 for Xout1, Yout1 and Zout1.
pub proof fn lemma_field_register_steps(b: Seq<u8>, i: int)
    requires
        b.len() == MAGNETIC_FIELD_LEN,
        0 <= i < 6,
        b[i] < 255,
    ensures
        ({
            let f = decoded_field(b);
            let g = decoded_field(b.update(i, (b[i] + 1) as u8));
            let step: int = if i % 2 == 0 {
                1024
            } else {
                4
            };
            &&& g.0 == f.0 + if i / 2 == 0 {
                step
            } else {
                0
            }
            &&& g.1 == f.1 + if i / 2 == 1 {
                step
            } else {
                0
            }
            &&& g.2 == f.2 + if i / 2 == 2 {
                step
            } else {
                0
            }
        }),
{
    let c = b.update(i, (b[i] + 1) as u8);
    lemma_field_registers(b);
    lemma_field_registers(c);
}

} // verus!
