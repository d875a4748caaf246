//! Measurement modes of the MMC5983MA driver.
use vstd::prelude::*;

use core::marker::PhantomData;

use crate::mmc5983::device::{
    after_command, after_commands, command_register, init_commands, initial_state,
    lemma_init_configures, Command, DriverState, Mmc5983,
};
use crate::mmc5983::mode::{Continuous, OneShot};
use crate::mmc5983::register_address::{
    lemma_output_rate_round_trip, lemma_rate_and_period_independent, lemma_set_period_round_trip,
    output_rate_of_bits, set_period_of_bits, with_output_rate_bits, with_set_period_bits,
    InternalControl2, INTERNAL_CONTROL_2_ADDR,
};
use crate::mmc5983::types::{BandwidthMode, MagMode, MagOutputDataRate, SetResetPeriod};

verus! {

/// The measurement mode configuration that internal control register 2
/// holds in continuous mode.
pub open spec fn mode_config_of(ctrl2: u8) -> MagMode {
    MagMode::Continuous {
        frequency: output_rate_of_bits(ctrl2),
        set_period: if ctrl2 & InternalControl2::EN_PRD_SET == InternalControl2::EN_PRD_SET {
            Some(set_period_of_bits(ctrl2))
        } else {
            None
        },
    }
}

/// The register writes that change the magnetometer to continuous mode:
/// the automatic set/reset period first when one is given, then the
/// continuous mode with its frequency.
pub open spec fn continuous_commands(
    frequency: MagOutputDataRate,
    set_period: Option<SetResetPeriod>,
) -> Seq<Command> {
    match set_period {
        Some(period) => seq![
            Command::EnableAutoSetReset(period),
            Command::EnableContinuous(frequency),
        ],
        None => seq![Command::EnableContinuous(frequency)],
    }
}

/// The register writes that change the magnetometer to continuous mode:
/// the first `len` commands of the array, where `(commands, len)` is the
/// result.
pub fn continuous_sequence(frequency: MagOutputDataRate, set_period: Option<SetResetPeriod>) -> (r:
    ([Command; 2], usize))
    ensures
        r.1 <= 2,
        r.0@.subrange(0, r.1 as int) == continuous_commands(frequency, set_period),
{
    match set_period {
        Some(period) => {
            let r = [Command::EnableAutoSetReset(period), Command::EnableContinuous(frequency)];
            assert(r@.subrange(0, 2) =~= continuous_commands(frequency, set_period));
            (r, 2)
        },
        None => {
            let r = [Command::EnableContinuous(frequency), Command::EnableContinuous(frequency)];
            assert(r@.subrange(0, 1) =~= continuous_commands(frequency, set_period));
            (r, 1)
        },
    }
}

impl<DI> Mmc5983<DI, OneShot> {
    /// The driver in continuous mode, once the writes of
    /// `continuous_sequence` have succeeded.
    pub fn into_continuous_mode(self) -> (r: Mmc5983<DI, Continuous>)
        ensures
            r@ == self@,
            r.spec_iface() == self.spec_iface(),
    {
        self.change_mode()
    }
}

impl<DI> Mmc5983<DI, Continuous> {
    /// The driver in one-shot mode, once the write of
    /// `Command::DisableContinuous` has succeeded.
    pub fn into_oneshot_mode(self) -> (r: Mmc5983<DI, OneShot>)
        ensures
            r@ == self@,
            r.spec_iface() == self.spec_iface(),
    {
        self.change_mode()
    }

    /// Get current measurement mode configuration
    pub fn get_mode_config(&self) -> (r: MagMode)
        ensures
            r == mode_config_of(self@.ctrl2),
    {
        let ctrl_reg2 = self.ctrl_reg2();
        let frequency = ctrl_reg2.output_rate();
        let auto_set = ctrl_reg2.contains(InternalControl2::EN_PRD_SET);
        let set_period = if auto_set {
            Some(ctrl_reg2.set_period())
        } else {
            None
        };
        MagMode::Continuous { frequency, set_period }
    }
}

/// After the writes that change to continuous mode, the mode configuration
/// reads back the frequency and set/reset period that were asked for, and
/// continuous mode is on. Without a period, the automatic set/reset must
/// have been off before: the writes then leave it as it was.
pub proof fn lemma_continuous_mode_round_trip(
    s: DriverState,
    frequency: MagOutputDataRate,
    set_period: Option<SetResetPeriod>,
)
    requires
        set_period is None ==> s.ctrl2 & InternalControl2::EN_PRD_SET == 0,
    ensures
        mode_config_of(after_commands(s, continuous_commands(frequency, set_period)).ctrl2)
            == (MagMode::Continuous { frequency, set_period }),
        after_commands(s, continuous_commands(frequency, set_period)).ctrl2
            & InternalControl2::CMM_EN == InternalControl2::CMM_EN,
{
    let cmds = continuous_commands(frequency, set_period);
    let c = frequency.spec_bits();
    match set_period {
        Some(period) => {
            let s1 = after_command(s, Command::EnableAutoSetReset(period));
            let s2 = after_command(s1, Command::EnableContinuous(frequency));
            assert(cmds.drop_first() =~= seq![Command::EnableContinuous(frequency)]);
            assert(cmds.drop_first().drop_first() =~= Seq::<Command>::empty());
            reveal_with_fuel(after_commands, 3);
            assert(after_commands(s, cmds) == s2);
            let w1 = with_set_period_bits(s.ctrl2, period);
            let b1 = s1.ctrl2;
            assert(b1 == w1 | 0x80);
            let w2 = with_output_rate_bits(b1, frequency);
            assert(s2.ctrl2 == w2 | 0x08);
            lemma_set_period_round_trip(s.ctrl2, period);
            lemma_rate_and_period_independent(b1, frequency, period);
            lemma_output_rate_round_trip(b1, frequency);
            assert(((b1 & 0x70) >> 4u8) & 7 == ((w1 & 0x70) >> 4u8) & 7) by (bit_vector)
                requires
                    b1 == w1 | 0x80,
            ;
            let c2 = s2.ctrl2;
            assert(((c2 & 0x70) >> 4u8) & 7 == ((w2 & 0x70) >> 4u8) & 7 && c2 & 7 == w2 & 7 && c2
                & 0x80 == 0x80 && c2 & 0x08 == 0x08) by (bit_vector)
                requires
                    c2 == w2 | 0x08,
                    w2 & 0x80 == b1 & 0x80,
                    b1 == w1 | 0x80,
            ;
        },
        None => {
            let s1 = after_command(s, Command::EnableContinuous(frequency));
            assert(cmds.drop_first() =~= Seq::<Command>::empty());
            reveal_with_fuel(after_commands, 2);
            assert(after_commands(s, cmds) == s1);
            let w = with_output_rate_bits(s.ctrl2, frequency);
            lemma_output_rate_round_trip(s.ctrl2, frequency);
            lemma_rate_and_period_independent(s.ctrl2, frequency, SetResetPeriod::Every1);
            let c1 = s1.ctrl2;
            let c0 = s.ctrl2;
            assert(c1 & 7 == w & 7 && c1 & 0x80 == 0 && c1 & 0x08 == 0x08) by (bit_vector)
                requires
                    c1 == w | 0x08,
                    w & 0x80 == c0 & 0x80,
                    c0 & 0x80 == 0,
            ;
        },
    }
}

/// A new driver, initialised or not, changed to continuous mode reads back
/// the frequency and set/reset period that were asked for, at every
/// frequency and with or without a period.
pub proof fn lemma_new_driver_continuous_round_trip(
    frequency: MagOutputDataRate,
    set_period: Option<SetResetPeriod>,
)
    ensures
        mode_config_of(
            after_commands(initial_state(), continuous_commands(frequency, set_period)).ctrl2,
        ) == (MagMode::Continuous { frequency, set_period }),
        mode_config_of(
            after_commands(
                after_commands(initial_state(), init_commands()),
                continuous_commands(frequency, set_period),
            ).ctrl2,
        ) == (MagMode::Continuous { frequency, set_period }),
{
    assert(0u8 & 0x80u8 == 0) by (bit_vector);
    lemma_continuous_mode_round_trip(initial_state(), frequency, set_period);
    lemma_init_configures(initial_state());
    lemma_continuous_mode_round_trip(
        after_commands(initial_state(), init_commands()),
        frequency,
        set_period,
    );
}

/// Changing to one-shot mode clears the continuous mode and automatic
/// set/reset flags and keeps the other bits of internal control register 2.
pub proof fn lemma_oneshot_clears_continuous(s: DriverState)
    ensures
        after_command(s, Command::DisableContinuous).ctrl2 & (InternalControl2::CMM_EN
            | InternalControl2::EN_PRD_SET) == 0,
        after_command(s, Command::DisableContinuous).ctrl2 & !(InternalControl2::CMM_EN
            | InternalControl2::EN_PRD_SET) == s.ctrl2 & !(InternalControl2::CMM_EN
            | InternalControl2::EN_PRD_SET),
{
    let b = s.ctrl2;
    let w = after_command(s, Command::DisableContinuous).ctrl2;
    assert(w & (0x08u8 | 0x80u8) == 0 && w & !(0x08u8 | 0x80u8) == b & !(0x08u8 | 0x80u8))
        by (bit_vector)
        requires
            w == b & !(0x08u8 | 0x80u8),
    ;
}

/// In continuous mode, changing the frequency writes the register with its
/// frequency bits replaced and keeps continuous mode on and the automatic
/// set/reset configuration; enabling automatic set/reset writes the register
/// with its period bits replaced and the enable bit set, reads back its
/// period and keeps the frequency; disabling it reads back no period and
/// keeps the frequency. None of them turns continuous mode off.
pub proof fn lemma_continuous_settings(
    s: DriverState,
    frequency: MagOutputDataRate,
    period: SetResetPeriod,
)
    ensures
        command_register(s, Command::SetFrequency(frequency)) == (
        INTERNAL_CONTROL_2_ADDR,
        (s.ctrl2 & !InternalControl2::CM_FREQ) | frequency.spec_bits(),
        ),
        mode_config_of(after_command(s, Command::SetFrequency(frequency)).ctrl2) == (
        MagMode::Continuous {
            frequency,
            set_period: mode_config_of(s.ctrl2)->set_period,
        }),
        after_command(s, Command::SetFrequency(frequency)).ctrl2 & InternalControl2::CMM_EN
            == s.ctrl2 & InternalControl2::CMM_EN,
        command_register(s, Command::EnableAutoSetReset(period)) == (
        INTERNAL_CONTROL_2_ADDR,
        (s.ctrl2 & !InternalControl2::PRD_SET) | (period.spec_code() << 4u8)
            | InternalControl2::EN_PRD_SET,
        ),
        mode_config_of(after_command(s, Command::EnableAutoSetReset(period)).ctrl2) == (
        MagMode::Continuous {
            frequency: mode_config_of(s.ctrl2)->frequency,
            set_period: Some(period),
        }),
        after_command(s, Command::EnableAutoSetReset(period)).ctrl2 & InternalControl2::CMM_EN
            == s.ctrl2 & InternalControl2::CMM_EN,
        mode_config_of(after_command(s, Command::DisableAutoSetReset).ctrl2) == (
        MagMode::Continuous { frequency: mode_config_of(s.ctrl2)->frequency, set_period: None }),
        after_command(s, Command::DisableAutoSetReset).ctrl2 & InternalControl2::CMM_EN
            == s.ctrl2 & InternalControl2::CMM_EN,
{
    let b = s.ctrl2;
    let c = frequency.spec_bits();
    let p = period.spec_code();
    lemma_output_rate_round_trip(b, frequency);
    lemma_rate_and_period_independent(b, frequency, period);
    lemma_set_period_round_trip(b, period);
    let v = with_output_rate_bits(b, frequency);
    assert(v == (b & !7u8) | c) by (bit_vector)
        requires
            v == ((b & !7u8) | c) & 0xFFu8,
    ;
    let w = with_set_period_bits(b, period);
    assert(w == (b & !0x70u8) | (p << 4u8)) by (bit_vector)
        requires
            w == ((b & !0x70u8) | (p << 4u8)) & 0xFFu8,
    ;
    let e = w | 0x80;
    assert(e & 7 == w & 7 && ((e & 0x70) >> 4u8) & 7 == ((w & 0x70) >> 4u8) & 7 && e & 0x80
        == 0x80 && e & 0x08 == w & 0x08) by (bit_vector)
        requires
            e == w | 0x80,
    ;
    let d = b & !0x80u8;
    assert(d & 7 == b & 7 && d & 0x80 == 0 && d & 0x08 == b & 0x08) by (bit_vector)
        requires
            d == b & !0x80u8,
    ;
}

/// The number of measurements between two automatic SET/RESET operations
/// that a period asks for.
pub open spec fn measurements_between(p: SetResetPeriod) -> nat {
    match p {
        SetResetPeriod::Every1 => 1,
        SetResetPeriod::Every25 => 25,
        SetResetPeriod::Every75 => 75,
        SetResetPeriod::Every100 => 100,
        SetResetPeriod::Every250 => 250,
        SetResetPeriod::Every500 => 500,
        SetResetPeriod::Every1000 => 1000,
        SetResetPeriod::Every2000 => 2000,
    }
}

/// The PRD_SET codes are ordered as the periods: a period with more
/// measurements between two operations has a larger code, the shortest
/// period has code 0, and every code fits the three PRD_SET bits. With eight
/// periods and eight codes, this fixes each code.
pub proof fn lemma_period_codes_ordered(p: SetResetPeriod, q: SetResetPeriod)
    ensures
        measurements_between(p) < measurements_between(q) <==> p.spec_code() < q.spec_code(),
        measurements_between(p) == 1 <==> p.spec_code() == 0,
        p.spec_code() <= 7,
{
}

/// Enabling automatic SET/RESET writes into bits 6..4 of internal control
/// register 2 the datasheet code of the period: 0 for every measurement, then
/// 1, 2, 3, 4, 5, 6 and 7 for every 25, 75, 100, 250, 500, 1000 and 2000
/// measurements.
pub proof fn lemma_period_written_code(s: DriverState, p: SetResetPeriod)
    ensures
        (command_register(s, Command::EnableAutoSetReset(p)).1 & 0x70u8) >> 4u8 == (match p {
            SetResetPeriod::Every1 => 0u8,
            SetResetPeriod::Every25 => 1u8,
            SetResetPeriod::Every75 => 2u8,
            SetResetPeriod::Every100 => 3u8,
            SetResetPeriod::Every250 => 4u8,
            SetResetPeriod::Every500 => 5u8,
            SetResetPeriod::Every1000 => 6u8,
            SetResetPeriod::Every2000 => 7u8,
        }),
{
    let b = s.ctrl2;
    let c = p.spec_code();
    let w = command_register(s, Command::EnableAutoSetReset(p)).1;
    assert(w == (((b & !0x70u8) | (c << 4u8)) & 0xFFu8) | 0x80u8);
    assert((w & 0x70u8) >> 4u8 == c) by (bit_vector)
        requires
            w == (((b & !0x70u8) | (c << 4u8)) & 0xFFu8) | 0x80u8,
            c <= 7,
    ;
}

/// The measurement frequency of an output rate, in hertz.
pub open spec fn rate_hz(r: MagOutputDataRate) -> nat {
    match r {
        MagOutputDataRate::Hz1 => 1,
        MagOutputDataRate::Hz10 => 10,
        MagOutputDataRate::Hz20 => 20,
        MagOutputDataRate::Hz50 => 50,
        MagOutputDataRate::Hz100 => 100,
        MagOutputDataRate::Hz200 => 200,
        MagOutputDataRate::Hz1000 => 1000,
    }
}

/// The CM_FREQ codes are ordered as the frequencies: a faster rate has a
/// larger code, the slowest has code 1 (code 0 leaves continuous mode off),
/// and every code fits the three CM_FREQ bits. With seven rates and seven
/// codes from 1 to 7, this fixes each code.
pub proof fn lemma_rate_codes_ordered(a: MagOutputDataRate, b: MagOutputDataRate)
    ensures
        rate_hz(a) < rate_hz(b) <==> a.spec_bits() < b.spec_bits(),
        rate_hz(a) == 1 <==> a.spec_bits() == 1,
        1 <= a.spec_bits() <= 7,
{
}

/// The bandwidth of a BW setting, in hertz.
pub open spec fn bandwidth_hz(bw: BandwidthMode) -> nat {
    match bw {
        BandwidthMode::Hz100 => 100,
        BandwidthMode::Hz200 => 200,
        BandwidthMode::Hz400 => 400,
        BandwidthMode::Hz800 => 800,
    }
}

/// The BW codes are ordered as the bandwidths: a wider bandwidth has a larger
/// code, 100 Hz has code 0, and every code fits the two BW bits.
pub proof fn lemma_bandwidth_codes_ordered(a: BandwidthMode, b: BandwidthMode)
    ensures
        bandwidth_hz(a) < bandwidth_hz(b) <==> a.spec_bits() < b.spec_bits(),
        bandwidth_hz(a) == 100 <==> a.spec_bits() == 0,
        a.spec_bits() <= 3,
{
}

} // verus!
