//! Motor drivers: current sense gain selection and the PWM channels that
//! drive each motor.
use vstd::prelude::*;

verus! {

/// Current sense gain of a motor driver.
#[derive(Debug, Clone, Copy, PartialEq, Eq, Structural)]
pub enum GainselState {
    HighCurrent,
    MedCurrent,
    LowCurrent,
}

impl Default for GainselState {
    fn default() -> (r: Self)
        ensures
            r == GainselState::HighCurrent,
    {
        GainselState::HighCurrent
    }
}

/// How the gain select pin of a motor driver is set.
#[derive(Debug, Clone, Copy, PartialEq, Eq, Structural)]
pub enum GainselPin {
    /// Output driven low
    OutputLow,
    /// Floating (analog input)
    Analog,
    /// Output driven high
    OutputHigh,
}

impl GainselState {
    /// Index of the gain in the table of current sense gains.
    pub open spec fn spec_num(self) -> usize {
        match self {
            GainselState::LowCurrent => 2,
            GainselState::MedCurrent => 1,
            GainselState::HighCurrent => 0,
        }
    }

    /// Index of the gain in the table of current sense gains.
    pub fn num(&self) -> (r: usize)
        ensures
            r == self.spec_num(),
            r < 3,
    {
        match self {
            GainselState::LowCurrent => 2,
            GainselState::MedCurrent => 1,
            GainselState::HighCurrent => 0,
        }
    }

    /// The setting of the gain select pin that selects this gain.
    pub fn pin(&self) -> (r: GainselPin)
        ensures
            *self == GainselState::LowCurrent ==> r == GainselPin::OutputLow,
            *self == GainselState::MedCurrent ==> r == GainselPin::Analog,
            *self == GainselState::HighCurrent ==> r == GainselPin::OutputHigh,
    {
        match self {
            GainselState::LowCurrent => GainselPin::OutputLow,
            GainselState::MedCurrent => GainselPin::Analog,
            GainselState::HighCurrent => GainselPin::OutputHigh,
        }
    }
}

/// Position of a motor on the vehicle.
#[derive(Debug, Clone, Copy, PartialEq, Eq, Structural)]
pub enum MotorId {
    TL,
    TR,
    BL,
    BR,
}

/// Motor driver output.
#[derive(Debug, Clone, Copy, PartialEq, Eq, Structural)]
pub enum MotorIndex {
    M0,
    M1,
    M2,
    M3,
}

/// The driver output that the motor at `id` is wired to.
pub open spec fn motor_of(id: MotorId) -> MotorIndex {
    match id {
        MotorId::TL => MotorIndex::M0,
        MotorId::TR => MotorIndex::M1,
        MotorId::BL => MotorIndex::M2,
        MotorId::BR => MotorIndex::M3,
    }
}

impl From<MotorId> for MotorIndex {
    fn from(id: MotorId) -> (r: MotorIndex) {
        match id {
            MotorId::TL => MotorIndex::M0,
            MotorId::TR => MotorIndex::M1,
            MotorId::BL => MotorIndex::M2,
            MotorId::BR => MotorIndex::M3,
        }
    }
}

impl vstd::std_specs::convert::FromSpecImpl<MotorId> for MotorIndex {
    open spec fn obeys_from_spec() -> bool {
        true
    }

    open spec fn from_spec(id: MotorId) -> MotorIndex {
        motor_of(id)
    }
}

/// A PWM timer channel.
#[derive(Debug, Clone, Copy, PartialEq, Eq, Structural)]
pub enum PwmChannel {
    Tim1Ch3,
    Tim1Ch4,
    Tim2Ch3,
    Tim2Ch4,
    Tim3Ch1,
    Tim3Ch2,
    Tim3Ch3,
    Tim3Ch4,
}

/// The channels that drive motor `m` forward and in reverse.
pub open spec fn motor_channels(m: MotorIndex) -> (PwmChannel, PwmChannel) {
    match m {
        MotorIndex::M0 => (PwmChannel::Tim1Ch3, PwmChannel::Tim1Ch4),
        MotorIndex::M1 => (PwmChannel::Tim2Ch3, PwmChannel::Tim2Ch4),
        MotorIndex::M2 => (PwmChannel::Tim3Ch1, PwmChannel::Tim3Ch2),
        MotorIndex::M3 => (PwmChannel::Tim3Ch3, PwmChannel::Tim3Ch4),
    }
}

impl MotorIndex {
    /// Index of the output, 0 to 3.
    pub fn num(self) -> (r: usize)
        ensures
            r == (match self {
                MotorIndex::M0 => 0usize,
                MotorIndex::M1 => 1usize,
                MotorIndex::M2 => 2usize,
                MotorIndex::M3 => 3usize,
            }),
    {
        match self {
            MotorIndex::M0 => 0,
            MotorIndex::M1 => 1,
            MotorIndex::M2 => 2,
            MotorIndex::M3 => 3,
        }
    }

    /// The channel that gets the duty cycle and the channel that is turned
    /// fully off to drive the motor forward (`forward`) or in reverse.
    pub fn drive_channels(self, forward: bool) -> (r: (PwmChannel, PwmChannel))
        ensures
            forward ==> r == motor_channels(self),
            !forward ==> r == (motor_channels(self).1, motor_channels(self).0),
    {
        let (fwd, rev) = match self {
            MotorIndex::M0 => (PwmChannel::Tim1Ch3, PwmChannel::Tim1Ch4),
            MotorIndex::M1 => (PwmChannel::Tim2Ch3, PwmChannel::Tim2Ch4),
            MotorIndex::M2 => (PwmChannel::Tim3Ch1, PwmChannel::Tim3Ch2),
            MotorIndex::M3 => (PwmChannel::Tim3Ch3, PwmChannel::Tim3Ch4),
        };
        if forward {
            (fwd, rev)
        } else {
            (rev, fwd)
        }
    }
}

/// No two motors share a channel, and no motor drives one channel both ways:
/// driving one motor never touches the channels of another.
pub proof fn lemma_channels_disjoint(a: MotorIndex, b: MotorIndex)
    ensures
        motor_channels(a).0 != motor_channels(a).1,
        a != b ==> motor_channels(a).0 != motor_channels(b).0 && motor_channels(a).0
            != motor_channels(b).1 && motor_channels(a).1 != motor_channels(b).0 && motor_channels(
            a,
        ).1 != motor_channels(b).1,
{
}

/// The timer of a PWM channel.
pub open spec fn channel_timer(c: PwmChannel) -> nat {
    match c {
        PwmChannel::Tim1Ch3 | PwmChannel::Tim1Ch4 => 1,
        PwmChannel::Tim2Ch3 | PwmChannel::Tim2Ch4 => 2,
        _ => 3,
    }
}

/// The channel number of a PWM channel on its timer.
pub open spec fn channel_number(c: PwmChannel) -> nat {
    match c {
        PwmChannel::Tim3Ch1 => 1,
        PwmChannel::Tim3Ch2 => 2,
        PwmChannel::Tim1Ch3 | PwmChannel::Tim2Ch3 | PwmChannel::Tim3Ch3 => 3,
        _ => 4,
    }
}

/// Each motor is driven by a pair of neighbouring channels of one timer, the
/// odd one driving it forward and the next one in reverse: M0 on TIM1 CH3/CH4,
/// M1 on TIM2 CH3/CH4, M2 on TIM3 CH1/CH2 and M3 on TIM3 CH3/CH4. Driving a
/// motor forward puts the duty cycle on its forward channel and turns the
/// reverse one off; driving it in reverse does the opposite.
pub proof fn lemma_board_wiring(m: MotorIndex)
    ensures
        channel_timer(motor_channels(m).0) == channel_timer(motor_channels(m).1),
        channel_number(motor_channels(m).0) % 2 == 1,
        channel_number(motor_channels(m).1) == channel_number(motor_channels(m).0) + 1,
        channel_timer(motor_channels(m).0) == (match m {
            MotorIndex::M0 => 1nat,
            MotorIndex::M1 => 2nat,
            MotorIndex::M2 => 3nat,
            MotorIndex::M3 => 3nat,
        }),
        channel_number(motor_channels(m).0) == (match m {
            MotorIndex::M2 => 1nat,
            _ => 3nat,
        }),
{
}

} // verus!
