//! Field values of the register map: closed sets of hardware options, each
//! with its fixed integer code, and numeric fields that saturate into the
//! range the hardware can represent.

use vstd::prelude::*;

verus! {

/// `value` saturated into `[min, max]`; the lower bound wins where the two
/// bounds cross.
pub open spec fn trimmed(value: int, max: int, min: int) -> int {
    let capped = if value > max { max } else { value };
    if capped < min { min } else { capped }
}

/// Saturates an 8-bit value into `[min, max]`.
pub fn trim_value_u8(value: u8, max: u8, min: u8) -> (r: u8)
    ensures
        r == trimmed(value as int, max as int, min as int),
        min <= max ==> min <= r <= max,
{
    let capped: u8 = if value > max { max } else { value };
    if capped < min { min } else { capped }
}

/// Saturates a 16-bit value into `[min, max]`.
pub fn trim_value_u16(value: u16, max: u16, min: u16) -> (r: u16)
    ensures
        r == trimmed(value as int, max as int, min as int),
        min <= max ==> min <= r <= max,
{
    let capped: u16 = if value > max { max } else { value };
    if capped < min { min } else { capped }
}

/// Number of pulses in a transmit burst, 0 to 31.
#[derive(Clone, Copy)]
pub struct TxPulses(u8);

impl TxPulses {
    pub const LOW: u8 = 0;
    pub const HIGH: u8 = 31;

    #[verifier::type_invariant]
    closed spec fn in_range(self) -> bool {
        self.0 <= 31
    }

    /// The pulse count that this value stands for.
    pub closed spec fn value(self) -> u8 {
        if self.0 > 31 { 31 } else { self.0 }
    }

    /// The pulse count never leaves the five bits it is packed into.
    pub proof fn lemma_value_in_range(self)
        ensures
            Self::LOW <= self.value() <= Self::HIGH,
    {
    }

    /// Saturates `pulses` into `[LOW, HIGH]`.
    pub fn new(pulses: u8) -> (r: Self)
        ensures
            r.value() == trimmed(pulses as int, Self::HIGH as int, Self::LOW as int),
            pulses <= Self::HIGH ==> r.value() == pulses,
            pulses > Self::HIGH ==> r.value() == Self::HIGH,
    {
        TxPulses(trim_value_u8(pulses, Self::HIGH, Self::LOW))
    }

    pub fn get_value(&self) -> (v: u8)
        ensures
            v == self.value(),
            v <= Self::HIGH,
    {
        proof {
            use_type_invariant(self);
        }
        self.0
    }
}

impl Default for TxPulses {
    fn default() -> (r: Self)
        ensures
            r.value() == 5,
    {
        TxPulses::new(5)
    }
}

/// Position of the pulse that is phase-shifted within a transmit burst, 0 to 31.
pub struct TxPulseShiftPosition(u8);

impl TxPulseShiftPosition {
    pub const LOW: u8 = 0;
    pub const HIGH: u8 = 31;

    #[verifier::type_invariant]
    closed spec fn in_range(self) -> bool {
        self.0 <= 31
    }

    /// The pulse position that this value stands for.
    pub closed spec fn value(self) -> u8 {
        if self.0 > 31 { 31 } else { self.0 }
    }

    /// The position never leaves the five bits it is packed into.
    pub proof fn lemma_value_in_range(self)
        ensures
            Self::LOW <= self.value() <= Self::HIGH,
    {
    }

    /// Saturates `pulse_shift_position` into `[LOW, HIGH]`.
    pub fn new(pulse_shift_position: u8) -> (r: Self)
        ensures
            r.value() == trimmed(pulse_shift_position as int, Self::HIGH as int, Self::LOW as int),
            pulse_shift_position <= Self::HIGH ==> r.value() == pulse_shift_position,
            pulse_shift_position > Self::HIGH ==> r.value() == Self::HIGH,
    {
        TxPulseShiftPosition(trim_value_u8(pulse_shift_position, Self::HIGH, Self::LOW))
    }

    pub fn get_value(&self) -> (v: u8)
        ensures
            v == self.value(),
            v <= Self::HIGH,
    {
        proof {
            use_type_invariant(self);
        }
        self.0
    }
}

impl Default for TxPulseShiftPosition {
    fn default() -> (r: Self)
        ensures
            r.value() == 31,
    {
        TxPulseShiftPosition::new(31)
    }
}

/// Raw ten-bit time-of-flight value, 0 to 1023. The hardware holds it in two
/// registers: the two high bits in one, the eight low bits in the other.
pub struct TimeOfFlightValue(u16);

impl TimeOfFlightValue {
    pub const LOW: u16 = 0;
    pub const HIGH: u16 = 1023;

    #[verifier::type_invariant]
    closed spec fn in_range(self) -> bool {
        self.0 <= 1023
    }

    /// The ten-bit quantity that this value stands for.
    pub closed spec fn value(self) -> u16 {
        if self.0 > 1023 { 1023 } else { self.0 }
    }

    /// The part of the value above its eight low bits.
    pub open spec fn high_bits(self) -> int {
        self.value() as int / 256
    }

    /// The eight low bits of the value.
    pub open spec fn low_bits(self) -> int {
        self.value() as int % 256
    }

    /// The value fits ten bits, so its high part fits two.
    pub proof fn lemma_value_in_range(self)
        ensures
            Self::LOW <= self.value() <= Self::HIGH,
            0 <= self.high_bits() <= 3,
            0 <= self.low_bits() <= 255,
            self.high_bits() * 256 + self.low_bits() == self.value(),
    {
    }

    /// Saturates `time_of_flight_value` into `[LOW, HIGH]`.
    pub fn new(time_of_flight_value: u16) -> (r: Self)
        ensures
            r.value() == trimmed(time_of_flight_value as int, Self::HIGH as int, Self::LOW as int),
            time_of_flight_value <= Self::HIGH ==> r.value() == time_of_flight_value,
            time_of_flight_value > Self::HIGH ==> r.value() == Self::HIGH,
    {
        TimeOfFlightValue(trim_value_u16(time_of_flight_value, Self::HIGH, Self::LOW))
    }

    pub fn get_2_high_bits_of_tof(&self) -> (b: u8)
        ensures
            b == self.high_bits(),
            b <= 3,
    {
        proof {
            use_type_invariant(self);
        }
        let raw: u16 = self.0;
        assert((raw >> 8u16) == raw / 256 && (raw >> 8u16) <= 3) by (bit_vector)
            requires
                raw <= 1023,
        ;
        (raw >> 8u16) as u8
    }

    pub fn get_8_low_bits_of_tof(&self) -> (b: u8)
        ensures
            b == self.low_bits(),
    {
        proof {
            use_type_invariant(self);
        }
        let raw: u16 = self.0;
        assert((raw & 0xffu16) == raw % 256 && (raw & 0xffu16) <= 255) by (bit_vector);
        (raw & 0xffu16) as u8
    }
}

impl Default for TimeOfFlightValue {
    fn default() -> (r: Self)
        ensures
            r.value() == 0,
    {
        TimeOfFlightValue::new(0)
    }
}

/// Divider applied to the reference clock to derive the transmit burst frequency.
#[derive(Clone, Copy, Debug, PartialEq, Eq, Structural)]
pub enum TxFrequencyDivider {
    DivideBy2,
    DivideBy4,
    DivideBy8,
    DivideBy16,
    DivideBy32,
    DivideBy64,
    DivideBy128,
    DivideBy256,
}

impl TxFrequencyDivider {
    /// The integer the hardware assigns to each option.
    pub open spec fn spec_code(self) -> u8 {
        match self {
            TxFrequencyDivider::DivideBy2 => 0,
            TxFrequencyDivider::DivideBy4 => 1,
            TxFrequencyDivider::DivideBy8 => 2,
            TxFrequencyDivider::DivideBy16 => 3,
            TxFrequencyDivider::DivideBy32 => 4,
            TxFrequencyDivider::DivideBy64 => 5,
            TxFrequencyDivider::DivideBy128 => 6,
            TxFrequencyDivider::DivideBy256 => 7,
        }
    }

    /// No two options share a code.
    pub proof fn lemma_code_is_injective(self, other: Self)
        ensures
            self.code() == other.code() <==> self == other,
    {
    }

    /// The integer the hardware assigns to this option.
    #[verifier::when_used_as_spec(spec_code)]
    pub fn code(self) -> (c: u8)
        ensures
            c == self.spec_code(),
    {
        match self {
            TxFrequencyDivider::DivideBy2 => 0,
            TxFrequencyDivider::DivideBy4 => 1,
            TxFrequencyDivider::DivideBy8 => 2,
            TxFrequencyDivider::DivideBy16 => 3,
            TxFrequencyDivider::DivideBy32 => 4,
            TxFrequencyDivider::DivideBy64 => 5,
            TxFrequencyDivider::DivideBy128 => 6,
            TxFrequencyDivider::DivideBy256 => 7,
        }
    }
}

impl Default for TxFrequencyDivider {
    fn default() -> (r: Self)
        ensures
            r == TxFrequencyDivider::DivideBy8,
    {
        TxFrequencyDivider::DivideBy8
    }
}

/// Number of measurement cycles averaged in stopwatch mode.
#[derive(Clone, Copy, Debug, PartialEq, Eq, Structural)]
pub enum MeasurementCycles {
    MeasurementCycles1,
    MeasurementCycles2,
    MeasurementCycles4,
    MeasurementCycles8,
    MeasurementCycles16,
    MeasurementCycles32,
    MeasurementCycles64,
    MeasurementCycles128,
}

impl MeasurementCycles {
    /// The integer the hardware assigns to each option.
    pub open spec fn spec_code(self) -> u8 {
        match self {
            MeasurementCycles::MeasurementCycles1 => 0,
            MeasurementCycles::MeasurementCycles2 => 1,
            MeasurementCycles::MeasurementCycles4 => 2,
            MeasurementCycles::MeasurementCycles8 => 3,
            MeasurementCycles::MeasurementCycles16 => 4,
            MeasurementCycles::MeasurementCycles32 => 5,
            MeasurementCycles::MeasurementCycles64 => 6,
            MeasurementCycles::MeasurementCycles128 => 7,
        }
    }

    /// No two options share a code.
    pub proof fn lemma_code_is_injective(self, other: Self)
        ensures
            self.code() == other.code() <==> self == other,
    {
    }

    /// The integer the hardware assigns to this option.
    #[verifier::when_used_as_spec(spec_code)]
    pub fn code(self) -> (c: u8)
        ensures
            c == self.spec_code(),
    {
        match self {
            MeasurementCycles::MeasurementCycles1 => 0,
            MeasurementCycles::MeasurementCycles2 => 1,
            MeasurementCycles::MeasurementCycles4 => 2,
            MeasurementCycles::MeasurementCycles8 => 3,
            MeasurementCycles::MeasurementCycles16 => 4,
            MeasurementCycles::MeasurementCycles32 => 5,
            MeasurementCycles::MeasurementCycles64 => 6,
            MeasurementCycles::MeasurementCycles128 => 7,
        }
    }
}

impl Default for MeasurementCycles {
    fn default() -> (r: Self)
        ensures
            r == MeasurementCycles::MeasurementCycles1,
    {
        MeasurementCycles::MeasurementCycles1
    }
}

/// Number of receive (stop) events the front-end expects per burst.
#[derive(Clone, Copy, Debug, PartialEq, Eq, Structural)]
pub enum ReceiveEventsCnt {
    DoNotCountStopEvents,
    StopEvents1,
    StopEvents2,
    StopEvents3,
    StopEvents4,
    StopEvents5,
    StopEvents6,
    StopEvents7,
}

impl ReceiveEventsCnt {
    /// The integer the hardware assigns to each option.
    pub open spec fn spec_code(self) -> u8 {
        match self {
            ReceiveEventsCnt::DoNotCountStopEvents => 0,
            ReceiveEventsCnt::StopEvents1 => 1,
            ReceiveEventsCnt::StopEvents2 => 2,
            ReceiveEventsCnt::StopEvents3 => 3,
            ReceiveEventsCnt::StopEvents4 => 4,
            ReceiveEventsCnt::StopEvents5 => 5,
            ReceiveEventsCnt::StopEvents6 => 6,
            ReceiveEventsCnt::StopEvents7 => 7,
        }
    }

    /// No two options share a code.
    pub proof fn lemma_code_is_injective(self, other: Self)
        ensures
            self.code() == other.code() <==> self == other,
    {
    }

    /// The integer the hardware assigns to this option.
    #[verifier::when_used_as_spec(spec_code)]
    pub fn code(self) -> (c: u8)
        ensures
            c == self.spec_code(),
    {
        match self {
            ReceiveEventsCnt::DoNotCountStopEvents => 0,
            ReceiveEventsCnt::StopEvents1 => 1,
            ReceiveEventsCnt::StopEvents2 => 2,
            ReceiveEventsCnt::StopEvents3 => 3,
            ReceiveEventsCnt::StopEvents4 => 4,
            ReceiveEventsCnt::StopEvents5 => 5,
            ReceiveEventsCnt::StopEvents6 => 6,
            ReceiveEventsCnt::StopEvents7 => 7,
        }
    }
}

impl Default for ReceiveEventsCnt {
    fn default() -> (r: Self)
        ensures
            r == ReceiveEventsCnt::DoNotCountStopEvents,
    {
        ReceiveEventsCnt::DoNotCountStopEvents
    }
}

/// Source of the common-mode voltage reference.
#[derive(Clone, Copy, Debug, PartialEq, Eq, Structural)]
pub enum VoltageReference {
    Internal,
    External,
}

impl VoltageReference {
    /// The integer the hardware assigns to each option.
    pub open spec fn spec_code(self) -> u8 {
        match self {
            VoltageReference::Internal => 0,
            VoltageReference::External => 1,
        }
    }

    /// No two options share a code.
    pub proof fn lemma_code_is_injective(self, other: Self)
        ensures
            self.code() == other.code() <==> self == other,
    {
    }

    /// The integer the hardware assigns to this option.
    #[verifier::when_used_as_spec(spec_code)]
    pub fn code(self) -> (c: u8)
        ensures
            c == self.spec_code(),
    {
        match self {
            VoltageReference::Internal => 0,
            VoltageReference::External => 1,
        }
    }
}

impl Default for VoltageReference {
    fn default() -> (r: Self)
        ensures
            r == VoltageReference::Internal,
    {
        VoltageReference::Internal
    }
}

/// What the front-end measures: time of flight or temperature.
#[derive(Clone, Copy, Debug, PartialEq, Eq, Structural)]
pub enum MeasurementMode {
    TimeOfFlight,
    Temperature,
}

impl MeasurementMode {
    /// The integer the hardware assigns to each option.
    pub open spec fn spec_code(self) -> u8 {
        match self {
            MeasurementMode::TimeOfFlight => 0,
            MeasurementMode::Temperature => 1,
        }
    }

    /// No two options share a code.
    pub proof fn lemma_code_is_injective(self, other: Self)
        ensures
            self.code() == other.code() <==> self == other,
    {
    }

    /// The integer the hardware assigns to this option.
    #[verifier::when_used_as_spec(spec_code)]
    pub fn code(self) -> (c: u8)
        ensures
            c == self.spec_code(),
    {
        match self {
            MeasurementMode::TimeOfFlight => 0,
            MeasurementMode::Temperature => 1,
        }
    }
}

impl Default for MeasurementMode {
    fn default() -> (r: Self)
        ensures
            r == MeasurementMode::TimeOfFlight,
    {
        MeasurementMode::TimeOfFlight
    }
}

/// Transmit burst damping.
#[derive(Clone, Copy, Debug, PartialEq, Eq, Structural)]
pub enum DampingMode {
    DisableDamping,
    EnableDamping,
}

impl DampingMode {
    /// The integer the hardware assigns to each option.
    pub open spec fn spec_code(self) -> u8 {
        match self {
            DampingMode::DisableDamping => 0,
            DampingMode::EnableDamping => 1,
        }
    }

    /// No two options share a code.
    pub proof fn lemma_code_is_injective(self, other: Self)
        ensures
            self.code() == other.code() <==> self == other,
    {
    }

    /// The integer the hardware assigns to this option.
    #[verifier::when_used_as_spec(spec_code)]
    pub fn code(self) -> (c: u8)
        ensures
            c == self.spec_code(),
    {
        match self {
            DampingMode::DisableDamping => 0,
            DampingMode::EnableDamping => 1,
        }
    }
}

impl Default for DampingMode {
    fn default() -> (r: Self)
        ensures
            r == DampingMode::DisableDamping,
    {
        DampingMode::DisableDamping
    }
}

/// Automatic swapping of the two channels between measurements.
#[derive(Clone, Copy, Debug, PartialEq, Eq, Structural)]
pub enum ChannelSwap {
    DisableSwap,
    EnableSwap,
}

impl ChannelSwap {
    /// The integer the hardware assigns to each option.
    pub open spec fn spec_code(self) -> u8 {
        match self {
            ChannelSwap::DisableSwap => 0,
            ChannelSwap::EnableSwap => 1,
        }
    }

    /// No two options share a code.
    pub proof fn lemma_code_is_injective(self, other: Self)
        ensures
            self.code() == other.code() <==> self == other,
    {
    }

    /// The integer the hardware assigns to this option.
    #[verifier::when_used_as_spec(spec_code)]
    pub fn code(self) -> (c: u8)
        ensures
            c == self.spec_code(),
    {
        match self {
            ChannelSwap::DisableSwap => 0,
            ChannelSwap::EnableSwap => 1,
        }
    }
}

impl Default for ChannelSwap {
    fn default() -> (r: Self)
        ensures
            r == ChannelSwap::DisableSwap,
    {
        ChannelSwap::DisableSwap
    }
}

/// Whether the active channel is chosen by the external pin.
#[derive(Clone, Copy, Debug, PartialEq, Eq, Structural)]
pub enum ExternalChannelSelect {
    DisableExternalChannelSelect,
    EnableExternalChannelSelect,
}

impl ExternalChannelSelect {
    /// The integer the hardware assigns to each option.
    pub open spec fn spec_code(self) -> u8 {
        match self {
            ExternalChannelSelect::DisableExternalChannelSelect => 0,
            ExternalChannelSelect::EnableExternalChannelSelect => 1,
        }
    }

    /// No two options share a code.
    pub proof fn lemma_code_is_injective(self, other: Self)
        ensures
            self.code() == other.code() <==> self == other,
    {
    }

    /// The integer the hardware assigns to this option.
    #[verifier::when_used_as_spec(spec_code)]
    pub fn code(self) -> (c: u8)
        ensures
            c == self.spec_code(),
    {
        match self {
            ExternalChannelSelect::DisableExternalChannelSelect => 0,
            ExternalChannelSelect::EnableExternalChannelSelect => 1,
        }
    }
}

impl Default for ExternalChannelSelect {
    fn default() -> (r: Self)
        ensures
            r == ExternalChannelSelect::DisableExternalChannelSelect,
    {
        ExternalChannelSelect::DisableExternalChannelSelect
    }
}

/// The active transmit/receive channel pair.
#[derive(Clone, Copy, Debug, PartialEq, Eq, Structural)]
pub enum ChannelSelect {
    Channel1,
    Channel2,
}

impl ChannelSelect {
    /// The integer the hardware assigns to each option.
    pub open spec fn spec_code(self) -> u8 {
        match self {
            ChannelSelect::Channel1 => 0,
            ChannelSelect::Channel2 => 1,
        }
    }

    /// No two options share a code.
    pub proof fn lemma_code_is_injective(self, other: Self)
        ensures
            self.code() == other.code() <==> self == other,
    {
    }

    /// The integer the hardware assigns to this option.
    #[verifier::when_used_as_spec(spec_code)]
    pub fn code(self) -> (c: u8)
        ensures
            c == self.spec_code(),
    {
        match self {
            ChannelSelect::Channel1 => 0,
            ChannelSelect::Channel2 => 1,
        }
    }
}

impl Default for ChannelSelect {
    fn default() -> (r: Self)
        ensures
            r == ChannelSelect::Channel1,
    {
        ChannelSelect::Channel1
    }
}

/// Time-of-flight measurement mode.
#[derive(Clone, Copy, Debug, PartialEq, Eq, Structural)]
pub enum TOFMeasurementMode {
    Mode0,
    Mode1,
    Mode2,
}

impl TOFMeasurementMode {
    /// The integer the hardware assigns to each option.
    pub open spec fn spec_code(self) -> u8 {
        match self {
            TOFMeasurementMode::Mode0 => 0,
            TOFMeasurementMode::Mode1 => 1,
            TOFMeasurementMode::Mode2 => 2,
        }
    }

    /// No two options share a code.
    pub proof fn lemma_code_is_injective(self, other: Self)
        ensures
            self.code() == other.code() <==> self == other,
    {
    }

    /// The integer the hardware assigns to this option.
    #[verifier::when_used_as_spec(spec_code)]
    pub fn code(self) -> (c: u8)
        ensures
            c == self.spec_code(),
    {
        match self {
            TOFMeasurementMode::Mode0 => 0,
            TOFMeasurementMode::Mode1 => 1,
            TOFMeasurementMode::Mode2 => 2,
        }
    }
}

impl Default for TOFMeasurementMode {
    fn default() -> (r: Self)
        ensures
            r == TOFMeasurementMode::Mode0,
    {
        TOFMeasurementMode::Mode0
    }
}

/// Which temperature channels are measured.
#[derive(Clone, Copy, Debug, PartialEq, Eq, Structural)]
pub enum TempMode {
    MeasureRefRtd1Rtd2,
    MeasureRefRtd1,
}

impl TempMode {
    /// The integer the hardware assigns to each option.
    pub open spec fn spec_code(self) -> u8 {
        match self {
            TempMode::MeasureRefRtd1Rtd2 => 0,
            TempMode::MeasureRefRtd1 => 1,
        }
    }

    /// No two options share a code.
    pub proof fn lemma_code_is_injective(self, other: Self)
        ensures
            self.code() == other.code() <==> self == other,
    {
    }

    /// The integer the hardware assigns to this option.
    #[verifier::when_used_as_spec(spec_code)]
    pub fn code(self) -> (c: u8)
        ensures
            c == self.spec_code(),
    {
        match self {
            TempMode::MeasureRefRtd1Rtd2 => 0,
            TempMode::MeasureRefRtd1 => 1,
        }
    }
}

impl Default for TempMode {
    fn default() -> (r: Self)
        ensures
            r == TempMode::MeasureRefRtd1Rtd2,
    {
        TempMode::MeasureRefRtd1Rtd2
    }
}

/// Type of the attached resistance temperature detector.
#[derive(Clone, Copy, Debug, PartialEq, Eq, Structural)]
pub enum TempRtdSelect {
    PT1000,
    PT500,
}

impl TempRtdSelect {
    /// The integer the hardware assigns to each option.
    pub open spec fn spec_code(self) -> u8 {
        match self {
            TempRtdSelect::PT1000 => 0,
            TempRtdSelect::PT500 => 1,
        }
    }

    /// No two options share a code.
    pub proof fn lemma_code_is_injective(self, other: Self)
        ensures
            self.code() == other.code() <==> self == other,
    {
    }

    /// The integer the hardware assigns to this option.
    #[verifier::when_used_as_spec(spec_code)]
    pub fn code(self) -> (c: u8)
        ensures
            c == self.spec_code(),
    {
        match self {
            TempRtdSelect::PT1000 => 0,
            TempRtdSelect::PT500 => 1,
        }
    }
}

impl Default for TempRtdSelect {
    fn default() -> (r: Self)
        ensures
            r == TempRtdSelect::PT1000,
    {
        TempRtdSelect::PT1000
    }
}

/// Clock divider used during temperature measurement.
#[derive(Clone, Copy, Debug, PartialEq, Eq, Structural)]
pub enum TempClockDivider {
    DivideBy8,
    UseTxFreqDivider,
}

impl TempClockDivider {
    /// The integer the hardware assigns to each option.
    pub open spec fn spec_code(self) -> u8 {
        match self {
            TempClockDivider::DivideBy8 => 0,
            TempClockDivider::UseTxFreqDivider => 1,
        }
    }

    /// No two options share a code.
    pub proof fn lemma_code_is_injective(self, other: Self)
        ensures
            self.code() == other.code() <==> self == other,
    {
    }

    /// The integer the hardware assigns to this option.
    #[verifier::when_used_as_spec(spec_code)]
    pub fn code(self) -> (c: u8)
        ensures
            c == self.spec_code(),
    {
        match self {
            TempClockDivider::DivideBy8 => 0,
            TempClockDivider::UseTxFreqDivider => 1,
        }
    }
}

impl Default for TempClockDivider {
    fn default() -> (r: Self)
        ensures
            r == TempClockDivider::DivideBy8,
    {
        TempClockDivider::DivideBy8
    }
}

/// Power blanking between transmit and receive in standard measurements.
#[derive(Clone, Copy, Debug, PartialEq, Eq, Structural)]
pub enum PowerBlanking {
    DisablePowerBlanking,
    EnablePowerBlanking,
}

impl PowerBlanking {
    /// The integer the hardware assigns to each option.
    pub open spec fn spec_code(self) -> u8 {
        match self {
            PowerBlanking::DisablePowerBlanking => 0,
            PowerBlanking::EnablePowerBlanking => 1,
        }
    }

    /// No two options share a code.
    pub proof fn lemma_code_is_injective(self, other: Self)
        ensures
            self.code() == other.code() <==> self == other,
    {
    }

    /// The integer the hardware assigns to this option.
    #[verifier::when_used_as_spec(spec_code)]
    pub fn code(self) -> (c: u8)
        ensures
            c == self.spec_code(),
    {
        match self {
            PowerBlanking::DisablePowerBlanking => 0,
            PowerBlanking::EnablePowerBlanking => 1,
        }
    }
}

impl Default for PowerBlanking {
    fn default() -> (r: Self)
        ensures
            r == PowerBlanking::DisablePowerBlanking,
    {
        PowerBlanking::DisablePowerBlanking
    }
}

/// Echo qualification threshold of the receive comparator, in millivolts.
#[derive(Clone, Copy, Debug, PartialEq, Eq, Structural)]
pub enum EchoQualificationThreshold {
    Mv35,
    Mv50,
    Mv75,
    Mv125,
    Mv220,
    Mv410,
    Mv775,
    Mv1500,
}

impl EchoQualificationThreshold {
    /// The integer the hardware assigns to each option.
    pub open spec fn spec_code(self) -> u8 {
        match self {
            EchoQualificationThreshold::Mv35 => 0,
            EchoQualificationThreshold::Mv50 => 1,
            EchoQualificationThreshold::Mv75 => 2,
            EchoQualificationThreshold::Mv125 => 3,
            EchoQualificationThreshold::Mv220 => 4,
            EchoQualificationThreshold::Mv410 => 5,
            EchoQualificationThreshold::Mv775 => 6,
            EchoQualificationThreshold::Mv1500 => 7,
        }
    }

    /// No two options share a code.
    pub proof fn lemma_code_is_injective(self, other: Self)
        ensures
            self.code() == other.code() <==> self == other,
    {
    }

    /// The integer the hardware assigns to this option.
    #[verifier::when_used_as_spec(spec_code)]
    pub fn code(self) -> (c: u8)
        ensures
            c == self.spec_code(),
    {
        match self {
            EchoQualificationThreshold::Mv35 => 0,
            EchoQualificationThreshold::Mv50 => 1,
            EchoQualificationThreshold::Mv75 => 2,
            EchoQualificationThreshold::Mv125 => 3,
            EchoQualificationThreshold::Mv220 => 4,
            EchoQualificationThreshold::Mv410 => 5,
            EchoQualificationThreshold::Mv775 => 6,
            EchoQualificationThreshold::Mv1500 => 7,
        }
    }
}

impl Default for EchoQualificationThreshold {
    fn default() -> (r: Self)
        ensures
            r == EchoQualificationThreshold::Mv125,
    {
        EchoQualificationThreshold::Mv125
    }
}

/// Single-echo or multi-echo receive mode.
#[derive(Clone, Copy, Debug, PartialEq, Eq, Structural)]
pub enum ReceiveMode {
    SingleEcho,
    MultiEcho,
}

impl ReceiveMode {
    /// The integer the hardware assigns to each option.
    pub open spec fn spec_code(self) -> u8 {
        match self {
            ReceiveMode::SingleEcho => 0,
            ReceiveMode::MultiEcho => 1,
        }
    }

    /// No two options share a code.
    pub proof fn lemma_code_is_injective(self, other: Self)
        ensures
            self.code() == other.code() <==> self == other,
    {
    }

    /// The integer the hardware assigns to this option.
    #[verifier::when_used_as_spec(spec_code)]
    pub fn code(self) -> (c: u8)
        ensures
            c == self.spec_code(),
    {
        match self {
            ReceiveMode::SingleEcho => 0,
            ReceiveMode::MultiEcho => 1,
        }
    }
}

impl Default for ReceiveMode {
    fn default() -> (r: Self)
        ensures
            r == ReceiveMode::SingleEcho,
    {
        ReceiveMode::SingleEcho
    }
}

/// Polarity of the trigger input edge.
#[derive(Clone, Copy, Debug, PartialEq, Eq, Structural)]
pub enum TriggerEdgePolarity {
    RisingEdge,
    FallingEdge,
}

impl TriggerEdgePolarity {
    /// The integer the hardware assigns to each option.
    pub open spec fn spec_code(self) -> u8 {
        match self {
            TriggerEdgePolarity::RisingEdge => 0,
            TriggerEdgePolarity::FallingEdge => 1,
        }
    }

    /// No two options share a code.
    pub proof fn lemma_code_is_injective(self, other: Self)
        ensures
            self.code() == other.code() <==> self == other,
    {
    }

    /// The integer the hardware assigns to this option.
    #[verifier::when_used_as_spec(spec_code)]
    pub fn code(self) -> (c: u8)
        ensures
            c == self.spec_code(),
    {
        match self {
            TriggerEdgePolarity::RisingEdge => 0,
            TriggerEdgePolarity::FallingEdge => 1,
        }
    }
}

impl Default for TriggerEdgePolarity {
    fn default() -> (r: Self)
        ensures
            r == TriggerEdgePolarity::RisingEdge,
    {
        TriggerEdgePolarity::RisingEdge
    }
}

/// Gain of the programmable-gain amplifier, in decibels.
#[derive(Clone, Copy, Debug, PartialEq, Eq, Structural)]
pub enum PgaGain {
    DB0,
    DB3,
    DB6,
    DB9,
    DB12,
    DB15,
    DB18,
    DB21,
}

impl PgaGain {
    /// The integer the hardware assigns to each option.
    pub open spec fn spec_code(self) -> u8 {
        match self {
            PgaGain::DB0 => 0,
            PgaGain::DB3 => 1,
            PgaGain::DB6 => 2,
            PgaGain::DB9 => 3,
            PgaGain::DB12 => 4,
            PgaGain::DB15 => 5,
            PgaGain::DB18 => 6,
            PgaGain::DB21 => 7,
        }
    }

    /// No two options share a code.
    pub proof fn lemma_code_is_injective(self, other: Self)
        ensures
            self.code() == other.code() <==> self == other,
    {
    }

    /// The integer the hardware assigns to this option.
    #[verifier::when_used_as_spec(spec_code)]
    pub fn code(self) -> (c: u8)
        ensures
            c == self.spec_code(),
    {
        match self {
            PgaGain::DB0 => 0,
            PgaGain::DB3 => 1,
            PgaGain::DB6 => 2,
            PgaGain::DB9 => 3,
            PgaGain::DB12 => 4,
            PgaGain::DB15 => 5,
            PgaGain::DB18 => 6,
            PgaGain::DB21 => 7,
        }
    }
}

impl Default for PgaGain {
    fn default() -> (r: Self)
        ensures
            r == PgaGain::DB0,
    {
        PgaGain::DB0
    }
}

/// Whether an amplifier stage is in the signal path.
#[derive(Clone, Copy, Debug, PartialEq, Eq, Structural)]
pub enum AmplifierControl {
    Active,
    BypassedAndPoweredOff,
}

impl AmplifierControl {
    /// The integer the hardware assigns to each option.
    pub open spec fn spec_code(self) -> u8 {
        match self {
            AmplifierControl::Active => 0,
            AmplifierControl::BypassedAndPoweredOff => 1,
        }
    }

    /// No two options share a code.
    pub proof fn lemma_code_is_injective(self, other: Self)
        ensures
            self.code() == other.code() <==> self == other,
    {
    }

    /// The integer the hardware assigns to this option.
    #[verifier::when_used_as_spec(spec_code)]
    pub fn code(self) -> (c: u8)
        ensures
            c == self.spec_code(),
    {
        match self {
            AmplifierControl::Active => 0,
            AmplifierControl::BypassedAndPoweredOff => 1,
        }
    }
}

impl Default for AmplifierControl {
    fn default() -> (r: Self)
        ensures
            r == AmplifierControl::Active,
    {
        AmplifierControl::Active
    }
}

/// Feedback network of the low-noise amplifier.
#[derive(Clone, Copy, Debug, PartialEq, Eq, Structural)]
pub enum LnaFeedbackMode {
    CapacitiveMode,
    ResistiveMode,
}

impl LnaFeedbackMode {
    /// The integer the hardware assigns to each option.
    pub open spec fn spec_code(self) -> u8 {
        match self {
            LnaFeedbackMode::CapacitiveMode => 0,
            LnaFeedbackMode::ResistiveMode => 1,
        }
    }

    /// No two options share a code.
    pub proof fn lemma_code_is_injective(self, other: Self)
        ensures
            self.code() == other.code() <==> self == other,
    {
    }

    /// The integer the hardware assigns to this option.
    #[verifier::when_used_as_spec(spec_code)]
    pub fn code(self) -> (c: u8)
        ensures
            c == self.spec_code(),
    {
        match self {
            LnaFeedbackMode::CapacitiveMode => 0,
            LnaFeedbackMode::ResistiveMode => 1,
        }
    }
}

impl Default for LnaFeedbackMode {
    fn default() -> (r: Self)
        ensures
            r == LnaFeedbackMode::CapacitiveMode,
    {
        LnaFeedbackMode::CapacitiveMode
    }
}

/// Forces the short time-of-flight measurement sequence.
#[derive(Clone, Copy, Debug, PartialEq, Eq, Structural)]
pub enum ForceShortTimeOfFlight {
    Disabled,
    ForceShortTimeOfFlight,
}

impl ForceShortTimeOfFlight {
    /// The integer the hardware assigns to each option.
    pub open spec fn spec_code(self) -> u8 {
        match self {
            ForceShortTimeOfFlight::Disabled => 0,
            ForceShortTimeOfFlight::ForceShortTimeOfFlight => 1,
        }
    }

    /// No two options share a code.
    pub proof fn lemma_code_is_injective(self, other: Self)
        ensures
            self.code() == other.code() <==> self == other,
    {
    }

    /// The integer the hardware assigns to this option.
    #[verifier::when_used_as_spec(spec_code)]
    pub fn code(self) -> (c: u8)
        ensures
            c == self.spec_code(),
    {
        match self {
            ForceShortTimeOfFlight::Disabled => 0,
            ForceShortTimeOfFlight::ForceShortTimeOfFlight => 1,
        }
    }
}

impl Default for ForceShortTimeOfFlight {
    fn default() -> (r: Self)
        ensures
            r == ForceShortTimeOfFlight::Disabled,
    {
        ForceShortTimeOfFlight::Disabled
    }
}

/// Blanking period of the short time-of-flight sequence, in clock periods.
#[derive(Clone, Copy, Debug, PartialEq, Eq, Structural)]
pub enum ShortTofBlankPeriod {
    T0Times8,
    T0Times16,
    T0Times32,
    T0Times64,
    T0Times128,
    T0Times256,
    T0Times512,
    T0Times1024,
}

impl ShortTofBlankPeriod {
    /// The integer the hardware assigns to each option.
    pub open spec fn spec_code(self) -> u8 {
        match self {
            ShortTofBlankPeriod::T0Times8 => 0,
            ShortTofBlankPeriod::T0Times16 => 1,
            ShortTofBlankPeriod::T0Times32 => 2,
            ShortTofBlankPeriod::T0Times64 => 3,
            ShortTofBlankPeriod::T0Times128 => 4,
            ShortTofBlankPeriod::T0Times256 => 5,
            ShortTofBlankPeriod::T0Times512 => 6,
            ShortTofBlankPeriod::T0Times1024 => 7,
        }
    }

    /// No two options share a code.
    pub proof fn lemma_code_is_injective(self, other: Self)
        ensures
            self.code() == other.code() <==> self == other,
    {
    }

    /// The integer the hardware assigns to this option.
    #[verifier::when_used_as_spec(spec_code)]
    pub fn code(self) -> (c: u8)
        ensures
            c == self.spec_code(),
    {
        match self {
            ShortTofBlankPeriod::T0Times8 => 0,
            ShortTofBlankPeriod::T0Times16 => 1,
            ShortTofBlankPeriod::T0Times32 => 2,
            ShortTofBlankPeriod::T0Times64 => 3,
            ShortTofBlankPeriod::T0Times128 => 4,
            ShortTofBlankPeriod::T0Times256 => 5,
            ShortTofBlankPeriod::T0Times512 => 6,
            ShortTofBlankPeriod::T0Times1024 => 7,
        }
    }
}

impl Default for ShortTofBlankPeriod {
    fn default() -> (r: Self)
        ensures
            r == ShortTofBlankPeriod::T0Times64,
    {
        ShortTofBlankPeriod::T0Times64
    }
}

/// Echo timeout supervision.
#[derive(Clone, Copy, Debug, PartialEq, Eq, Structural)]
pub enum EchoTimeout {
    EnableTimeout,
    DisableTimeout,
}

impl EchoTimeout {
    /// The integer the hardware assigns to each option.
    pub open spec fn spec_code(self) -> u8 {
        match self {
            EchoTimeout::EnableTimeout => 0,
            EchoTimeout::DisableTimeout => 1,
        }
    }

    /// No two options share a code.
    pub proof fn lemma_code_is_injective(self, other: Self)
        ensures
            self.code() == other.code() <==> self == other,
    {
    }

    /// The integer the hardware assigns to this option.
    #[verifier::when_used_as_spec(spec_code)]
    pub fn code(self) -> (c: u8)
        ensures
            c == self.spec_code(),
    {
        match self {
            EchoTimeout::EnableTimeout => 0,
            EchoTimeout::DisableTimeout => 1,
        }
    }
}

impl Default for EchoTimeout {
    fn default() -> (r: Self)
        ensures
            r == EchoTimeout::EnableTimeout,
    {
        EchoTimeout::EnableTimeout
    }
}

/// Echo listening window, in clock periods.
#[derive(Clone, Copy, Debug, PartialEq, Eq, Structural)]
pub enum TofTimeoutControl {
    T0Times128,
    T0Times256,
    T0Times512,
    T0Times1024,
}

impl TofTimeoutControl {
    /// The integer the hardware assigns to each option.
    pub open spec fn spec_code(self) -> u8 {
        match self {
            TofTimeoutControl::T0Times128 => 0,
            TofTimeoutControl::T0Times256 => 1,
            TofTimeoutControl::T0Times512 => 2,
            TofTimeoutControl::T0Times1024 => 3,
        }
    }

    /// No two options share a code.
    pub proof fn lemma_code_is_injective(self, other: Self)
        ensures
            self.code() == other.code() <==> self == other,
    {
    }

    /// The integer the hardware assigns to this option.
    #[verifier::when_used_as_spec(spec_code)]
    pub fn code(self) -> (c: u8)
        ensures
            c == self.spec_code(),
    {
        match self {
            TofTimeoutControl::T0Times128 => 0,
            TofTimeoutControl::T0Times256 => 1,
            TofTimeoutControl::T0Times512 => 2,
            TofTimeoutControl::T0Times1024 => 3,
        }
    }
}

impl Default for TofTimeoutControl {
    fn default() -> (r: Self)
        ensures
            r == TofTimeoutControl::T0Times256,
    {
        TofTimeoutControl::T0Times256
    }
}

/// Divider applied to the external clock input.
#[derive(Clone, Copy, Debug, PartialEq, Eq, Structural)]
pub enum ClockInDiv {
    DivideBy1,
    DivideBy2,
}

impl ClockInDiv {
    /// The integer the hardware assigns to each option.
    pub open spec fn spec_code(self) -> u8 {
        match self {
            ClockInDiv::DivideBy1 => 0,
            ClockInDiv::DivideBy2 => 1,
        }
    }

    /// No two options share a code.
    pub proof fn lemma_code_is_injective(self, other: Self)
        ensures
            self.code() == other.code() <==> self == other,
    {
    }

    /// The integer the hardware assigns to this option.
    #[verifier::when_used_as_spec(spec_code)]
    pub fn code(self) -> (c: u8)
        ensures
            c == self.spec_code(),
    {
        match self {
            ClockInDiv::DivideBy1 => 0,
            ClockInDiv::DivideBy2 => 1,
        }
    }
}

impl Default for ClockInDiv {
    fn default() -> (r: Self)
        ensures
            r == ClockInDiv::DivideBy1,
    {
        ClockInDiv::DivideBy1
    }
}

/// Auto-zero period of the receiver, in clock periods.
#[derive(Clone, Copy, Debug, PartialEq, Eq, Structural)]
pub enum AutoZeroPeriod {
    T0Times64,
    T0Times128,
    T0Times256,
    T0Times512,
}

impl AutoZeroPeriod {
    /// The integer the hardware assigns to each option.
    pub open spec fn spec_code(self) -> u8 {
        match self {
            AutoZeroPeriod::T0Times64 => 0,
            AutoZeroPeriod::T0Times128 => 1,
            AutoZeroPeriod::T0Times256 => 2,
            AutoZeroPeriod::T0Times512 => 3,
        }
    }

    /// No two options share a code.
    pub proof fn lemma_code_is_injective(self, other: Self)
        ensures
            self.code() == other.code() <==> self == other,
    {
    }

    /// The integer the hardware assigns to this option.
    #[verifier::when_used_as_spec(spec_code)]
    pub fn code(self) -> (c: u8)
        ensures
            c == self.spec_code(),
    {
        match self {
            AutoZeroPeriod::T0Times64 => 0,
            AutoZeroPeriod::T0Times128 => 1,
            AutoZeroPeriod::T0Times256 => 2,
            AutoZeroPeriod::T0Times512 => 3,
        }
    }
}

impl Default for AutoZeroPeriod {
    fn default() -> (r: Self)
        ensures
            r == AutoZeroPeriod::T0Times64,
    {
        AutoZeroPeriod::T0Times64
    }
}

/// Control code written to the error register.
#[derive(Clone, Copy, Debug, PartialEq, Eq, Structural)]
pub enum ErrorFlagsWrite {
    DoNothing,
    ResetAllErrorFlagsAndErrorPin,
    ResetStateMachineAndMeasurement,
    ResetErrorStatemachineAndMeasurement,
}

impl ErrorFlagsWrite {
    /// The integer the hardware assigns to each option.
    pub open spec fn spec_code(self) -> u8 {
        match self {
            ErrorFlagsWrite::DoNothing => 0,
            ErrorFlagsWrite::ResetAllErrorFlagsAndErrorPin => 1,
            ErrorFlagsWrite::ResetStateMachineAndMeasurement => 2,
            ErrorFlagsWrite::ResetErrorStatemachineAndMeasurement => 3,
        }
    }

    /// No two options share a code.
    pub proof fn lemma_code_is_injective(self, other: Self)
        ensures
            self.code() == other.code() <==> self == other,
    {
    }

    /// The integer the hardware assigns to this option.
    #[verifier::when_used_as_spec(spec_code)]
    pub fn code(self) -> (c: u8)
        ensures
            c == self.spec_code(),
    {
        match self {
            ErrorFlagsWrite::DoNothing => 0,
            ErrorFlagsWrite::ResetAllErrorFlagsAndErrorPin => 1,
            ErrorFlagsWrite::ResetStateMachineAndMeasurement => 2,
            ErrorFlagsWrite::ResetErrorStatemachineAndMeasurement => 3,
        }
    }
}

impl Default for ErrorFlagsWrite {
    fn default() -> (r: Self)
        ensures
            r == ErrorFlagsWrite::DoNothing,
    {
        ErrorFlagsWrite::DoNothing
    }
}
/// Decoded "signal weak" flag of the error register.
#[derive(Clone, Copy, Debug, PartialEq, Eq, Structural)]
pub enum ErrSignalWeakRead {
    NoError,
    SignalWeekTimeout,
}

impl Default for ErrSignalWeakRead {
    fn default() -> (r: Self)
        ensures
            r == ErrSignalWeakRead::NoError,
    {
        ErrSignalWeakRead::NoError
    }
}

/// Decoded "no signal" flag of the error register.
#[derive(Clone, Copy, Debug, PartialEq, Eq, Structural)]
pub enum ErrNoSignalRead {
    NoError,
    NoSignalTimeout,
}

impl Default for ErrNoSignalRead {
    fn default() -> (r: Self)
        ensures
            r == ErrNoSignalRead::NoError,
    {
        ErrNoSignalRead::NoError
    }
}

/// Decoded "signal high" flag of the error register.
#[derive(Clone, Copy, Debug, PartialEq, Eq, Structural)]
pub enum ErrSignalHighRead {
    NoError,
    SignalHigh,
}

impl Default for ErrSignalHighRead {
    fn default() -> (r: Self)
        ensures
            r == ErrSignalHighRead::NoError,
    {
        ErrSignalHighRead::NoError
    }
}

} // verus!
