//! The register groups of the chip: which fields each register holds, where
//! each field lies within the byte, and the byte that a group packs into.

use vstd::prelude::*;
use crate::fields::{
    AmplifierControl, AutoZeroPeriod, ChannelSelect, ChannelSwap, ClockInDiv, DampingMode,
    EchoQualificationThreshold, EchoTimeout, ErrNoSignalRead, ErrSignalHighRead,
    ErrSignalWeakRead, ExternalChannelSelect, ForceShortTimeOfFlight, LnaFeedbackMode,
    MeasurementCycles, MeasurementMode, PgaGain, PowerBlanking, ReceiveEventsCnt, ReceiveMode,
    ShortTofBlankPeriod, TOFMeasurementMode, TempClockDivider, TempMode, TempRtdSelect,
    TimeOfFlightValue, TofTimeoutControl, TriggerEdgePolarity, TxFrequencyDivider,
    TxPulseShiftPosition, TxPulses, VoltageReference,
};

verus! {

pub const FREQUENCY_DIVIDER_BIT_OFFSET: u8 = 5;
pub const MEASUREMENT_CYCLES_BIT_OFFSET: u8 = 3;
pub const VOLTAGE_REFERENCE_BIT_OFFSET: u8 = 7;
pub const MEASUREMENT_MODE_BIT_OFFSET: u8 = 6;
pub const DAMPING_MODE_BIT_OFFSET: u8 = 5;
pub const CHANNEL_SWAP_BIT_OFFSET: u8 = 4;
pub const EXTERNAL_CHANNEL_SELECT_BIT_OFFSET: u8 = 3;
pub const CHANNEL_SELECT_BIT_OFFSET: u8 = 2;
pub const TEMP_MODE_BIT_OFFSET: u8 = 6;
pub const TEMP_RTD_SELECT_BIT_OFFSET: u8 = 5;
pub const TEMP_CLK_DIV_BIT_OFFSET: u8 = 4;
pub const BLANKING_BIT_OFFSET: u8 = 3;
pub const RECEIVE_MODE_BIT_OFFSET: u8 = 6;
pub const TRIGGER_EDGE_POLARITY_BIT_OFFSET: u8 = 5;
pub const PGA_GAIN_BIT_OFFSET: u8 = 5;
pub const PGA_CTRL_BIT_OFFSET: u8 = 4;
pub const LNA_CTRL_BIT_OFFSET: u8 = 3;
pub const LNA_FB_BIT_OFFSET: u8 = 2;
pub const ERR_SIG_WEAK_BIT_OFFSET: u8 = 2;
pub const ERR_NO_SIG_BIT_OFFSET: u8 = 1;
pub const FORCE_SHORT_TOF_BIT_OFFSET: u8 = 6;
pub const SHORT_TOF_BLANK_PERIOD_BIT_OFFSET: u8 = 3;
pub const ECHO_TIMEOUT_BIT_OFFSET: u8 = 2;
pub const CLOCK_IN_DIV_BIT_OFFSET: u8 = 2;

/// Address of each register on the bus.
#[derive(Clone, Copy, Debug, PartialEq, Eq, Structural)]
pub enum ConfigAddresses {
    Config0,
    Config1,
    Config2,
    Config3,
    Config4,
    Tof1,
    Tof0,
    ErrFlag,
    TimeOut,
    ClockRate,
}

/// A run of `width` adjacent bits of a register, the lowest at bit `offset`.
pub struct BitField {
    pub offset: u8,
    pub width: u8,
}

/// The byte with exactly the bits `offset .. offset + width` set.
pub open spec fn field_mask(offset: u8, width: u8) -> u8 {
    (0xffu8 >> ((8 - width) as u8)) << offset
}

impl BitField {
    /// The byte with exactly the bits of this field set.
    pub open spec fn mask(self) -> u8 {
        field_mask(self.offset, self.width)
    }
}

impl ConfigAddresses {
    /// The address of each register on the bus.
    pub open spec fn spec_address(self) -> u8 {
        match self {
            ConfigAddresses::Config0 => 0,
            ConfigAddresses::Config1 => 1,
            ConfigAddresses::Config2 => 2,
            ConfigAddresses::Config3 => 3,
            ConfigAddresses::Config4 => 4,
            ConfigAddresses::Tof1 => 5,
            ConfigAddresses::Tof0 => 6,
            ConfigAddresses::ErrFlag => 7,
            ConfigAddresses::TimeOut => 8,
            ConfigAddresses::ClockRate => 9,
        }
    }

    /// The register's address on the bus.
    #[verifier::when_used_as_spec(spec_address)]
    pub fn address(self) -> (a: u8)
        ensures
            a == self.spec_address(),
    {
        match self {
            ConfigAddresses::Config0 => 0,
            ConfigAddresses::Config1 => 1,
            ConfigAddresses::Config2 => 2,
            ConfigAddresses::Config3 => 3,
            ConfigAddresses::Config4 => 4,
            ConfigAddresses::Tof1 => 5,
            ConfigAddresses::Tof0 => 6,
            ConfigAddresses::ErrFlag => 7,
            ConfigAddresses::TimeOut => 8,
            ConfigAddresses::ClockRate => 9,
        }
    }

    /// The fields of the register, from the most significant down, each with
    /// its place in the byte. Bits that no field covers are reserved.
    pub open spec fn fields(self) -> Seq<BitField> {
        match self {
            ConfigAddresses::Config0 => seq![
                BitField { offset: FREQUENCY_DIVIDER_BIT_OFFSET, width: 3 },
                BitField { offset: 0, width: 5 },
            ],
            ConfigAddresses::Config1 => seq![
                BitField { offset: MEASUREMENT_CYCLES_BIT_OFFSET, width: 3 },
                BitField { offset: 0, width: 3 },
            ],
            ConfigAddresses::Config2 => seq![
                BitField { offset: VOLTAGE_REFERENCE_BIT_OFFSET, width: 1 },
                BitField { offset: MEASUREMENT_MODE_BIT_OFFSET, width: 1 },
                BitField { offset: DAMPING_MODE_BIT_OFFSET, width: 1 },
                BitField { offset: CHANNEL_SWAP_BIT_OFFSET, width: 1 },
                BitField { offset: EXTERNAL_CHANNEL_SELECT_BIT_OFFSET, width: 1 },
                BitField { offset: CHANNEL_SELECT_BIT_OFFSET, width: 1 },
                BitField { offset: 0, width: 2 },
            ],
            ConfigAddresses::Config3 => seq![
                BitField { offset: TEMP_MODE_BIT_OFFSET, width: 1 },
                BitField { offset: TEMP_RTD_SELECT_BIT_OFFSET, width: 1 },
                BitField { offset: TEMP_CLK_DIV_BIT_OFFSET, width: 1 },
                BitField { offset: BLANKING_BIT_OFFSET, width: 1 },
                BitField { offset: 0, width: 3 },
            ],
            ConfigAddresses::Config4 => seq![
                BitField { offset: RECEIVE_MODE_BIT_OFFSET, width: 1 },
                BitField { offset: TRIGGER_EDGE_POLARITY_BIT_OFFSET, width: 1 },
                BitField { offset: 0, width: 5 },
            ],
            ConfigAddresses::Tof1 => seq![
                BitField { offset: PGA_GAIN_BIT_OFFSET, width: 3 },
                BitField { offset: PGA_CTRL_BIT_OFFSET, width: 1 },
                BitField { offset: LNA_CTRL_BIT_OFFSET, width: 1 },
                BitField { offset: LNA_FB_BIT_OFFSET, width: 1 },
                BitField { offset: 0, width: 2 },
            ],
            ConfigAddresses::Tof0 => seq![BitField { offset: 0, width: 8 }],
            ConfigAddresses::ErrFlag => seq![
                BitField { offset: ERR_SIG_WEAK_BIT_OFFSET, width: 1 },
                BitField { offset: ERR_NO_SIG_BIT_OFFSET, width: 1 },
                BitField { offset: 0, width: 1 },
            ],
            ConfigAddresses::TimeOut => seq![
                BitField { offset: FORCE_SHORT_TOF_BIT_OFFSET, width: 1 },
                BitField { offset: SHORT_TOF_BLANK_PERIOD_BIT_OFFSET, width: 3 },
                BitField { offset: ECHO_TIMEOUT_BIT_OFFSET, width: 1 },
                BitField { offset: 0, width: 2 },
            ],
            ConfigAddresses::ClockRate => seq![
                BitField { offset: CLOCK_IN_DIV_BIT_OFFSET, width: 1 },
                BitField { offset: 0, width: 2 },
            ],
        }
    }
}

proof fn lemma_mask_values()
    by (bit_vector)
    ensures
        field_mask(0, 1) == 0x01,
        field_mask(1, 1) == 0x02,
        field_mask(2, 1) == 0x04,
        field_mask(3, 1) == 0x08,
        field_mask(4, 1) == 0x10,
        field_mask(5, 1) == 0x20,
        field_mask(6, 1) == 0x40,
        field_mask(7, 1) == 0x80,
        field_mask(0, 2) == 0x03,
        field_mask(0, 3) == 0x07,
        field_mask(3, 3) == 0x38,
        field_mask(5, 3) == 0xe0,
        field_mask(0, 5) == 0x1f,
        field_mask(0, 8) == 0xff,
{
}

proof fn lemma_masks_apart()
    by (bit_vector)
    ensures
        0xe0u8 & 0x1fu8 == 0,
        0x38u8 & 0x07u8 == 0,
        0x80u8 & 0x40u8 == 0,
        0x80u8 & 0x20u8 == 0,
        0x80u8 & 0x10u8 == 0,
        0x80u8 & 0x08u8 == 0,
        0x80u8 & 0x04u8 == 0,
        0x80u8 & 0x03u8 == 0,
        0x40u8 & 0x20u8 == 0,
        0x40u8 & 0x10u8 == 0,
        0x40u8 & 0x08u8 == 0,
        0x40u8 & 0x04u8 == 0,
        0x40u8 & 0x03u8 == 0,
        0x20u8 & 0x10u8 == 0,
        0x20u8 & 0x08u8 == 0,
        0x20u8 & 0x04u8 == 0,
        0x20u8 & 0x03u8 == 0,
        0x10u8 & 0x08u8 == 0,
        0x10u8 & 0x04u8 == 0,
        0x10u8 & 0x03u8 == 0,
        0x08u8 & 0x04u8 == 0,
        0x08u8 & 0x03u8 == 0,
        0x04u8 & 0x03u8 == 0,
        0x40u8 & 0x07u8 == 0,
        0x20u8 & 0x07u8 == 0,
        0x10u8 & 0x07u8 == 0,
        0x08u8 & 0x07u8 == 0,
        0x40u8 & 0x1fu8 == 0,
        0x20u8 & 0x1fu8 == 0,
        0xe0u8 & 0x10u8 == 0,
        0xe0u8 & 0x08u8 == 0,
        0xe0u8 & 0x04u8 == 0,
        0xe0u8 & 0x03u8 == 0,
        0x04u8 & 0x02u8 == 0,
        0x04u8 & 0x01u8 == 0,
        0x02u8 & 0x01u8 == 0,
        0x40u8 & 0x38u8 == 0,
        0x38u8 & 0x04u8 == 0,
        0x38u8 & 0x03u8 == 0,
{
}

/// No two fields of a register share a bit: the masks of any two of them
/// have no bit in common.
pub proof fn lemma_fields_do_not_overlap(register: ConfigAddresses, i: int, j: int)
    requires
        0 <= i < j < register.fields().len(),
    ensures
        register.fields()[i].mask() & register.fields()[j].mask() == 0,
        register.fields()[j].mask() & register.fields()[i].mask() == 0,
{
    lemma_mask_values();
    lemma_masks_apart();
    let a = register.fields()[i].mask();
    let b = register.fields()[j].mask();
    assert(a & b == b & a) by (bit_vector);
}

/// Transmit burst: clock divider and pulse count.
pub struct Config0 {
    pub tx_frequency_divider: TxFrequencyDivider,
    pub tx_pulses: TxPulses,
}

impl Config0 {
    /// The byte this group packs into: every field's code, weighted by
    /// the place value of the field's lowest bit.
    pub open spec fn byte(self) -> int {
        self.tx_frequency_divider.code() * 32
            + self.tx_pulses.value()
    }

    /// Whether every field holds its value after power-on reset.
    pub open spec fn is_power_on(self) -> bool {
        &&& self.tx_frequency_divider == TxFrequencyDivider::DivideBy8
        &&& self.tx_pulses.value() == 5
    }
}

impl Default for Config0 {
    fn default() -> (r: Self)
        ensures
            r.is_power_on(),
    {
        Config0 {
            tx_frequency_divider: TxFrequencyDivider::DivideBy8,
            tx_pulses: TxPulses::new(5),
        }
    }
}

/// Averaging cycles and expected receive events.
pub struct Config1 {
    pub measurement_cycles: MeasurementCycles,
    pub receive_events_cnt: ReceiveEventsCnt,
}

impl Config1 {
    /// The byte this group packs into: every field's code, weighted by
    /// the place value of the field's lowest bit.
    pub open spec fn byte(self) -> int {
        self.measurement_cycles.code() * 8
            + self.receive_events_cnt.code()
    }

    /// Whether every field holds its value after power-on reset.
    pub open spec fn is_power_on(self) -> bool {
        &&& self.measurement_cycles == MeasurementCycles::MeasurementCycles1
        &&& self.receive_events_cnt == ReceiveEventsCnt::DoNotCountStopEvents
    }
}

impl Default for Config1 {
    fn default() -> (r: Self)
        ensures
            r.is_power_on(),
    {
        Config1 {
            measurement_cycles: MeasurementCycles::MeasurementCycles1,
            receive_events_cnt: ReceiveEventsCnt::DoNotCountStopEvents,
        }
    }
}

/// Voltage reference, measurement mode, damping and channel selection.
pub struct Config2 {
    pub voltage_reference: VoltageReference,
    pub measurement_mode: MeasurementMode,
    pub damping_mode: DampingMode,
    pub channel_swap: ChannelSwap,
    pub ext_channel_select: ExternalChannelSelect,
    pub channel_select: ChannelSelect,
    pub tof_meas_mode: TOFMeasurementMode,
}

impl Config2 {
    /// The byte this group packs into: every field's code, weighted by
    /// the place value of the field's lowest bit.
    pub open spec fn byte(self) -> int {
        self.voltage_reference.code() * 128
            + self.measurement_mode.code() * 64
            + self.damping_mode.code() * 32
            + self.channel_swap.code() * 16
            + self.ext_channel_select.code() * 8
            + self.channel_select.code() * 4
            + self.tof_meas_mode.code()
    }

    /// Whether every field holds its value after power-on reset.
    pub open spec fn is_power_on(self) -> bool {
        &&& self.voltage_reference == VoltageReference::Internal
        &&& self.measurement_mode == MeasurementMode::TimeOfFlight
        &&& self.damping_mode == DampingMode::DisableDamping
        &&& self.channel_swap == ChannelSwap::DisableSwap
        &&& self.ext_channel_select == ExternalChannelSelect::DisableExternalChannelSelect
        &&& self.channel_select == ChannelSelect::Channel1
        &&& self.tof_meas_mode == TOFMeasurementMode::Mode0
    }
}

impl Default for Config2 {
    fn default() -> (r: Self)
        ensures
            r.is_power_on(),
    {
        Config2 {
            voltage_reference: VoltageReference::Internal,
            measurement_mode: MeasurementMode::TimeOfFlight,
            damping_mode: DampingMode::DisableDamping,
            channel_swap: ChannelSwap::DisableSwap,
            ext_channel_select: ExternalChannelSelect::DisableExternalChannelSelect,
            channel_select: ChannelSelect::Channel1,
            tof_meas_mode: TOFMeasurementMode::Mode0,
        }
    }
}

/// Temperature measurement, power blanking and echo threshold.
pub struct Config3 {
    pub temp_mode: TempMode,
    pub temp_rtd: TempRtdSelect,
    pub temp_clk_div: TempClockDivider,
    pub blanking: PowerBlanking,
    pub echo_qualification_threshold: EchoQualificationThreshold,
}

impl Config3 {
    /// The byte this group packs into: every field's code, weighted by
    /// the place value of the field's lowest bit.
    pub open spec fn byte(self) -> int {
        self.temp_mode.code() * 64
            + self.temp_rtd.code() * 32
            + self.temp_clk_div.code() * 16
            + self.blanking.code() * 8
            + self.echo_qualification_threshold.code()
    }

    /// Whether every field holds its value after power-on reset.
    pub open spec fn is_power_on(self) -> bool {
        &&& self.temp_mode == TempMode::MeasureRefRtd1Rtd2
        &&& self.temp_rtd == TempRtdSelect::PT1000
        &&& self.temp_clk_div == TempClockDivider::DivideBy8
        &&& self.blanking == PowerBlanking::DisablePowerBlanking
        &&& self.echo_qualification_threshold == EchoQualificationThreshold::Mv125
    }
}

impl Default for Config3 {
    fn default() -> (r: Self)
        ensures
            r.is_power_on(),
    {
        Config3 {
            temp_mode: TempMode::MeasureRefRtd1Rtd2,
            temp_rtd: TempRtdSelect::PT1000,
            temp_clk_div: TempClockDivider::DivideBy8,
            blanking: PowerBlanking::DisablePowerBlanking,
            echo_qualification_threshold: EchoQualificationThreshold::Mv125,
        }
    }
}

/// Receive mode, trigger polarity and position of the shifted pulse.
pub struct Config4 {
    pub receive_mode: ReceiveMode,
    pub trigger_edge_polarity: TriggerEdgePolarity,
    pub tx_pulse_shift_position: TxPulseShiftPosition,
}

impl Config4 {
    /// The byte this group packs into: every field's code, weighted by
    /// the place value of the field's lowest bit.
    pub open spec fn byte(self) -> int {
        self.receive_mode.code() * 64
            + self.trigger_edge_polarity.code() * 32
            + self.tx_pulse_shift_position.value()
    }

    /// Whether every field holds its value after power-on reset.
    pub open spec fn is_power_on(self) -> bool {
        &&& self.receive_mode == ReceiveMode::SingleEcho
        &&& self.trigger_edge_polarity == TriggerEdgePolarity::RisingEdge
        &&& self.tx_pulse_shift_position.value() == 31
    }
}

impl Default for Config4 {
    fn default() -> (r: Self)
        ensures
            r.is_power_on(),
    {
        Config4 {
            receive_mode: ReceiveMode::SingleEcho,
            trigger_edge_polarity: TriggerEdgePolarity::RisingEdge,
            tx_pulse_shift_position: TxPulseShiftPosition::new(31),
        }
    }
}

/// Short time-of-flight sequence and echo timeouts.
pub struct TimeOut {
    pub force_short_tof: ForceShortTimeOfFlight,
    pub short_tof_blank_period: ShortTofBlankPeriod,
    pub echo_timeout: EchoTimeout,
    pub tof_timeout_crl: TofTimeoutControl,
}

impl TimeOut {
    /// The byte this group packs into: every field's code, weighted by
    /// the place value of the field's lowest bit.
    pub open spec fn byte(self) -> int {
        self.force_short_tof.code() * 64
            + self.short_tof_blank_period.code() * 8
            + self.echo_timeout.code() * 4
            + self.tof_timeout_crl.code()
    }

    /// Whether every field holds its value after power-on reset.
    pub open spec fn is_power_on(self) -> bool {
        &&& self.force_short_tof == ForceShortTimeOfFlight::Disabled
        &&& self.short_tof_blank_period == ShortTofBlankPeriod::T0Times64
        &&& self.echo_timeout == EchoTimeout::EnableTimeout
        &&& self.tof_timeout_crl == TofTimeoutControl::T0Times256
    }
}

impl Default for TimeOut {
    fn default() -> (r: Self)
        ensures
            r.is_power_on(),
    {
        TimeOut {
            force_short_tof: ForceShortTimeOfFlight::Disabled,
            short_tof_blank_period: ShortTofBlankPeriod::T0Times64,
            echo_timeout: EchoTimeout::EnableTimeout,
            tof_timeout_crl: TofTimeoutControl::T0Times256,
        }
    }
}

/// Clock input divider and auto-zero period.
pub struct ClockRate {
    pub clock_in_div: ClockInDiv,
    pub auto_zero_period: AutoZeroPeriod,
}

impl ClockRate {
    /// The byte this group packs into: every field's code, weighted by
    /// the place value of the field's lowest bit.
    pub open spec fn byte(self) -> int {
        self.clock_in_div.code() * 4
            + self.auto_zero_period.code()
    }

    /// Whether every field holds its value after power-on reset.
    pub open spec fn is_power_on(self) -> bool {
        &&& self.clock_in_div == ClockInDiv::DivideBy1
        &&& self.auto_zero_period == AutoZeroPeriod::T0Times64
    }
}

impl Default for ClockRate {
    fn default() -> (r: Self)
        ensures
            r.is_power_on(),
    {
        ClockRate {
            clock_in_div: ClockInDiv::DivideBy1,
            auto_zero_period: AutoZeroPeriod::T0Times64,
        }
    }
}

/// Amplifier settings and the ten-bit time-of-flight value. The group spans
/// two registers: the first holds the amplifier fields and the two high bits
/// of the value, the second its eight low bits.
pub struct AmplifierAndTimeOfFlight {
    pub pga_gain: PgaGain,
    pub pga_ctrl: AmplifierControl,
    pub lna_ctrl: AmplifierControl,
    pub lna_fb: LnaFeedbackMode,
    pub time_of_flight: TimeOfFlightValue,
}

impl AmplifierAndTimeOfFlight {
    /// The byte of the first register: every field's code, weighted by the
    /// place value of the field's lowest bit.
    pub open spec fn high_byte(self) -> int {
        self.pga_gain.code() * 32
            + self.pga_ctrl.code() * 16
            + self.lna_ctrl.code() * 8
            + self.lna_fb.code() * 4
            + self.time_of_flight.high_bits()
    }

    /// The byte of the second register.
    pub open spec fn low_byte(self) -> int {
        self.time_of_flight.low_bits()
    }

    /// Whether every field holds its value after power-on reset.
    pub open spec fn is_power_on(self) -> bool {
        &&& self.pga_gain == PgaGain::DB0
        &&& self.pga_ctrl == AmplifierControl::Active
        &&& self.lna_ctrl == AmplifierControl::Active
        &&& self.lna_fb == LnaFeedbackMode::CapacitiveMode
        &&& self.time_of_flight.value() == 0
    }
}

impl Default for AmplifierAndTimeOfFlight {
    fn default() -> (r: Self)
        ensures
            r.is_power_on(),
    {
        AmplifierAndTimeOfFlight {
            pga_gain: PgaGain::DB0,
            pga_ctrl: AmplifierControl::Active,
            lna_ctrl: AmplifierControl::Active,
            lna_fb: LnaFeedbackMode::CapacitiveMode,
            time_of_flight: TimeOfFlightValue::new(0),
        }
    }
}

/// The three error flags of the chip, as one read of the error register
/// showed them.
pub struct ErrorFlagsRead {
    signal_week: ErrSignalWeakRead,
    no_signal: ErrNoSignalRead,
    signal_high: ErrSignalHighRead,
}

impl ErrorFlagsRead {
    /// The decoded "signal weak" flag.
    pub closed spec fn spec_signal_week(self) -> ErrSignalWeakRead {
        self.signal_week
    }

    /// The decoded "no signal" flag.
    pub closed spec fn spec_no_signal(self) -> ErrNoSignalRead {
        self.no_signal
    }

    /// The decoded "signal high" flag.
    pub closed spec fn spec_signal_high(self) -> ErrSignalHighRead {
        self.signal_high
    }

    /// The flags that a status byte stands for: bit 0 is "signal high",
    /// bit 1 "no signal", bit 2 "signal weak". The other bits are reserved
    /// and have no say.
    pub open spec fn shows(self, status: u8) -> bool {
        &&& self.spec_signal_high() == if status as int % 2 == 1 {
            ErrSignalHighRead::SignalHigh
        } else {
            ErrSignalHighRead::NoError
        }
        &&& self.spec_no_signal() == if (status as int / 2) % 2 == 1 {
            ErrNoSignalRead::NoSignalTimeout
        } else {
            ErrNoSignalRead::NoError
        }
        &&& self.spec_signal_week() == if (status as int / 4) % 2 == 1 {
            ErrSignalWeakRead::SignalWeekTimeout
        } else {
            ErrSignalWeakRead::NoError
        }
    }

    /// Decodes the byte read from the error register.
    pub fn decode(status: u8) -> (flags: Self)
        ensures
            flags.shows(status),
    {
        let mut error_flags = ErrorFlagsRead::default();
        assert((status & 1u8 == 1u8) == (status % 2 == 1)
            && (status & (1u8 << 1u8) == 1u8 << 1u8) == ((status / 2) % 2 == 1)
            && (status & (1u8 << 2u8) == 1u8 << 2u8) == ((status / 4) % 2 == 1)) by (bit_vector);
        if status & 0b1 == 0b1 {
            error_flags.signal_high = ErrSignalHighRead::SignalHigh;
        }
        if status & (0b1 << ERR_NO_SIG_BIT_OFFSET) == 0b1 << ERR_NO_SIG_BIT_OFFSET {
            error_flags.no_signal = ErrNoSignalRead::NoSignalTimeout;
        }
        if status & (0b1 << ERR_SIG_WEAK_BIT_OFFSET) == 0b1 << ERR_SIG_WEAK_BIT_OFFSET {
            error_flags.signal_week = ErrSignalWeakRead::SignalWeekTimeout;
        }
        error_flags
    }

    pub fn signal_week(&self) -> (flag: &ErrSignalWeakRead)
        ensures
            *flag == self.spec_signal_week(),
    {
        &self.signal_week
    }

    pub fn no_signal(&self) -> (flag: &ErrNoSignalRead)
        ensures
            *flag == self.spec_no_signal(),
    {
        &self.no_signal
    }

    pub fn signal_high(&self) -> (flag: &ErrSignalHighRead)
        ensures
            *flag == self.spec_signal_high(),
    {
        &self.signal_high
    }
}

impl Default for ErrorFlagsRead {
    fn default() -> (r: Self)
        ensures
            r.shows(0),
    {
        ErrorFlagsRead {
            signal_week: ErrSignalWeakRead::NoError,
            no_signal: ErrNoSignalRead::NoError,
            signal_high: ErrSignalHighRead::NoError,
        }
    }
}

/// What stands in `byte` at the place of `field`: the bits under the
/// field's mask, moved down to bit 0.
pub open spec fn field_of(byte: u8, field: BitField) -> u8 {
    (byte & field.mask()) >> field.offset
}

/// The bits of `fields[from..]` taken together.
pub open spec fn masks_joined(fields: Seq<BitField>, from: int) -> u8
    decreases fields.len() - from,
{
    if 0 <= from < fields.len() {
        fields[from].mask() | masks_joined(fields, from + 1)
    } else {
        0
    }
}

impl ConfigAddresses {
    /// The bits of the register that belong to a field.
    pub open spec fn used_bits(self) -> u8 {
        masks_joined(self.fields(), 0)
    }
}

/// The configuration registers' bits that belong to a field; the rest are
/// reserved.
pub proof fn lemma_used_bits()
    ensures
        ConfigAddresses::Config0.used_bits() == 0xff,
        ConfigAddresses::Config1.used_bits() == 0x3f,
        ConfigAddresses::Config2.used_bits() == 0xff,
        ConfigAddresses::Config3.used_bits() == 0x7f,
        ConfigAddresses::Config4.used_bits() == 0x7f,
        ConfigAddresses::TimeOut.used_bits() == 0x7f,
        ConfigAddresses::ClockRate.used_bits() == 0x07,
{
    lemma_mask_values();
    reveal_with_fuel(masks_joined, 9);
    assert(0xe0u8 | (0x1fu8 | 0u8) == 0xff
        && 0x38u8 | (0x07u8 | 0u8) == 0x3f
        && 0x80u8 | (0x40u8 | (0x20u8 | (0x10u8 | (0x08u8 | (0x04u8 | (0x03u8 | 0u8)))))) == 0xff
        && 0x40u8 | (0x20u8 | (0x10u8 | (0x08u8 | (0x07u8 | 0u8)))) == 0x7f
        && 0x40u8 | (0x20u8 | (0x1fu8 | 0u8)) == 0x7f
        && 0x40u8 | (0x38u8 | (0x04u8 | (0x03u8 | 0u8))) == 0x7f
        && 0x04u8 | (0x03u8 | 0u8) == 0x07) by (bit_vector);
}

impl Config0 {
    /// Packing loses nothing and adds nothing: the byte fits eight bits, each
    /// field's code is what stands in the byte at the field's place, and the
    /// bits that belong to no field are 0.
    pub proof fn lemma_fields_read_back(self)
        ensures
            0 <= self.byte() < 256,
            field_of(self.byte() as u8, ConfigAddresses::Config0.fields()[0])
                == self.tx_frequency_divider.code(),
            field_of(self.byte() as u8, ConfigAddresses::Config0.fields()[1])
                == self.tx_pulses.value(),
            self.byte() as u8 & !ConfigAddresses::Config0.used_bits() == 0,
    {
        self.tx_pulses.lemma_value_in_range();
        let f0: u8 = self.tx_frequency_divider.code();
        let f1: u8 = self.tx_pulses.value();
        let b: u8 = self.byte() as u8;
        lemma_used_bits();
        assert((b & field_mask(5, 3)) >> 5u8 == f0
            && (b & field_mask(0, 5)) >> 0u8 == f1
            && b & !0xffu8 == 0) by (bit_vector)
            requires
                f0 < 8,
                f1 < 32,
                b == f0 * 32 + f1,
        ;
    }
}

impl Config1 {
    /// Packing loses nothing and adds nothing: the byte fits eight bits, each
    /// field's code is what stands in the byte at the field's place, and the
    /// bits that belong to no field are 0.
    pub proof fn lemma_fields_read_back(self)
        ensures
            0 <= self.byte() < 256,
            field_of(self.byte() as u8, ConfigAddresses::Config1.fields()[0])
                == self.measurement_cycles.code(),
            field_of(self.byte() as u8, ConfigAddresses::Config1.fields()[1])
                == self.receive_events_cnt.code(),
            self.byte() as u8 & !ConfigAddresses::Config1.used_bits() == 0,
    {
        let f0: u8 = self.measurement_cycles.code();
        let f1: u8 = self.receive_events_cnt.code();
        let b: u8 = self.byte() as u8;
        lemma_used_bits();
        assert((b & field_mask(3, 3)) >> 3u8 == f0
            && (b & field_mask(0, 3)) >> 0u8 == f1
            && b & !0x3fu8 == 0) by (bit_vector)
            requires
                f0 < 8,
                f1 < 8,
                b == f0 * 8 + f1,
        ;
    }
}

impl Config2 {
    /// Packing loses nothing and adds nothing: the byte fits eight bits, each
    /// field's code is what stands in the byte at the field's place, and the
    /// bits that belong to no field are 0.
    pub proof fn lemma_fields_read_back(self)
        ensures
            0 <= self.byte() < 256,
            field_of(self.byte() as u8, ConfigAddresses::Config2.fields()[0])
                == self.voltage_reference.code(),
            field_of(self.byte() as u8, ConfigAddresses::Config2.fields()[1])
                == self.measurement_mode.code(),
            field_of(self.byte() as u8, ConfigAddresses::Config2.fields()[2])
                == self.damping_mode.code(),
            field_of(self.byte() as u8, ConfigAddresses::Config2.fields()[3])
                == self.channel_swap.code(),
            field_of(self.byte() as u8, ConfigAddresses::Config2.fields()[4])
                == self.ext_channel_select.code(),
            field_of(self.byte() as u8, ConfigAddresses::Config2.fields()[5])
                == self.channel_select.code(),
            field_of(self.byte() as u8, ConfigAddresses::Config2.fields()[6])
                == self.tof_meas_mode.code(),
            self.byte() as u8 & !ConfigAddresses::Config2.used_bits() == 0,
    {
        let f0: u8 = self.voltage_reference.code();
        let f1: u8 = self.measurement_mode.code();
        let f2: u8 = self.damping_mode.code();
        let f3: u8 = self.channel_swap.code();
        let f4: u8 = self.ext_channel_select.code();
        let f5: u8 = self.channel_select.code();
        let f6: u8 = self.tof_meas_mode.code();
        let b: u8 = self.byte() as u8;
        lemma_used_bits();
        assert((b & field_mask(7, 1)) >> 7u8 == f0
            && (b & field_mask(6, 1)) >> 6u8 == f1
            && (b & field_mask(5, 1)) >> 5u8 == f2
            && (b & field_mask(4, 1)) >> 4u8 == f3
            && (b & field_mask(3, 1)) >> 3u8 == f4
            && (b & field_mask(2, 1)) >> 2u8 == f5
            && (b & field_mask(0, 2)) >> 0u8 == f6
            && b & !0xffu8 == 0) by (bit_vector)
            requires
                f0 < 2,
                f1 < 2,
                f2 < 2,
                f3 < 2,
                f4 < 2,
                f5 < 2,
                f6 < 4,
                b == f0 * 128 + f1 * 64 + f2 * 32 + f3 * 16 + f4 * 8 + f5 * 4 + f6,
        ;
    }
}

impl Config3 {
    /// Packing loses nothing and adds nothing: the byte fits eight bits, each
    /// field's code is what stands in the byte at the field's place, and the
    /// bits that belong to no field are 0.
    pub proof fn lemma_fields_read_back(self)
        ensures
            0 <= self.byte() < 256,
            field_of(self.byte() as u8, ConfigAddresses::Config3.fields()[0])
                == self.temp_mode.code(),
            field_of(self.byte() as u8, ConfigAddresses::Config3.fields()[1])
                == self.temp_rtd.code(),
            field_of(self.byte() as u8, ConfigAddresses::Config3.fields()[2])
                == self.temp_clk_div.code(),
            field_of(self.byte() as u8, ConfigAddresses::Config3.fields()[3])
                == self.blanking.code(),
            field_of(self.byte() as u8, ConfigAddresses::Config3.fields()[4])
                == self.echo_qualification_threshold.code(),
            self.byte() as u8 & !ConfigAddresses::Config3.used_bits() == 0,
    {
        let f0: u8 = self.temp_mode.code();
        let f1: u8 = self.temp_rtd.code();
        let f2: u8 = self.temp_clk_div.code();
        let f3: u8 = self.blanking.code();
        let f4: u8 = self.echo_qualification_threshold.code();
        let b: u8 = self.byte() as u8;
        lemma_used_bits();
        assert((b & field_mask(6, 1)) >> 6u8 == f0
            && (b & field_mask(5, 1)) >> 5u8 == f1
            && (b & field_mask(4, 1)) >> 4u8 == f2
            && (b & field_mask(3, 1)) >> 3u8 == f3
            && (b & field_mask(0, 3)) >> 0u8 == f4
            && b & !0x7fu8 == 0) by (bit_vector)
            requires
                f0 < 2,
                f1 < 2,
                f2 < 2,
                f3 < 2,
                f4 < 8,
                b == f0 * 64 + f1 * 32 + f2 * 16 + f3 * 8 + f4,
        ;
    }
}

impl Config4 {
    /// Packing loses nothing and adds nothing: the byte fits eight bits, each
    /// field's code is what stands in the byte at the field's place, and the
    /// bits that belong to no field are 0.
    pub proof fn lemma_fields_read_back(self)
        ensures
            0 <= self.byte() < 256,
            field_of(self.byte() as u8, ConfigAddresses::Config4.fields()[0])
                == self.receive_mode.code(),
            field_of(self.byte() as u8, ConfigAddresses::Config4.fields()[1])
                == self.trigger_edge_polarity.code(),
            field_of(self.byte() as u8, ConfigAddresses::Config4.fields()[2])
                == self.tx_pulse_shift_position.value(),
            self.byte() as u8 & !ConfigAddresses::Config4.used_bits() == 0,
    {
        self.tx_pulse_shift_position.lemma_value_in_range();
        let f0: u8 = self.receive_mode.code();
        let f1: u8 = self.trigger_edge_polarity.code();
        let f2: u8 = self.tx_pulse_shift_position.value();
        let b: u8 = self.byte() as u8;
        lemma_used_bits();
        assert((b & field_mask(6, 1)) >> 6u8 == f0
            && (b & field_mask(5, 1)) >> 5u8 == f1
            && (b & field_mask(0, 5)) >> 0u8 == f2
            && b & !0x7fu8 == 0) by (bit_vector)
            requires
                f0 < 2,
                f1 < 2,
                f2 < 32,
                b == f0 * 64 + f1 * 32 + f2,
        ;
    }
}

impl TimeOut {
    /// Packing loses nothing and adds nothing: the byte fits eight bits, each
    /// field's code is what stands in the byte at the field's place, and the
    /// bits that belong to no field are 0.
    pub proof fn lemma_fields_read_back(self)
        ensures
            0 <= self.byte() < 256,
            field_of(self.byte() as u8, ConfigAddresses::TimeOut.fields()[0])
                == self.force_short_tof.code(),
            field_of(self.byte() as u8, ConfigAddresses::TimeOut.fields()[1])
                == self.short_tof_blank_period.code(),
            field_of(self.byte() as u8, ConfigAddresses::TimeOut.fields()[2])
                == self.echo_timeout.code(),
            field_of(self.byte() as u8, ConfigAddresses::TimeOut.fields()[3])
                == self.tof_timeout_crl.code(),
            self.byte() as u8 & !ConfigAddresses::TimeOut.used_bits() == 0,
    {
        let f0: u8 = self.force_short_tof.code();
        let f1: u8 = self.short_tof_blank_period.code();
        let f2: u8 = self.echo_timeout.code();
        let f3: u8 = self.tof_timeout_crl.code();
        let b: u8 = self.byte() as u8;
        lemma_used_bits();
        assert((b & field_mask(6, 1)) >> 6u8 == f0
            && (b & field_mask(3, 3)) >> 3u8 == f1
            && (b & field_mask(2, 1)) >> 2u8 == f2
            && (b & field_mask(0, 2)) >> 0u8 == f3
            && b & !0x7fu8 == 0) by (bit_vector)
            requires
                f0 < 2,
                f1 < 8,
                f2 < 2,
                f3 < 4,
                b == f0 * 64 + f1 * 8 + f2 * 4 + f3,
        ;
    }
}

impl ClockRate {
    /// Packing loses nothing and adds nothing: the byte fits eight bits, each
    /// field's code is what stands in the byte at the field's place, and the
    /// bits that belong to no field are 0.
    pub proof fn lemma_fields_read_back(self)
        ensures
            0 <= self.byte() < 256,
            field_of(self.byte() as u8, ConfigAddresses::ClockRate.fields()[0])
                == self.clock_in_div.code(),
            field_of(self.byte() as u8, ConfigAddresses::ClockRate.fields()[1])
                == self.auto_zero_period.code(),
            self.byte() as u8 & !ConfigAddresses::ClockRate.used_bits() == 0,
    {
        let f0: u8 = self.clock_in_div.code();
        let f1: u8 = self.auto_zero_period.code();
        let b: u8 = self.byte() as u8;
        lemma_used_bits();
        assert((b & field_mask(2, 1)) >> 2u8 == f0
            && (b & field_mask(0, 2)) >> 0u8 == f1
            && b & !0x07u8 == 0) by (bit_vector)
            requires
                f0 < 2,
                f1 < 4,
                b == f0 * 4 + f1,
        ;
    }
}

impl AmplifierAndTimeOfFlight {
    /// Packing loses nothing and adds nothing: both bytes fit eight bits,
    /// each field's code is what stands in its byte at the field's place,
    /// and the two parts of the time-of-flight value put together give the
    /// value again.
    pub proof fn lemma_fields_read_back(self)
        ensures
            0 <= self.high_byte() < 256,
            0 <= self.low_byte() < 256,
            field_of(self.high_byte() as u8, ConfigAddresses::Tof1.fields()[0])
                == self.pga_gain.code(),
            field_of(self.high_byte() as u8, ConfigAddresses::Tof1.fields()[1])
                == self.pga_ctrl.code(),
            field_of(self.high_byte() as u8, ConfigAddresses::Tof1.fields()[2])
                == self.lna_ctrl.code(),
            field_of(self.high_byte() as u8, ConfigAddresses::Tof1.fields()[3])
                == self.lna_fb.code(),
            field_of(self.high_byte() as u8, ConfigAddresses::Tof1.fields()[4])
                == self.time_of_flight.high_bits(),
            field_of(self.low_byte() as u8, ConfigAddresses::Tof0.fields()[0])
                == self.time_of_flight.low_bits(),
            self.time_of_flight.high_bits() * 256 + self.time_of_flight.low_bits()
                == self.time_of_flight.value(),
    {
        self.time_of_flight.lemma_value_in_range();
        let f0: u8 = self.pga_gain.code();
        let f1: u8 = self.pga_ctrl.code();
        let f2: u8 = self.lna_ctrl.code();
        let f3: u8 = self.lna_fb.code();
        let f4: u8 = self.time_of_flight.high_bits() as u8;
        let b: u8 = self.high_byte() as u8;
        let low: u8 = self.low_byte() as u8;
        assert((b & field_mask(5, 3)) >> 5u8 == f0
            && (b & field_mask(4, 1)) >> 4u8 == f1
            && (b & field_mask(3, 1)) >> 3u8 == f2
            && (b & field_mask(2, 1)) >> 2u8 == f3
            && (b & field_mask(0, 2)) >> 0u8 == f4
            && (low & field_mask(0, 8)) >> 0u8 == low) by (bit_vector)
            requires
                f0 < 8,
                f1 < 2,
                f2 < 2,
                f3 < 2,
                f4 < 4,
                b == f0 * 32 + f1 * 16 + f2 * 8 + f3 * 4 + f4,
        ;
    }
}

} // verus!
