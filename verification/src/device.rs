//! The device: a mirror of the chip's configuration registers, one setter
//! per field and one byte accessor per register.

use vstd::prelude::*;
use crate::fields::{
    AmplifierControl, AutoZeroPeriod, ChannelSelect, ChannelSwap, ClockInDiv, DampingMode,
    EchoQualificationThreshold, EchoTimeout, ExternalChannelSelect, ForceShortTimeOfFlight,
    LnaFeedbackMode, MeasurementCycles, MeasurementMode, PgaGain, PowerBlanking,
    ReceiveEventsCnt, ReceiveMode, ShortTofBlankPeriod, TOFMeasurementMode, TempClockDivider,
    TempMode, TempRtdSelect, TimeOfFlightValue, TofTimeoutControl, TriggerEdgePolarity,
    TxFrequencyDivider, TxPulseShiftPosition, TxPulses, VoltageReference,
};
use crate::registers::{
    AmplifierAndTimeOfFlight, ClockRate, Config0, Config1, Config2, Config3, Config4, TimeOut,
    BLANKING_BIT_OFFSET, CHANNEL_SELECT_BIT_OFFSET, CHANNEL_SWAP_BIT_OFFSET,
    CLOCK_IN_DIV_BIT_OFFSET, DAMPING_MODE_BIT_OFFSET, ECHO_TIMEOUT_BIT_OFFSET,
    EXTERNAL_CHANNEL_SELECT_BIT_OFFSET, FORCE_SHORT_TOF_BIT_OFFSET,
    FREQUENCY_DIVIDER_BIT_OFFSET, LNA_CTRL_BIT_OFFSET, LNA_FB_BIT_OFFSET,
    MEASUREMENT_CYCLES_BIT_OFFSET, MEASUREMENT_MODE_BIT_OFFSET, PGA_CTRL_BIT_OFFSET,
    PGA_GAIN_BIT_OFFSET, RECEIVE_MODE_BIT_OFFSET, SHORT_TOF_BLANK_PERIOD_BIT_OFFSET,
    TEMP_CLK_DIV_BIT_OFFSET, TEMP_MODE_BIT_OFFSET, TEMP_RTD_SELECT_BIT_OFFSET,
    TRIGGER_EDGE_POLARITY_BIT_OFFSET, VOLTAGE_REFERENCE_BIT_OFFSET,
};

verus! {

/// In-memory mirror of the chip's configuration. A new device holds the
/// power-on values; the setters change one field each, and every byte
/// accessor computes its byte from the fields as they are when it is called.
pub struct Tdc1000 {
    pub config0: Config0,
    pub config1: Config1,
    pub config2: Config2,
    pub config3: Config3,
    pub config4: Config4,
    pub amplifier_and_time_of_flight: AmplifierAndTimeOfFlight,
    pub timeout: TimeOut,
    pub clock_rate: ClockRate,
}

impl Default for Tdc1000 {
    fn default() -> (r: Self)
        ensures
            r.is_power_on(),
    {
        Tdc1000 {
            config0: Config0::default(),
            config1: Config1::default(),
            config2: Config2::default(),
            config3: Config3::default(),
            config4: Config4::default(),
            amplifier_and_time_of_flight: AmplifierAndTimeOfFlight::default(),
            timeout: TimeOut::default(),
            clock_rate: ClockRate::default(),
        }
    }
}

impl Tdc1000 {
    /// Whether every field holds its value after power-on reset.
    pub open spec fn is_power_on(self) -> bool {
        &&& self.config0.is_power_on()
        &&& self.config1.is_power_on()
        &&& self.config2.is_power_on()
        &&& self.config3.is_power_on()
        &&& self.config4.is_power_on()
        &&& self.amplifier_and_time_of_flight.is_power_on()
        &&& self.timeout.is_power_on()
        &&& self.clock_rate.is_power_on()
    }

    /// The nine register bytes of the configuration, in the order in which
    /// they are written to the chip.
    pub open spec fn image(self) -> Seq<int> {
        seq![
            self.config0.byte(),
            self.config1.byte(),
            self.config2.byte(),
            self.config3.byte(),
            self.config4.byte(),
            self.amplifier_and_time_of_flight.high_byte(),
            self.amplifier_and_time_of_flight.low_byte(),
            self.timeout.byte(),
            self.clock_rate.byte(),
        ]
    }

    /// A device at its power-on values packs into the chip's documented
    /// reset bytes.
    pub proof fn lemma_power_on_image(self)
        requires
            self.is_power_on(),
        ensures
            self.image() == seq![69int, 0, 0, 3, 31, 0, 0, 25, 0],
    {
    }

    /// A register's byte depends on the fields of its own group and on
    /// nothing else: two devices that agree on a group agree on its byte.
    pub proof fn lemma_byte_is_function_of_fields(self, other: Tdc1000)
        ensures
            self.config0 == other.config0 ==> self.image()[0] == other.image()[0],
            self.config1 == other.config1 ==> self.image()[1] == other.image()[1],
            self.config2 == other.config2 ==> self.image()[2] == other.image()[2],
            self.config3 == other.config3 ==> self.image()[3] == other.image()[3],
            self.config4 == other.config4 ==> self.image()[4] == other.image()[4],
            self.amplifier_and_time_of_flight == other.amplifier_and_time_of_flight ==> {
                &&& self.image()[5] == other.image()[5]
                &&& self.image()[6] == other.image()[6]
            },
            self.timeout == other.timeout ==> self.image()[7] == other.image()[7],
            self.clock_rate == other.clock_rate ==> self.image()[8] == other.image()[8],
            self == other ==> self.image() == other.image(),
    {
    }

    pub fn set_tx_frequency_divider(&mut self, divider: TxFrequencyDivider)
        ensures
            *final(self) == (Tdc1000 {
                config0: Config0 { tx_frequency_divider: divider, ..old(self).config0 },
                ..*old(self)
            }),
    {
        self.config0.tx_frequency_divider = divider;
    }

    pub fn set_number_of_tx_pulses(&mut self, pulses: TxPulses)
        ensures
            *final(self) == (Tdc1000 {
                config0: Config0 { tx_pulses: pulses, ..old(self).config0 },
                ..*old(self)
            }),
    {
        self.config0.tx_pulses = pulses;
    }

    pub fn set_measurement_cycles(&mut self, cycles: MeasurementCycles)
        ensures
            *final(self) == (Tdc1000 {
                config1: Config1 { measurement_cycles: cycles, ..old(self).config1 },
                ..*old(self)
            }),
    {
        self.config1.measurement_cycles = cycles;
    }

    pub fn set_receive_events(&mut self, events_cnt: ReceiveEventsCnt)
        ensures
            *final(self) == (Tdc1000 {
                config1: Config1 { receive_events_cnt: events_cnt, ..old(self).config1 },
                ..*old(self)
            }),
    {
        self.config1.receive_events_cnt = events_cnt;
    }

    pub fn set_common_voltage_reference_mode(&mut self, voltage_reference: VoltageReference)
        ensures
            *final(self) == (Tdc1000 {
                config2: Config2 { voltage_reference: voltage_reference, ..old(self).config2 },
                ..*old(self)
            }),
    {
        self.config2.voltage_reference = voltage_reference;
    }

    pub fn set_measure_mode(&mut self, measure_mode: MeasurementMode)
        ensures
            *final(self) == (Tdc1000 {
                config2: Config2 { measurement_mode: measure_mode, ..old(self).config2 },
                ..*old(self)
            }),
    {
        self.config2.measurement_mode = measure_mode;
    }

    pub fn set_damping(&mut self, damping_mode: DampingMode)
        ensures
            *final(self) == (Tdc1000 {
                config2: Config2 { damping_mode: damping_mode, ..old(self).config2 },
                ..*old(self)
            }),
    {
        self.config2.damping_mode = damping_mode;
    }

    pub fn set_channel_swap(&mut self, channel_swap: ChannelSwap)
        ensures
            *final(self) == (Tdc1000 {
                config2: Config2 { channel_swap: channel_swap, ..old(self).config2 },
                ..*old(self)
            }),
    {
        self.config2.channel_swap = channel_swap;
    }

    pub fn set_external_channel_select(&mut self, external_channel_select: ExternalChannelSelect)
        ensures
            *final(self) == (Tdc1000 {
                config2: Config2 { ext_channel_select: external_channel_select, ..old(self).config2 },
                ..*old(self)
            }),
    {
        self.config2.ext_channel_select = external_channel_select;
    }

    pub fn set_active_channel(&mut self, channel: ChannelSelect)
        ensures
            *final(self) == (Tdc1000 {
                config2: Config2 { channel_select: channel, ..old(self).config2 },
                ..*old(self)
            }),
    {
        self.config2.channel_select = channel;
    }

    pub fn set_tof_meas_mode(&mut self, tof_measurement_mode: TOFMeasurementMode)
        ensures
            *final(self) == (Tdc1000 {
                config2: Config2 { tof_meas_mode: tof_measurement_mode, ..old(self).config2 },
                ..*old(self)
            }),
    {
        self.config2.tof_meas_mode = tof_measurement_mode;
    }

    pub fn set_temp_measurement_mode(&mut self, temp_measurement_mode: TempMode)
        ensures
            *final(self) == (Tdc1000 {
                config3: Config3 { temp_mode: temp_measurement_mode, ..old(self).config3 },
                ..*old(self)
            }),
    {
        self.config3.temp_mode = temp_measurement_mode;
    }

    pub fn set_temp_rtd_type(&mut self, temp_rtd: TempRtdSelect)
        ensures
            *final(self) == (Tdc1000 {
                config3: Config3 { temp_rtd: temp_rtd, ..old(self).config3 },
                ..*old(self)
            }),
    {
        self.config3.temp_rtd = temp_rtd;
    }

    pub fn set_temp_clock_divider(&mut self, temp_clock_div: TempClockDivider)
        ensures
            *final(self) == (Tdc1000 {
                config3: Config3 { temp_clk_div: temp_clock_div, ..old(self).config3 },
                ..*old(self)
            }),
    {
        self.config3.temp_clk_div = temp_clock_div;
    }

    pub fn set_blanking(&mut self, blanking: PowerBlanking)
        ensures
            *final(self) == (Tdc1000 {
                config3: Config3 { blanking: blanking, ..old(self).config3 },
                ..*old(self)
            }),
    {
        self.config3.blanking = blanking;
    }

    pub fn set_echo_qualification_threshold(&mut self, threshold: EchoQualificationThreshold)
        ensures
            *final(self) == (Tdc1000 {
                config3: Config3 { echo_qualification_threshold: threshold, ..old(self).config3 },
                ..*old(self)
            }),
    {
        self.config3.echo_qualification_threshold = threshold;
    }

    pub fn set_receive_mode(&mut self, receive_mode: ReceiveMode)
        ensures
            *final(self) == (Tdc1000 {
                config4: Config4 { receive_mode: receive_mode, ..old(self).config4 },
                ..*old(self)
            }),
    {
        self.config4.receive_mode = receive_mode;
    }

    pub fn set_trigger(&mut self, trigger: TriggerEdgePolarity)
        ensures
            *final(self) == (Tdc1000 {
                config4: Config4 { trigger_edge_polarity: trigger, ..old(self).config4 },
                ..*old(self)
            }),
    {
        self.config4.trigger_edge_polarity = trigger;
    }

    pub fn set_tx_pulse_shift_position(&mut self, position: TxPulseShiftPosition)
        ensures
            *final(self) == (Tdc1000 {
                config4: Config4 { tx_pulse_shift_position: position, ..old(self).config4 },
                ..*old(self)
            }),
    {
        self.config4.tx_pulse_shift_position = position;
    }

    pub fn set_time_of_flight(&mut self, tof: TimeOfFlightValue)
        ensures
            *final(self) == (Tdc1000 {
                amplifier_and_time_of_flight: AmplifierAndTimeOfFlight { time_of_flight: tof, ..old(self).amplifier_and_time_of_flight },
                ..*old(self)
            }),
    {
        self.amplifier_and_time_of_flight.time_of_flight = tof;
    }

    pub fn set_pga_gain(&mut self, gain: PgaGain)
        ensures
            *final(self) == (Tdc1000 {
                amplifier_and_time_of_flight: AmplifierAndTimeOfFlight { pga_gain: gain, ..old(self).amplifier_and_time_of_flight },
                ..*old(self)
            }),
    {
        self.amplifier_and_time_of_flight.pga_gain = gain;
    }

    pub fn set_pga_control(&mut self, control: AmplifierControl)
        ensures
            *final(self) == (Tdc1000 {
                amplifier_and_time_of_flight: AmplifierAndTimeOfFlight { pga_ctrl: control, ..old(self).amplifier_and_time_of_flight },
                ..*old(self)
            }),
    {
        self.amplifier_and_time_of_flight.pga_ctrl = control;
    }

    pub fn set_lna_control(&mut self, control: AmplifierControl)
        ensures
            *final(self) == (Tdc1000 {
                amplifier_and_time_of_flight: AmplifierAndTimeOfFlight { lna_ctrl: control, ..old(self).amplifier_and_time_of_flight },
                ..*old(self)
            }),
    {
        self.amplifier_and_time_of_flight.lna_ctrl = control;
    }

    pub fn set_lna_feedback_mode(&mut self, feedback_mode: LnaFeedbackMode)
        ensures
            *final(self) == (Tdc1000 {
                amplifier_and_time_of_flight: AmplifierAndTimeOfFlight { lna_fb: feedback_mode, ..old(self).amplifier_and_time_of_flight },
                ..*old(self)
            }),
    {
        self.amplifier_and_time_of_flight.lna_fb = feedback_mode;
    }

    pub fn set_tof_value(&mut self, tof_value: TimeOfFlightValue)
        ensures
            *final(self) == (Tdc1000 {
                amplifier_and_time_of_flight: AmplifierAndTimeOfFlight { time_of_flight: tof_value, ..old(self).amplifier_and_time_of_flight },
                ..*old(self)
            }),
    {
        self.amplifier_and_time_of_flight.time_of_flight = tof_value;
    }

    pub fn set_force_short_tof(&mut self, force_short_tof: ForceShortTimeOfFlight)
        ensures
            *final(self) == (Tdc1000 {
                timeout: TimeOut { force_short_tof: force_short_tof, ..old(self).timeout },
                ..*old(self)
            }),
    {
        self.timeout.force_short_tof = force_short_tof;
    }

    pub fn set_short_tof_blank_period(&mut self, blank_period: ShortTofBlankPeriod)
        ensures
            *final(self) == (Tdc1000 {
                timeout: TimeOut { short_tof_blank_period: blank_period, ..old(self).timeout },
                ..*old(self)
            }),
    {
        self.timeout.short_tof_blank_period = blank_period;
    }

    pub fn set_echo_timeout(&mut self, timeout: EchoTimeout)
        ensures
            *final(self) == (Tdc1000 {
                timeout: TimeOut { echo_timeout: timeout, ..old(self).timeout },
                ..*old(self)
            }),
    {
        self.timeout.echo_timeout = timeout;
    }

    pub fn set_tof_timeout_ctrl(&mut self, timeout_ctrl: TofTimeoutControl)
        ensures
            *final(self) == (Tdc1000 {
                timeout: TimeOut { tof_timeout_crl: timeout_ctrl, ..old(self).timeout },
                ..*old(self)
            }),
    {
        self.timeout.tof_timeout_crl = timeout_ctrl;
    }

    pub fn set_clock_in_div(&mut self, clock_in_div: ClockInDiv)
        ensures
            *final(self) == (Tdc1000 {
                clock_rate: ClockRate { clock_in_div: clock_in_div, ..old(self).clock_rate },
                ..*old(self)
            }),
    {
        self.clock_rate.clock_in_div = clock_in_div;
    }

    pub fn set_auto_zero_period(&mut self, auto_zero_period: AutoZeroPeriod)
        ensures
            *final(self) == (Tdc1000 {
                clock_rate: ClockRate { auto_zero_period: auto_zero_period, ..old(self).clock_rate },
                ..*old(self)
            }),
    {
        self.clock_rate.auto_zero_period = auto_zero_period;
    }

    /// The byte of the first configuration register.
    pub fn get_config_0_value(&self) -> (b: u8)
        ensures
            b == self.config0.byte(),
    {
        let tx_frequency_divider: u8 = self.config0.tx_frequency_divider.code();
        let tx_pulses: u8 = self.config0.tx_pulses.get_value();
        let b: u8 = tx_frequency_divider << FREQUENCY_DIVIDER_BIT_OFFSET
            | tx_pulses;
        assert(b == tx_frequency_divider * 32 + tx_pulses) by (bit_vector)
            requires
                b == tx_frequency_divider << FREQUENCY_DIVIDER_BIT_OFFSET | tx_pulses,
                tx_frequency_divider <= 7,
                tx_pulses <= 31,
        ;
        b
    }

    /// The byte of the second configuration register.
    pub fn get_config_1_value(&self) -> (b: u8)
        ensures
            b == self.config1.byte(),
    {
        let measurement_cycles: u8 = self.config1.measurement_cycles.code();
        let stop_pulse_count: u8 = self.config1.receive_events_cnt.code();
        let b: u8 = measurement_cycles << MEASUREMENT_CYCLES_BIT_OFFSET
            | stop_pulse_count;
        assert(b == measurement_cycles * 8 + stop_pulse_count) by (bit_vector)
            requires
                b == measurement_cycles << MEASUREMENT_CYCLES_BIT_OFFSET | stop_pulse_count,
                measurement_cycles <= 7,
                stop_pulse_count <= 7,
        ;
        b
    }

    /// The byte of the third configuration register.
    pub fn get_config_2_value(&self) -> (b: u8)
        ensures
            b == self.config2.byte(),
    {
        let voltage_reference: u8 = self.config2.voltage_reference.code();
        let measurement_mode: u8 = self.config2.measurement_mode.code();
        let damping: u8 = self.config2.damping_mode.code();
        let channel_swap: u8 = self.config2.channel_swap.code();
        let ext_channel_select: u8 = self.config2.ext_channel_select.code();
        let channel_select: u8 = self.config2.channel_select.code();
        let tof_measurement_mode: u8 = self.config2.tof_meas_mode.code();
        let b: u8 = voltage_reference << VOLTAGE_REFERENCE_BIT_OFFSET
            | measurement_mode << MEASUREMENT_MODE_BIT_OFFSET
            | damping << DAMPING_MODE_BIT_OFFSET
            | channel_swap << CHANNEL_SWAP_BIT_OFFSET
            | ext_channel_select << EXTERNAL_CHANNEL_SELECT_BIT_OFFSET
            | channel_select << CHANNEL_SELECT_BIT_OFFSET
            | tof_measurement_mode;
        assert(b == voltage_reference * 128 + measurement_mode * 64 + damping * 32 + channel_swap * 16 + ext_channel_select * 8 + channel_select * 4 + tof_measurement_mode) by (bit_vector)
            requires
                b == voltage_reference << VOLTAGE_REFERENCE_BIT_OFFSET | measurement_mode << MEASUREMENT_MODE_BIT_OFFSET | damping << DAMPING_MODE_BIT_OFFSET | channel_swap << CHANNEL_SWAP_BIT_OFFSET | ext_channel_select << EXTERNAL_CHANNEL_SELECT_BIT_OFFSET | channel_select << CHANNEL_SELECT_BIT_OFFSET | tof_measurement_mode,
                voltage_reference <= 1,
                measurement_mode <= 1,
                damping <= 1,
                channel_swap <= 1,
                ext_channel_select <= 1,
                channel_select <= 1,
                tof_measurement_mode <= 2,
        ;
        b
    }

    /// The byte of the fourth configuration register.
    pub fn get_config_3_value(&self) -> (b: u8)
        ensures
            b == self.config3.byte(),
    {
        let temp_mode: u8 = self.config3.temp_mode.code();
        let temp_rtd_sel: u8 = self.config3.temp_rtd.code();
        let temp_clk_div: u8 = self.config3.temp_clk_div.code();
        let blanking: u8 = self.config3.blanking.code();
        let echo_th: u8 = self.config3.echo_qualification_threshold.code();
        let b: u8 = temp_mode << TEMP_MODE_BIT_OFFSET
            | temp_rtd_sel << TEMP_RTD_SELECT_BIT_OFFSET
            | temp_clk_div << TEMP_CLK_DIV_BIT_OFFSET
            | blanking << BLANKING_BIT_OFFSET
            | echo_th;
        assert(b == temp_mode * 64 + temp_rtd_sel * 32 + temp_clk_div * 16 + blanking * 8 + echo_th) by (bit_vector)
            requires
                b == temp_mode << TEMP_MODE_BIT_OFFSET | temp_rtd_sel << TEMP_RTD_SELECT_BIT_OFFSET | temp_clk_div << TEMP_CLK_DIV_BIT_OFFSET | blanking << BLANKING_BIT_OFFSET | echo_th,
                temp_mode <= 1,
                temp_rtd_sel <= 1,
                temp_clk_div <= 1,
                blanking <= 1,
                echo_th <= 7,
        ;
        b
    }

    /// The byte of the fifth configuration register.
    pub fn get_config_4_value(&self) -> (b: u8)
        ensures
            b == self.config4.byte(),
    {
        let receive_mode: u8 = self.config4.receive_mode.code();
        let trigger_edge_polarity: u8 = self.config4.trigger_edge_polarity.code();
        let pulse_shift_position: u8 = self.config4.tx_pulse_shift_position.get_value();
        let b: u8 = receive_mode << RECEIVE_MODE_BIT_OFFSET
            | trigger_edge_polarity << TRIGGER_EDGE_POLARITY_BIT_OFFSET
            | pulse_shift_position;
        assert(b == receive_mode * 64 + trigger_edge_polarity * 32 + pulse_shift_position) by (bit_vector)
            requires
                b == receive_mode << RECEIVE_MODE_BIT_OFFSET | trigger_edge_polarity << TRIGGER_EDGE_POLARITY_BIT_OFFSET | pulse_shift_position,
                receive_mode <= 1,
                trigger_edge_polarity <= 1,
                pulse_shift_position <= 31,
        ;
        b
    }

    /// The byte of the register that holds the amplifier fields and the high bits of the time-of-flight value.
    pub fn get_tof_1_value(&self) -> (b: u8)
        ensures
            b == self.amplifier_and_time_of_flight.high_byte(),
    {
        let pga_gain: u8 = self.amplifier_and_time_of_flight.pga_gain.code();
        let pga_ctrl: u8 = self.amplifier_and_time_of_flight.pga_ctrl.code();
        let lna_ctrl: u8 = self.amplifier_and_time_of_flight.lna_ctrl.code();
        let lna_fb: u8 = self.amplifier_and_time_of_flight.lna_fb.code();
        let timing_reg_high: u8 = self.amplifier_and_time_of_flight.time_of_flight.get_2_high_bits_of_tof();
        let b: u8 = pga_gain << PGA_GAIN_BIT_OFFSET
            | pga_ctrl << PGA_CTRL_BIT_OFFSET
            | lna_ctrl << LNA_CTRL_BIT_OFFSET
            | lna_fb << LNA_FB_BIT_OFFSET
            | timing_reg_high;
        assert(b == pga_gain * 32 + pga_ctrl * 16 + lna_ctrl * 8 + lna_fb * 4 + timing_reg_high) by (bit_vector)
            requires
                b == pga_gain << PGA_GAIN_BIT_OFFSET | pga_ctrl << PGA_CTRL_BIT_OFFSET | lna_ctrl << LNA_CTRL_BIT_OFFSET | lna_fb << LNA_FB_BIT_OFFSET | timing_reg_high,
                pga_gain <= 7,
                pga_ctrl <= 1,
                lna_ctrl <= 1,
                lna_fb <= 1,
                timing_reg_high <= 3,
        ;
        b
    }

    /// The byte of the register that holds the low bits of the
    /// time-of-flight value.
    pub fn get_tof_0_value(&self) -> (b: u8)
        ensures
            b == self.amplifier_and_time_of_flight.low_byte(),
    {
        self.amplifier_and_time_of_flight.time_of_flight.get_8_low_bits_of_tof()
    }

    /// The byte of the timeout register.
    pub fn get_timeout_value(&self) -> (b: u8)
        ensures
            b == self.timeout.byte(),
    {
        let force_short_tof: u8 = self.timeout.force_short_tof.code();
        let short_tof_blank_period: u8 = self.timeout.short_tof_blank_period.code();
        let echo_timeout: u8 = self.timeout.echo_timeout.code();
        let tof_timeout_ctrl: u8 = self.timeout.tof_timeout_crl.code();
        let b: u8 = force_short_tof << FORCE_SHORT_TOF_BIT_OFFSET
            | short_tof_blank_period << SHORT_TOF_BLANK_PERIOD_BIT_OFFSET
            | echo_timeout << ECHO_TIMEOUT_BIT_OFFSET
            | tof_timeout_ctrl;
        assert(b == force_short_tof * 64 + short_tof_blank_period * 8 + echo_timeout * 4 + tof_timeout_ctrl) by (bit_vector)
            requires
                b == force_short_tof << FORCE_SHORT_TOF_BIT_OFFSET | short_tof_blank_period << SHORT_TOF_BLANK_PERIOD_BIT_OFFSET | echo_timeout << ECHO_TIMEOUT_BIT_OFFSET | tof_timeout_ctrl,
                force_short_tof <= 1,
                short_tof_blank_period <= 7,
                echo_timeout <= 1,
                tof_timeout_ctrl <= 3,
        ;
        b
    }

    /// The byte of the clock-rate register.
    pub fn get_clock_rate_value(&self) -> (b: u8)
        ensures
            b == self.clock_rate.byte(),
    {
        let clock_in_div: u8 = self.clock_rate.clock_in_div.code();
        let auto_zero_period: u8 = self.clock_rate.auto_zero_period.code();
        let b: u8 = clock_in_div << CLOCK_IN_DIV_BIT_OFFSET
            | auto_zero_period;
        assert(b == clock_in_div * 4 + auto_zero_period) by (bit_vector)
            requires
                b == clock_in_div << CLOCK_IN_DIV_BIT_OFFSET | auto_zero_period,
                clock_in_div <= 1,
                auto_zero_period <= 3,
        ;
        b
    }
}

} // verus!
