use tdc1000::{
    trim_value_u16, trim_value_u8, ConfigAddresses, EchoQualificationThreshold, ErrNoSignalRead,
    ErrSignalHighRead, ErrSignalWeakRead, ErrorFlagsRead, ErrorFlagsWrite, ShortTofBlankPeriod,
    TimeOfFlightValue, TofTimeoutControl, TxFrequencyDivider, TxPulseShiftPosition, TxPulses,
};

#[test]
fn tx_pulses_saturate() {
    assert_eq!(TxPulses::new(0).get_value(), 0);
    assert_eq!(TxPulses::new(17).get_value(), 17);
    assert_eq!(TxPulses::new(31).get_value(), 31);
    assert_eq!(TxPulses::new(32).get_value(), 31);
    assert_eq!(TxPulses::new(255).get_value(), 31);
    assert_eq!(TxPulses::default().get_value(), 5);
}

#[test]
fn tx_pulse_shift_position_saturates() {
    assert_eq!(TxPulseShiftPosition::new(0).get_value(), 0);
    assert_eq!(TxPulseShiftPosition::new(30).get_value(), 30);
    assert_eq!(TxPulseShiftPosition::new(200).get_value(), 31);
    assert_eq!(TxPulseShiftPosition::default().get_value(), 31);
}

#[test]
fn every_pulse_count_is_kept_or_capped() {
    for raw in 0..=255u8 {
        let expected = if raw > 31 { 31 } else { raw };
        assert_eq!(TxPulses::new(raw).get_value(), expected);
        assert_eq!(TxPulseShiftPosition::new(raw).get_value(), expected);
    }
}

#[test]
fn time_of_flight_splits_into_high_and_low_bits() {
    let full = TimeOfFlightValue::new(1023);
    assert_eq!(full.get_2_high_bits_of_tof(), 3);
    assert_eq!(full.get_8_low_bits_of_tof(), 255);
    let zero = TimeOfFlightValue::new(0);
    assert_eq!(zero.get_2_high_bits_of_tof(), 0);
    assert_eq!(zero.get_8_low_bits_of_tof(), 0);
    let middle = TimeOfFlightValue::new(0x1c3);
    assert_eq!(middle.get_2_high_bits_of_tof(), 1);
    assert_eq!(middle.get_8_low_bits_of_tof(), 0xc3);
}

#[test]
fn time_of_flight_saturates() {
    let over = TimeOfFlightValue::new(1024);
    assert_eq!(over.get_2_high_bits_of_tof(), 3);
    assert_eq!(over.get_8_low_bits_of_tof(), 255);
    let far_over = TimeOfFlightValue::new(u16::MAX);
    assert_eq!(far_over.get_2_high_bits_of_tof(), 3);
    assert_eq!(far_over.get_8_low_bits_of_tof(), 255);
    let dflt = TimeOfFlightValue::default();
    assert_eq!(dflt.get_2_high_bits_of_tof(), 0);
    assert_eq!(dflt.get_8_low_bits_of_tof(), 0);
}

#[test]
fn time_of_flight_parts_rebuild_the_value() {
    for raw in 0..=1023u16 {
        let value = TimeOfFlightValue::new(raw);
        let high = value.get_2_high_bits_of_tof() as u16;
        let low = value.get_8_low_bits_of_tof() as u16;
        assert_eq!(high * 256 + low, raw);
    }
}

#[test]
fn trim_saturates_at_both_bounds() {
    assert_eq!(trim_value_u8(3, 10, 5), 5);
    assert_eq!(trim_value_u8(7, 10, 5), 7);
    assert_eq!(trim_value_u8(11, 10, 5), 10);
    assert_eq!(trim_value_u16(3, 1000, 500), 500);
    assert_eq!(trim_value_u16(700, 1000, 500), 700);
    assert_eq!(trim_value_u16(2000, 1000, 500), 1000);
}

#[test]
fn trim_with_crossed_bounds_gives_the_lower_bound() {
    assert_eq!(trim_value_u8(7, 5, 10), 10);
    assert_eq!(trim_value_u16(7, 5, 10), 10);
}

#[test]
fn option_codes_follow_the_register_map() {
    assert_eq!(TxFrequencyDivider::DivideBy2.code(), 0);
    assert_eq!(TxFrequencyDivider::DivideBy8.code(), 2);
    assert_eq!(TxFrequencyDivider::DivideBy256.code(), 7);
    assert_eq!(EchoQualificationThreshold::Mv35.code(), 0);
    assert_eq!(EchoQualificationThreshold::Mv75.code(), 2);
    assert_eq!(EchoQualificationThreshold::Mv1500.code(), 7);
    assert_eq!(ShortTofBlankPeriod::T0Times32.code(), 2);
    assert_eq!(TofTimeoutControl::T0Times1024.code(), 3);
    assert_eq!(ErrorFlagsWrite::DoNothing.code(), 0);
    assert_eq!(ErrorFlagsWrite::ResetAllErrorFlagsAndErrorPin.code(), 1);
    assert_eq!(ErrorFlagsWrite::ResetStateMachineAndMeasurement.code(), 2);
    assert_eq!(ErrorFlagsWrite::ResetErrorStatemachineAndMeasurement.code(), 3);
}

#[test]
fn register_addresses_follow_the_register_map() {
    let all = [
        ConfigAddresses::Config0,
        ConfigAddresses::Config1,
        ConfigAddresses::Config2,
        ConfigAddresses::Config3,
        ConfigAddresses::Config4,
        ConfigAddresses::Tof1,
        ConfigAddresses::Tof0,
        ConfigAddresses::ErrFlag,
        ConfigAddresses::TimeOut,
        ConfigAddresses::ClockRate,
    ];
    for (expected, register) in all.iter().enumerate() {
        assert_eq!(register.address() as usize, expected);
    }
}

fn flags(status: u8) -> (bool, bool, bool) {
    let decoded = ErrorFlagsRead::decode(status);
    (
        *decoded.signal_week() == ErrSignalWeakRead::SignalWeekTimeout,
        *decoded.no_signal() == ErrNoSignalRead::NoSignalTimeout,
        *decoded.signal_high() == ErrSignalHighRead::SignalHigh,
    )
}

#[test]
fn status_byte_decodes_flag_by_flag() {
    assert_eq!(flags(0b000), (false, false, false));
    assert_eq!(flags(0b001), (false, false, true));
    assert_eq!(flags(0b010), (false, true, false));
    assert_eq!(flags(0b100), (true, false, false));
    assert_eq!(flags(0b111), (true, true, true));
}

#[test]
fn status_decode_ignores_reserved_bits() {
    assert_eq!(flags(0b1111_1000), (false, false, false));
    assert_eq!(flags(0b1111_1010), (false, true, false));
    for status in 0..=255u8 {
        assert_eq!(flags(status), flags(status & 0b111));
    }
}

#[test]
fn default_flags_show_no_error() {
    let none = ErrorFlagsRead::default();
    assert_eq!(*none.signal_week(), ErrSignalWeakRead::NoError);
    assert_eq!(*none.no_signal(), ErrNoSignalRead::NoError);
    assert_eq!(*none.signal_high(), ErrSignalHighRead::NoError);
}
