use tdc1000::{
    ChannelSwap, EchoQualificationThreshold, MeasurementCycles, ReceiveEventsCnt,
    ShortTofBlankPeriod, TOFMeasurementMode, Tdc1000, TimeOfFlightValue, TxFrequencyDivider,
    TxPulseShiftPosition, TxPulses, VoltageReference,
};

#[test]
fn config_0_value_for_spi_is_calculated_correctly() {
    let mut tdc1000 = Tdc1000::default();
    tdc1000.set_tx_frequency_divider(TxFrequencyDivider::DivideBy8);
    tdc1000.set_number_of_tx_pulses(TxPulses::new(1));
    let config0val = tdc1000.get_config_0_value();
    assert_eq!(config0val, 65);
}

#[test]
fn config_1_value_for_spi_is_calculated_correctly() {
    let mut tdc1000 = Tdc1000::default();
    tdc1000.set_measurement_cycles(MeasurementCycles::MeasurementCycles1);
    tdc1000.set_receive_events(ReceiveEventsCnt::StopEvents4);
    let config1val = tdc1000.get_config_1_value();
    assert_eq!(config1val, 4);
}

#[test]
fn config_2_value_for_spi_is_calculated_correctly() {
    let mut tdc1000 = Tdc1000::default();
    let config2val = tdc1000.get_config_2_value();
    assert_eq!(config2val, 0);

    tdc1000.set_common_voltage_reference_mode(VoltageReference::External);
    tdc1000.set_channel_swap(ChannelSwap::EnableSwap);
    tdc1000.set_tof_meas_mode(TOFMeasurementMode::Mode2);
    let config2val = tdc1000.get_config_2_value();
    assert_eq!(config2val, 146);
}

#[test]
fn config_3_value_for_spi_is_calculated_correctly() {
    let mut tdc1000 = Tdc1000::default();
    tdc1000.set_echo_qualification_threshold(EchoQualificationThreshold::Mv75);
    let config3val = tdc1000.get_config_3_value();
    assert_eq!(config3val, 2);
}

#[test]
fn config_4_value_for_spi_is_calculated_correctly() {
    let mut tdc1000 = Tdc1000::default();
    tdc1000.set_tx_pulse_shift_position(TxPulseShiftPosition::new(5));
    let config4val = tdc1000.get_config_4_value();
    assert_eq!(config4val, 5);
}

#[test]
fn tof_1_value_for_spi_is_calculated_correctly() {
    let mut tdc1000 = Tdc1000::default();
    tdc1000.set_time_of_flight(TimeOfFlightValue::new(TimeOfFlightValue::HIGH));
    let tof1val = tdc1000.get_tof_1_value();
    assert_eq!(tof1val, 3);
}

#[test]
fn tof_2_value_for_spi_is_calculated_correctly() {
    let mut tdc1000 = Tdc1000::default();
    tdc1000.set_time_of_flight(TimeOfFlightValue::new(TimeOfFlightValue::HIGH));
    let tof2val = tdc1000.get_tof_0_value();
    assert_eq!(tof2val, 255);
}

#[test]
fn timeout_value_for_spi_is_calculated_correctly() {
    let mut tdc1000 = Tdc1000::default();
    tdc1000.set_short_tof_blank_period(ShortTofBlankPeriod::T0Times32);
    let timeout_value = tdc1000.get_timeout_value();
    assert_eq!(timeout_value, 17);
}

#[test]
fn clock_rate_value_for_spi_is_calculated_correctly() {
    let tdc1000 = Tdc1000::default();
    let clock_rate_value = tdc1000.get_clock_rate_value();
    assert_eq!(clock_rate_value, 0);
}

fn image(device: &Tdc1000) -> [u8; 9] {
    [
        device.get_config_0_value(),
        device.get_config_1_value(),
        device.get_config_2_value(),
        device.get_config_3_value(),
        device.get_config_4_value(),
        device.get_tof_1_value(),
        device.get_tof_0_value(),
        device.get_timeout_value(),
        device.get_clock_rate_value(),
    ]
}

#[test]
fn new_device_holds_power_on_bytes() {
    let device = Tdc1000::default();
    assert_eq!(image(&device), [69, 0, 0, 3, 31, 0, 0, 25, 0]);
}

#[test]
fn packing_twice_gives_the_same_bytes() {
    let mut device = Tdc1000::default();
    device.set_pga_gain(tdc1000::PgaGain::DB21);
    device.set_tof_value(TimeOfFlightValue::new(700));
    let first = image(&device);
    let second = image(&device);
    assert_eq!(first, second);
    assert_eq!(first[5], 0b1110_0010);
    assert_eq!(first[6], 188);
}

#[test]
fn setter_changes_its_own_register_only() {
    let mut device = Tdc1000::default();
    let before = image(&device);
    device.set_clock_in_div(tdc1000::ClockInDiv::DivideBy2);
    device.set_auto_zero_period(tdc1000::AutoZeroPeriod::T0Times512);
    let after = image(&device);
    assert_eq!(after[8], 7);
    assert_eq!(&after[..8], &before[..8]);
}

#[test]
fn every_field_lands_at_its_offset() {
    let mut device = Tdc1000::default();
    device.set_tx_frequency_divider(TxFrequencyDivider::DivideBy256);
    device.set_number_of_tx_pulses(TxPulses::new(0));
    assert_eq!(device.get_config_0_value(), 0b1110_0000);

    device.set_measurement_cycles(MeasurementCycles::MeasurementCycles128);
    device.set_receive_events(ReceiveEventsCnt::StopEvents7);
    assert_eq!(device.get_config_1_value(), 0b0011_1111);

    device.set_common_voltage_reference_mode(VoltageReference::External);
    device.set_measure_mode(tdc1000::MeasurementMode::Temperature);
    device.set_damping(tdc1000::DampingMode::EnableDamping);
    device.set_channel_swap(ChannelSwap::EnableSwap);
    device.set_external_channel_select(
        tdc1000::ExternalChannelSelect::EnableExternalChannelSelect,
    );
    device.set_active_channel(tdc1000::ChannelSelect::Channel2);
    device.set_tof_meas_mode(TOFMeasurementMode::Mode1);
    assert_eq!(device.get_config_2_value(), 0b1111_1101);

    device.set_temp_measurement_mode(tdc1000::TempMode::MeasureRefRtd1);
    device.set_temp_rtd_type(tdc1000::TempRtdSelect::PT500);
    device.set_temp_clock_divider(tdc1000::TempClockDivider::UseTxFreqDivider);
    device.set_blanking(tdc1000::PowerBlanking::EnablePowerBlanking);
    device.set_echo_qualification_threshold(EchoQualificationThreshold::Mv1500);
    assert_eq!(device.get_config_3_value(), 0b0111_1111);

    device.set_receive_mode(tdc1000::ReceiveMode::MultiEcho);
    device.set_trigger(tdc1000::TriggerEdgePolarity::FallingEdge);
    device.set_tx_pulse_shift_position(TxPulseShiftPosition::new(3));
    assert_eq!(device.get_config_4_value(), 0b0110_0011);

    device.set_pga_gain(tdc1000::PgaGain::DB9);
    device.set_pga_control(tdc1000::AmplifierControl::BypassedAndPoweredOff);
    device.set_lna_control(tdc1000::AmplifierControl::BypassedAndPoweredOff);
    device.set_lna_feedback_mode(tdc1000::LnaFeedbackMode::ResistiveMode);
    device.set_time_of_flight(TimeOfFlightValue::new(0x2a5));
    assert_eq!(device.get_tof_1_value(), 0b0111_1110);
    assert_eq!(device.get_tof_0_value(), 0xa5);

    device.set_force_short_tof(tdc1000::ForceShortTimeOfFlight::ForceShortTimeOfFlight);
    device.set_short_tof_blank_period(ShortTofBlankPeriod::T0Times1024);
    device.set_echo_timeout(tdc1000::EchoTimeout::DisableTimeout);
    device.set_tof_timeout_ctrl(tdc1000::TofTimeoutControl::T0Times1024);
    assert_eq!(device.get_timeout_value(), 0b0111_1111);

    device.set_clock_in_div(tdc1000::ClockInDiv::DivideBy2);
    device.set_auto_zero_period(tdc1000::AutoZeroPeriod::T0Times256);
    assert_eq!(device.get_clock_rate_value(), 0b0000_0110);
}

#[test]
fn fields_of_a_register_do_not_disturb_each_other() {
    let dividers = [
        TxFrequencyDivider::DivideBy2,
        TxFrequencyDivider::DivideBy4,
        TxFrequencyDivider::DivideBy8,
        TxFrequencyDivider::DivideBy16,
        TxFrequencyDivider::DivideBy32,
        TxFrequencyDivider::DivideBy64,
        TxFrequencyDivider::DivideBy128,
        TxFrequencyDivider::DivideBy256,
    ];
    let mut device = Tdc1000::default();
    for divider in dividers {
        for pulses in 0..=31u8 {
            device.set_tx_frequency_divider(divider);
            device.set_number_of_tx_pulses(TxPulses::new(pulses));
            let byte = device.get_config_0_value();
            assert_eq!(byte >> 5, divider.code());
            assert_eq!(byte & 0x1f, pulses);
        }
    }
}
