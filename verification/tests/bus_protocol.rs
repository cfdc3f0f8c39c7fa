use tdc1000::{
    error_flags_received, store_raw_values, Access, BusCommand, BusOperation, BusReply,
    ConfigAddresses, ErrNoSignalRead, ErrSignalHighRead, ErrSignalWeakRead, Error, ErrorFlagsRead,
    ErrorFlagsWrite, Progress, Tdc1000, TxPulses,
};

/// A bus that records every command and fails the command with the chosen
/// index.
struct RecordingBus {
    log: Vec<BusCommand>,
    fail_at: Option<usize>,
    registers: [u8; 10],
}

impl RecordingBus {
    fn new(fail_at: Option<usize>) -> Self {
        RecordingBus { log: Vec::new(), fail_at, registers: [10, 11, 12, 13, 14, 15, 16, 5, 18, 19] }
    }

    fn perform(&mut self, command: BusCommand) -> BusReply<&'static str, &'static str> {
        let fails = self.fail_at == Some(self.log.len());
        self.log.push(command);
        match command {
            BusCommand::AssertSelect | BusCommand::DeassertSelect => {
                BusReply::SelectLine(if fails { Err("select") } else { Ok(()) })
            }
            BusCommand::Write { .. } => {
                BusReply::Written(if fails { Err("bus") } else { Ok(()) })
            }
            BusCommand::Transfer { first, .. } => BusReply::Transferred(if fails {
                Err("bus")
            } else {
                Ok((0, self.registers[first as usize]))
            }),
        }
    }
}

type Outcome = (Vec<u8>, Result<(), Error<&'static str, &'static str>>);

fn run(mut operation: BusOperation<&'static str>, bus: &mut RecordingBus) -> Outcome {
    loop {
        let reply = bus.perform(operation.command());
        match operation.advance(reply) {
            Progress::Pending(next) => operation = next,
            Progress::Finished { received, result } => return (received, result),
        }
    }
}

fn write_frames(image: &[(u8, u8)]) -> Vec<BusCommand> {
    let mut expected = Vec::new();
    for (address, value) in image {
        expected.push(BusCommand::AssertSelect);
        expected.push(BusCommand::Write { first: address | 0x40, second: *value });
        expected.push(BusCommand::DeassertSelect);
    }
    expected
}

const POWER_ON: [(u8, u8); 9] =
    [(0, 69), (1, 0), (2, 0), (3, 3), (4, 31), (5, 0), (6, 0), (8, 25), (9, 0)];

#[test]
fn write_settings_issues_nine_framed_writes_in_order() {
    let device = Tdc1000::default();
    let mut bus = RecordingBus::new(None);
    let (received, result) = run(device.write_settings(), &mut bus);
    assert!(result.is_ok());
    assert!(received.is_empty());
    assert_eq!(bus.log.len(), 27);
    assert_eq!(bus.log, write_frames(&POWER_ON));
    assert_eq!(bus.log[1], BusCommand::Write { first: 0x40, second: 0x45 });
    assert_eq!(bus.log[22], BusCommand::Write { first: 0x48, second: 0x19 });
}

#[test]
fn write_settings_sends_the_fields_as_they_are_now() {
    let mut device = Tdc1000::default();
    device.set_number_of_tx_pulses(TxPulses::new(1));
    let mut bus = RecordingBus::new(None);
    let (_, result) = run(device.write_settings(), &mut bus);
    assert!(result.is_ok());
    assert_eq!(bus.log[1], BusCommand::Write { first: 0x40, second: 65 });
}

#[test]
fn write_settings_stops_when_select_fails() {
    let device = Tdc1000::default();
    let mut bus = RecordingBus::new(Some(6));
    let (_, result) = run(device.write_settings(), &mut bus);
    assert!(matches!(result, Err(Error::ChipSelectError("select"))));
    let mut expected = write_frames(&POWER_ON[..2]);
    expected.push(BusCommand::AssertSelect);
    assert_eq!(bus.log, expected);
}

#[test]
fn write_settings_releases_select_after_a_failed_write() {
    let device = Tdc1000::default();
    let mut bus = RecordingBus::new(Some(10));
    let (_, result) = run(device.write_settings(), &mut bus);
    assert!(matches!(result, Err(Error::SpiError("bus"))));
    assert_eq!(bus.log, write_frames(&POWER_ON[..4]));
    assert_eq!(bus.log.len(), 12);
}

#[test]
fn write_settings_stops_when_release_fails() {
    let device = Tdc1000::default();
    let mut bus = RecordingBus::new(Some(2));
    let (_, result) = run(device.write_settings(), &mut bus);
    assert!(matches!(result, Err(Error::ChipSelectError("select"))));
    assert_eq!(bus.log, write_frames(&POWER_ON[..1]));
}

#[test]
fn failed_write_wins_over_failed_release() {
    let operation: BusOperation<&'static str> =
        BusOperation::write_register(ConfigAddresses::Config1, 7);
    let operation = match operation.advance(BusReply::<&'static str, _>::SelectLine(Ok(()))) {
        Progress::Pending(next) => next,
        Progress::Finished { .. } => panic!("ended early"),
    };
    let operation = match operation.advance(BusReply::<&'static str, _>::Written(Err("bus"))) {
        Progress::Pending(next) => next,
        Progress::Finished { .. } => panic!("ended early"),
    };
    assert_eq!(operation.command(), BusCommand::DeassertSelect);
    match operation.advance(BusReply::SelectLine(Err("select"))) {
        Progress::Finished { result, .. } => assert!(matches!(result, Err(Error::SpiError("bus")))),
        Progress::Pending(_) => panic!("went on"),
    }
}

#[test]
fn read_register_exchanges_address_and_filler() {
    let mut bus = RecordingBus::new(None);
    let (received, result) = run(BusOperation::read_register(ConfigAddresses::TimeOut), &mut bus);
    assert!(result.is_ok());
    assert_eq!(received, vec![18]);
    assert_eq!(
        bus.log,
        vec![
            BusCommand::AssertSelect,
            BusCommand::Transfer { first: 8, second: 0xff },
            BusCommand::DeassertSelect,
        ]
    );
}

#[test]
fn write_register_sets_the_write_bit() {
    let mut bus = RecordingBus::new(None);
    let (received, result) =
        run(BusOperation::write_register(ConfigAddresses::ClockRate, 0xa5), &mut bus);
    assert!(result.is_ok());
    assert!(received.is_empty());
    assert_eq!(
        bus.log,
        vec![
            BusCommand::AssertSelect,
            BusCommand::Write { first: 0x49, second: 0xa5 },
            BusCommand::DeassertSelect,
        ]
    );
}

#[test]
fn access_commands() {
    assert_eq!(
        Access::Write { register: ConfigAddresses::Tof1, value: 9 }.command(),
        BusCommand::Write { first: 0x45, second: 9 }
    );
    assert_eq!(
        Access::Read { register: ConfigAddresses::Tof1 }.command(),
        BusCommand::Transfer { first: 5, second: 0xff }
    );
}

#[test]
fn read_error_reads_the_error_register_once() {
    let device = Tdc1000::default();
    let mut bus = RecordingBus::new(None);
    bus.registers[7] = 0b001;
    let (received, result) = run(device.read_error(), &mut bus);
    assert!(result.is_ok());
    assert_eq!(received.len(), 1);
    assert_eq!(bus.log.len(), 3);
    assert_eq!(bus.log[1], BusCommand::Transfer { first: 7, second: 0xff });
    let flags = ErrorFlagsRead::decode(received[0]);
    assert_eq!(*flags.signal_high(), ErrSignalHighRead::SignalHigh);
    let flags = error_flags_received(&received).expect("one value");
    assert_eq!(*flags.signal_high(), ErrSignalHighRead::SignalHigh);
    assert_eq!(*flags.no_signal(), ErrNoSignalRead::NoError);
    assert_eq!(*flags.signal_week(), ErrSignalWeakRead::NoError);
}

#[test]
fn failed_read_of_the_error_register_brings_no_flags() {
    let device = Tdc1000::default();
    let mut bus = RecordingBus::new(Some(1));
    let (received, result) = run(device.read_error(), &mut bus);
    assert!(matches!(result, Err(Error::SpiError("bus"))));
    assert!(error_flags_received(&received).is_none());
    assert!(error_flags_received(&vec![1, 2]).is_none());
}

#[test]
fn reset_error_writes_the_control_code() {
    let device = Tdc1000::default();
    let mut bus = RecordingBus::new(None);
    let (_, result) =
        run(device.reset_error(ErrorFlagsWrite::ResetStateMachineAndMeasurement), &mut bus);
    assert!(result.is_ok());
    assert_eq!(
        bus.log,
        vec![
            BusCommand::AssertSelect,
            BusCommand::Write { first: 0x47, second: 2 },
            BusCommand::DeassertSelect,
        ]
    );
}

#[test]
fn read_raw_config_values_reads_all_ten_registers() {
    let device = Tdc1000::default();
    let mut bus = RecordingBus::new(None);
    let (received, result) = run(device.read_raw_config_values(), &mut bus);
    assert!(result.is_ok());
    assert_eq!(received, vec![10, 11, 12, 13, 14, 15, 16, 5, 18, 19]);
    assert_eq!(bus.log.len(), 30);
    for address in 0..10u8 {
        let at = 3 * address as usize;
        assert_eq!(bus.log[at], BusCommand::AssertSelect);
        assert_eq!(bus.log[at + 1], BusCommand::Transfer { first: address, second: 0xff });
        assert_eq!(bus.log[at + 2], BusCommand::DeassertSelect);
    }
    let mut buffer = [0u8; 10];
    store_raw_values(&received, &mut buffer);
    assert_eq!(buffer, [10, 11, 12, 13, 14, 15, 16, 5, 18, 19]);
}

#[test]
fn read_raw_config_values_keeps_what_was_read_before_a_failure() {
    let device = Tdc1000::default();
    let mut bus = RecordingBus::new(Some(7));
    let (received, result) = run(device.read_raw_config_values(), &mut bus);
    assert!(matches!(result, Err(Error::SpiError("bus"))));
    assert_eq!(received, vec![10, 11]);
    assert_eq!(bus.log.len(), 9);
    let mut buffer = [0xee_u8; 10];
    store_raw_values(&received, &mut buffer);
    assert_eq!(buffer, [10, 11, 0xee, 0xee, 0xee, 0xee, 0xee, 0xee, 0xee, 0xee]);
}

#[test]
fn value_read_is_dropped_when_release_fails() {
    let device = Tdc1000::default();
    let mut bus = RecordingBus::new(Some(5));
    let (received, result) = run(device.read_raw_config_values(), &mut bus);
    assert!(matches!(result, Err(Error::ChipSelectError("select"))));
    assert_eq!(received, vec![10]);
    assert_eq!(bus.log.len(), 6);
}

#[test]
fn reply_to_another_command_changes_nothing() {
    let operation: BusOperation<&'static str> =
        BusOperation::read_register(ConfigAddresses::Config3);
    let operation = match operation.advance(BusReply::<&'static str, _>::Written(Ok(()))) {
        Progress::Pending(next) => next,
        Progress::Finished { .. } => panic!("ended early"),
    };
    assert_eq!(operation.command(), BusCommand::AssertSelect);
    let operation = match operation.advance(BusReply::<&'static str, _>::SelectLine(Ok(()))) {
        Progress::Pending(next) => next,
        Progress::Finished { .. } => panic!("ended early"),
    };
    let operation = match operation.advance(BusReply::<&'static str, _>::Written(Ok(()))) {
        Progress::Pending(next) => next,
        Progress::Finished { .. } => panic!("ended early"),
    };
    assert_eq!(operation.command(), BusCommand::Transfer { first: 3, second: 0xff });
}

#[test]
fn operation_needs_an_access() {
    assert!(BusOperation::<&'static str>::begin(Vec::new()).is_none());
    let script = vec![
        Access::Read { register: ConfigAddresses::Config0 },
        Access::Write { register: ConfigAddresses::Config0, value: 1 },
    ];
    let operation = BusOperation::<&'static str>::begin(script);
    let mut bus = RecordingBus::new(None);
    let (received, result) = run(operation.expect("two accesses"), &mut bus);
    assert!(result.is_ok());
    assert_eq!(received, vec![10]);
    assert_eq!(bus.log.len(), 6);
    assert_eq!(bus.log[4], BusCommand::Write { first: 0x40, second: 1 });
}

#[test]
fn store_raw_values_takes_at_most_ten() {
    let received: Vec<u8> = (1..=12).collect();
    let mut buffer = [0u8; 10];
    store_raw_values(&received, &mut buffer);
    assert_eq!(buffer, [1, 2, 3, 4, 5, 6, 7, 8, 9, 10]);
}
