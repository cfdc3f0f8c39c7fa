//! Register-level driver core for the TDC1000 ultrasonic time-of-flight and
//! temperature front-end.
//!
//! The crate keeps a typed mirror of the chip's configuration registers,
//! packs it into the bytes the chip expects, and sequences the select-line
//! and bus commands of every register access. It performs no I/O itself: a
//! bus operation hands out one command at a time and is advanced with the
//! outcome of that command.

pub mod bus;
pub mod device;
pub mod fields;
pub mod registers;

pub use bus::{
    error_flags_received, store_raw_values, Access, BusCommand, BusOperation, BusReply, Error,
    OperationView, Progress, Stage, Step, READ_FILLER, SPI_WRITE_BIT,
};
pub use device::Tdc1000;
pub use fields::{
    trim_value_u16, trim_value_u8, AmplifierControl, AutoZeroPeriod, ChannelSelect, ChannelSwap,
    ClockInDiv, DampingMode, EchoQualificationThreshold, EchoTimeout, ErrNoSignalRead,
    ErrSignalHighRead, ErrSignalWeakRead, ErrorFlagsWrite, ExternalChannelSelect,
    ForceShortTimeOfFlight, LnaFeedbackMode, MeasurementCycles, MeasurementMode, PgaGain,
    PowerBlanking, ReceiveEventsCnt, ReceiveMode, ShortTofBlankPeriod, TOFMeasurementMode,
    TempClockDivider, TempMode, TempRtdSelect, TimeOfFlightValue, TofTimeoutControl,
    TriggerEdgePolarity, TxFrequencyDivider, TxPulseShiftPosition, TxPulses, VoltageReference,
};
pub use registers::{
    AmplifierAndTimeOfFlight, BitField, ClockRate, Config0, Config1, Config2, Config3, Config4,
    ConfigAddresses, ErrorFlagsRead, TimeOut,
};
