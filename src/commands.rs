use vstd::prelude::*;

verus! {

/// Reads the sensor's serial number.
pub const CMD_GET_SERIAL_NUMBER: [u8; 2] = [0x36, 0x82];

/// Switches the hot plate off and puts the sensor in idle mode.
pub const CMD_TURN_HEATER_OFF: [u8; 2] = [0x36, 0x15];

/// Runs the on-chip self-test.
pub const CMD_EXECUTE_SELF_TEST: [u8; 2] = [0x28, 0x0e];

/// Starts a measurement of the raw gas signal.
pub const CMD_MEASURE_RAW_SIGNAL: [u8; 2] = [0x26, 0x02];

} // verus!
