//! Register addresses of the BMP580/BMP581/BMP585 sensors.
use vstd::prelude::*;

verus! {

/// Chip identification.
pub const CHIP_ID: u8 = 0x01;
/// Chip revision.
pub const REV_ID: u8 = 0x02;
/// Chip status.
pub const CHIP_STATUS: u8 = 0x11;
/// Pad drive configuration.
pub const DRIVE_CONFIG: u8 = 0x13;
/// Interrupt configuration.
pub const INT_CONFIG: u8 = 0x14;
/// Interrupt sources.
pub const INT_SOURCE: u8 = 0x15;
/// FIFO configuration.
pub const FIFO_CONFIG: u8 = 0x16;
/// FIFO fill level.
pub const FIFO_COUNT: u8 = 0x17;
/// FIFO frame selection.
pub const FIFO_SEL: u8 = 0x18;
/// Reserved.
pub const RESERVED_REG_0: u8 = 0x1C;
/// Temperature data, low byte.
pub const TEMP_DATA_XLSB: u8 = 0x1D;
/// Temperature data, middle byte.
pub const TEMP_DATA_LSB: u8 = 0x1E;
/// Temperature data, high byte.
pub const TEMP_DATA_MSB: u8 = 0x1F;
/// Pressure data, low byte.
pub const PRESS_DATA_XLSB: u8 = 0x20;
/// Pressure data, middle byte.
pub const PRESS_DATA_LSB: u8 = 0x21;
/// Pressure data, high byte.
pub const PRESS_DATA_MSB: u8 = 0x22;
/// Reserved.
pub const RESERVED_REG1: u8 = 0x23;
/// Reserved.
pub const RESERVED_REG2: u8 = 0x24;
/// Reserved.
pub const RESERVED_REG3: u8 = 0x25;
/// Reserved.
pub const RESERVED_REG4: u8 = 0x26;
/// Interrupt status.
pub const INT_STATUS: u8 = 0x27;
/// Sensor status.
pub const STATUS: u8 = 0x28;
/// FIFO data output.
pub const FIFO_DATA: u8 = 0x29;
/// NVM address.
pub const NVM_ADDR: u8 = 0x2B;
/// NVM data, low byte.
pub const NVM_DATA_LSB: u8 = 0x2C;
/// NVM data, high byte.
pub const NVM_DATA_MSB: u8 = 0x2D;
/// Signal processing configuration.
pub const DSP_CONFIG: u8 = 0x30;
/// IIR filter coefficients.
pub const DSP_IIR: u8 = 0x31;
/// Out-of-range pressure threshold, low byte.
pub const OOR_THR_P_LSB: u8 = 0x32;
/// Out-of-range pressure threshold, high byte.
pub const OOR_THR_P_MSB: u8 = 0x33;
/// Out-of-range window.
pub const OOR_RANGE: u8 = 0x34;
/// Out-of-range configuration.
pub const OOR_CONFIG: u8 = 0x35;
/// Oversampling configuration.
pub const OSR_CONFIG: u8 = 0x36;
/// Output data rate and power mode configuration.
pub const ODR_CONFIG: u8 = 0x37;
/// Effective oversampling.
pub const OSR_EFF: u8 = 0x38;
/// Command register.
pub const CMD: u8 = 0x7E;

} // verus!
