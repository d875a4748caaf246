//! Verified core of the MMC5983MA magnetometer driver, the MS5837 pressure
//! sensor driver and the framing and control logic of the vehicle firmware
//! that uses them.
//!
//! Bus transfers, delays and floating-point unit conversions are performed by
//! the caller; this crate decides what is written to the sensors, decodes
//! what they answer and keeps the driver state.
pub mod comms;
pub mod crc;
pub mod himax;
pub mod imu;
pub mod mmc5983;
pub mod motor;
pub mod ms5837;
