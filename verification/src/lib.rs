//! Verified driver core for the CCS811 digital gas sensor.
//!
//! The crate decodes the sensor's bit-packed status, error-id and
//! algorithm-result registers into typed values, encodes measurement
//! configuration, frames SMBus block transfers, and implements the
//! resume-or-restart recovery policy.  All register access goes through
//! the [`I2c`] bus-transport trait; concrete transports (an ioctl-based
//! device handle, for instance) implement it outside the verified core.

use vstd::prelude::*;

mod algorithm_results_data;
mod co2;
mod error;
mod error_id;
mod measure;
mod policy;
mod registers;
mod sensor;
mod smbus;
mod status;
mod tvoc;

pub use algorithm_results_data::be16;
pub use algorithm_results_data::lemma_be16_round_trip;
pub use algorithm_results_data::spec_be16;
pub use algorithm_results_data::spec_hi16;
pub use algorithm_results_data::spec_lo16;
pub use algorithm_results_data::AlgorithmResultsData;
pub use co2::Co2;
pub use error::Ccs811Error;
pub use error_id::device_error_at;
pub use error_id::lemma_error_id_causes;
pub use error_id::spec_cause_pos;
pub use error_id::spec_causes;
pub use error_id::spec_causes_upto;
pub use error_id::to_devise_error;
pub use error_id::DeviceError;
pub use error_id::ErrorId;
pub use measure::encode_meas_mode;
pub use measure::lemma_meas_mode_byte_layout;
pub use measure::spec_meas_mode_byte;
pub use measure::MeasureDriveMode;
pub use measure::MeasureInterrupt;
pub use measure::MeasureThresh;
pub use policy::resume_or_restart;
pub use policy::ErrorSampling;
pub use policy::Pacer;
pub use policy::PaceCount;
pub use policy::NOT_STARTED_THRESHOLD;
pub use policy::SAMPLE_ROUNDS;
pub use registers::RegisterAddress;
pub use sensor::BusOp;
pub use sensor::BusOps;
pub use sensor::Ccs811;
pub use sensor::I2c;
pub use smbus::byte_frame;
pub use smbus::i2c_smbus_data;
pub use smbus::read_block_extract;
pub use smbus::read_block_frame;
pub use smbus::spec_copy_count;
pub use smbus::write_block_frame;
pub use smbus::I2cAddress;
pub use smbus::I2cBus;
pub use smbus::I2cError;
pub use smbus::I2C_SMBUS_BLOCK_MAX;
pub use status::spec_status_decode;
pub use status::Status;
pub use status::APP_VALID;
pub use status::DATA_READY;
pub use status::ERROR;
pub use status::FW_MODE;
pub use tvoc::Tvoc;

verus! {

/// Result alias used by every fallible driver operation.
pub type Ccs811Result<T> = Result<T, Ccs811Error>;

} // verus!
