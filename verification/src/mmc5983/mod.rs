//! MMC5983MA magnetometer driver: register model, driver state and the
//! decisions of each driver operation.
pub mod device;
pub mod interface;
pub mod magnetometer;
pub mod mode;
pub mod private;
pub mod register_address;
pub mod types;

pub use self::device::Mmc5983;
pub use self::types::{
    BandwidthMode, Error, MagMode, MagOutputDataRate, MagneticField, ProductId, SetResetPeriod,
    Status, Temperature,
};
