//! Driver logic for the MLX90614/MLX90615 non-contact infrared thermometers.
//!
//! The crate holds everything the driver decides or computes: the packet
//! error code, the framing of register transfers, the conversion of register
//! contents to physical units, the validation of caller input and the order
//! of the steps of an EEPROM write and of a wake pulse. It performs no
//! input or output itself: the caller moves the bytes and drives the pin.

pub mod conversion;
pub mod crc;
pub mod device;
pub mod ic;
pub mod mlx90614;
pub mod mlx90615;
pub mod register_access;
pub mod step;
pub mod types;

pub use crate::crc::crc8;
pub use crate::device::Mlx9061x;
pub use crate::types::{Error, Fraction, SlaveAddr, TempType};
pub use crate::mlx90615::wake_mlx90615;
pub use crate::step::{BusRead, BusStep, IdRead, Next, PinStep};
