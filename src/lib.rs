//! Driver for the DRV260x family of haptic motor controllers, which are
//! programmed through byte-wide registers over a two-wire bus.
//!
//! Every operation is a short register program ([`plans`]) run by the
//! step machine of [`sequencer`]; the blocking [`Drv260x`] drives it over an
//! [`I2cBus`]. Its contracts state the register accesses each operation
//! makes, over a ghost record of the accesses that completed and a count of
//! the bus transactions started.
pub mod driver;
pub mod effects;
pub mod plans;
pub mod registers;
pub mod sequencer;
pub mod transport;

pub use driver::{Drv260x, Error, StatusInfo, EXPECTED_DEVICE_ID};
pub use effects::{Effect, WaveformEntry};
pub use registers::{AthFilter, AthPeakTime, FbBrakeFactor, LibrarySelection, LoopGain, OperatingMode};
pub use sequencer::{Execution, Request, Step};
pub use transport::{Access, DeviceInterface, DeviceInterfaceError, I2cBus, I2C_ADDRESS};
