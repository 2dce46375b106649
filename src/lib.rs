pub mod driver;
pub mod fixed;
pub mod frame;

pub use driver::{Action, Event, Level, PinMode, DHT11};
pub use fixed::FixedF8;
pub use frame::{checksum, decode_frame, DriverError, SensorData};
