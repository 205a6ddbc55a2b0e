//! Driver logic for the AXP209 power-management controller.

pub mod registers;
pub mod sample;
pub mod channel;
pub mod status;
pub mod battery;
pub mod wire;
pub mod transport;
pub mod line;
pub mod reply;
pub mod device;

pub use battery::BATTERY_LEVEL_MISSING;
pub use device::Axp209;
pub use status::AdcStatus;
pub use transport::Transport;
