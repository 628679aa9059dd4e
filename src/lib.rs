//! Instruction packets for the Cowboy e-bike's BLE settings protocol: bounded
//! setting values, the per-command byte layout, the checksum and the write
//! mode each command needs.

pub mod cmd;
pub mod error;
pub mod mode;
pub mod types;
pub mod utils;

pub use cmd::CowboyCharacteristic;
pub use cmd::CowboyDashboardCmd;
pub use cmd::CowboyDfcCmd;
pub use cmd::CowboyLockCmd;
pub use cmd::CowboyService;
pub use cmd::CowboyTripCmd;
pub use cmd::SettingsCharacteristic;
pub use cmd::SettingsReadCmd;
pub use cmd::SettingsWriteCmd;
pub use mode::CmdMode;
