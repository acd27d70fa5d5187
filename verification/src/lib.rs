//! Protocol engine for a BLE-connected IQOS device: model classification,
//! command construction with the register/checksum scheme, and the decoding
//! of the response frames behind every read. Every operation here plans or
//! interprets bytes; the BLE transport itself lives with the caller, which
//! hands frames in and carries commands out.

pub mod brightness;
pub mod cmds;
pub mod codec;
pub mod device;
pub mod error;
pub mod flexbattery;
pub mod flexpuff;
pub mod model;
pub mod signals;
pub mod strutil;
pub mod vibration;

pub use brightness::BrightnessLevel;
pub use cmds::command::CommandInfo;
pub use codec::COMMAND_CHECKSUM_XOR;
pub use device::IlumaSpecific;
pub use device::IqosBle;
pub use error::IQOSError;
pub use error::NotIlumaError;
pub use flexbattery::FlexBattery;
pub use flexbattery::FlexbatteryMode;
pub use flexbattery::Pausemode;
pub use flexpuff::Flexpuff;
pub use model::IQOSModel;
pub use vibration::IlumaVibration;
pub use vibration::VibrationFlags;
pub use vibration::VibrationSettings;
