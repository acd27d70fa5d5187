pub mod autostart;
pub mod brightness;
pub mod command;
pub mod flexbattery;
pub mod flexpuff;
pub mod smartgesture;
pub mod vibration;
