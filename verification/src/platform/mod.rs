//! Apple-platform integrations: haptic kinds and the device's power signals.

pub mod haptics;
pub mod power;

pub use haptics::Haptic;
pub use power::{PowerState, PowerStateChanged, ThermalState};
