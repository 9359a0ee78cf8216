//! Domain types of Home Assistant entities.

pub mod light;
pub mod number;

pub use light::{ColorMode, LightCommand, LightEntity, LightRegistration, LightState, RgbColor};
pub use number::{NumberEntity, NumberRegistration};
