//! Home Assistant wire-format logic: topics, payload structures and mappings.

pub mod command;
pub mod discovery;
pub mod mapping;
pub mod state;
pub mod topic;

pub use command::HaLightCommand;
pub use discovery::{HaDeviceInfo, HaLightDiscovery, HaNumberDiscovery};
pub use mapping::{
    device_to_ha, ha_command_to_light, light_state_to_ha, light_to_discovery, number_to_discovery,
    LightDiscoveryContext, NumberDiscoveryContext,
};
pub use state::HaLightState;
pub use topic::{command_topic, config_topic, state_topic, unique_id};
