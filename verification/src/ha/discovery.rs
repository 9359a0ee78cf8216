//! Discovery payload structures, matching the schema that Home Assistant expects for
//! MQTT discovery messages.

use vstd::prelude::*;

verus! {

/// Device information in a discovery payload.
#[derive(Clone)]
pub struct HaDeviceInfo<'a> {
    /// Human-readable device name
    pub name: &'a str,
    /// Device identifiers array
    pub identifiers: &'a [&'a str],
    /// Manufacturer name (optional)
    pub manufacturer: Option<&'a str>,
    /// Model name (optional)
    pub model: Option<&'a str>,
    /// Software version (optional)
    pub sw_version: Option<&'a str>,
}

/// Light entity discovery payload.
pub struct HaLightDiscovery<'a> {
    /// Human-readable name
    pub name: &'a str,
    /// Unique identifier
    pub unique_id: &'a str,
    /// JSON schema type (always "json")
    pub schema: &'a str,
    /// Topic for state updates
    pub state_topic: &'a str,
    /// Topic for commands
    pub command_topic: &'a str,
    /// Device information
    pub device: HaDeviceInfo<'a>,
    /// MDI icon (optional)
    pub icon: Option<&'a str>,
    /// Whether brightness is supported (left out of the payload when false)
    pub brightness: bool,
    /// Whether effects are supported
    pub effect: Option<bool>,
    /// List of available effects
    pub effect_list: Option<&'a [&'a str]>,
    /// Supported color modes (left out of the payload when empty)
    pub supported_color_modes: &'a [&'a str],
    /// Minimum color temperature in Kelvin
    pub min_kelvin: Option<u16>,
    /// Maximum color temperature in Kelvin
    pub max_kelvin: Option<u16>,
    /// Whether the color temperature is in Kelvin
    pub color_temp_kelvin: Option<bool>,
    /// Optimistic mode flag (left out of the payload when false)
    pub optimistic: bool,
}

/// Number entity discovery payload.
pub struct HaNumberDiscovery<'a> {
    /// Human-readable name
    pub name: &'a str,
    /// Unique identifier
    pub unique_id: &'a str,
    /// Topic for state updates
    pub state_topic: &'a str,
    /// Topic for commands
    pub command_topic: &'a str,
    /// Device information
    pub device: HaDeviceInfo<'a>,
    /// MDI icon (optional)
    pub icon: Option<&'a str>,
    /// Device class (optional)
    pub device_class: Option<&'a str>,
    /// Unit of measurement (optional)
    pub unit_of_measurement: Option<&'a str>,
    /// Minimum value
    pub min: i32,
    /// Maximum value
    pub max: i32,
    /// Step increment, as the bit pattern of an `f32` (optional)
    pub step: Option<u32>,
    /// Display mode (optional)
    pub mode: Option<&'a str>,
}

/// Whether a flag is false; a false flag is left out of a discovery payload.
pub fn is_false(v: &bool) -> (r: bool)
    ensures
        r == !*v,
{
    !*v
}

} // verus!
