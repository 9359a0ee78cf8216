//! The physical device that holds one or more entities.

use vstd::prelude::*;

verus! {

/// Device information for Home Assistant.
///
/// This is the domain representation of a device; it is converted to
/// `ha::HaDeviceInfo` for discovery messages.
#[derive(Debug, Clone)]
pub struct Device<'a> {
    /// Device identifier (used in topic generation and `unique_id`)
    pub id: &'a str,
    /// Human-readable device name
    pub name: &'a str,
    /// Manufacturer name (optional)
    pub manufacturer: Option<&'a str>,
    /// Model name (optional)
    pub model: Option<&'a str>,
    /// Software version (optional)
    pub sw_version: Option<&'a str>,
}

impl<'a> Device<'a> {
    /// Creates a device with the given id and name and no optional details.
    pub fn new(id: &'a str, name: &'a str) -> (d: Self)
        ensures
            d.id == id,
            d.name == name,
            d.manufacturer is None,
            d.model is None,
            d.sw_version is None,
    {
        Device { id, name, manufacturer: None, model: None, sw_version: None }
    }

    /// Sets the manufacturer.
    pub fn with_manufacturer(self, manufacturer: &'a str) -> (d: Self)
        ensures
            d == (Device { manufacturer: Some(manufacturer), ..self }),
    {
        Device { manufacturer: Some(manufacturer), ..self }
    }

    /// Sets the model.
    pub fn with_model(self, model: &'a str) -> (d: Self)
        ensures
            d == (Device { model: Some(model), ..self }),
    {
        Device { model: Some(model), ..self }
    }

    /// Sets the software version.
    pub fn with_sw_version(self, sw_version: &'a str) -> (d: Self)
        ensures
            d == (Device { sw_version: Some(sw_version), ..self }),
    {
        Device { sw_version: Some(sw_version), ..self }
    }
}

} // verus!
