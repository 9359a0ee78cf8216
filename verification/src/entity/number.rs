//! Number entity domain types, independent of the Home Assistant wire format.

use crate::device::Device;
use vstd::prelude::*;

verus! {

/// Number entity configuration (domain type).
#[derive(Clone)]
pub struct NumberEntity<'a> {
    /// Entity identifier suffix (combined with device id for `unique_id`)
    pub id: &'a str,
    /// Human-readable name
    pub name: &'a str,
    /// Reference to parent device
    pub device: &'a Device<'a>,
    /// MDI icon (e.g., "mdi:speedometer")
    pub icon: Option<&'a str>,
    /// Device class (e.g., "temperature", "humidity")
    pub device_class: Option<&'a str>,
    /// Unit of measurement (e.g., "°C", "%")
    pub unit: Option<&'a str>,
    /// Minimum value
    pub min: i32,
    /// Maximum value
    pub max: i32,
    /// Step increment, held as the bit pattern of an IEEE 754 single-precision number
    /// (`f32::to_bits`)
    pub step: Option<u32>,
    /// Display mode ("auto", "box", "slider")
    pub mode: Option<&'a str>,
}

impl<'a> NumberEntity<'a> {
    /// Creates a number entity with the range 0 to 100 and no other options.
    pub fn new(id: &'a str, name: &'a str, device: &'a Device<'a>) -> (e: Self)
        ensures
            e == (NumberEntity {
                id,
                name,
                device,
                icon: None,
                device_class: None,
                unit: None,
                min: 0,
                max: 100,
                step: None,
                mode: None,
            }),
    {
        NumberEntity {
            id,
            name,
            device,
            icon: None,
            device_class: None,
            unit: None,
            min: 0,
            max: 100,
            step: None,
            mode: None,
        }
    }

    /// Sets the icon.
    pub fn with_icon(self, icon: &'a str) -> (e: Self)
        ensures
            e == (NumberEntity { icon: Some(icon), ..self }),
    {
        NumberEntity { icon: Some(icon), ..self }
    }

    /// Sets the device class.
    pub fn with_device_class(self, device_class: &'a str) -> (e: Self)
        ensures
            e == (NumberEntity { device_class: Some(device_class), ..self }),
    {
        NumberEntity { device_class: Some(device_class), ..self }
    }

    /// Sets the unit of measurement.
    pub fn with_unit(self, unit: &'a str) -> (e: Self)
        ensures
            e == (NumberEntity { unit: Some(unit), ..self }),
    {
        NumberEntity { unit: Some(unit), ..self }
    }

    /// Sets the value range.
    pub fn with_range(self, min: i32, max: i32) -> (e: Self)
        ensures
            e == (NumberEntity { min, max, ..self }),
    {
        NumberEntity { min, max, ..self }
    }

    /// Sets the step increment, given as the bit pattern of an `f32` (`f32::to_bits`).
    pub fn with_step(self, step_bits: u32) -> (e: Self)
        ensures
            e == (NumberEntity { step: Some(step_bits), ..self }),
    {
        NumberEntity { step: Some(step_bits), ..self }
    }

    /// Sets the display mode ("auto", "box", "slider").
    pub fn with_mode(self, mode: &'a str) -> (e: Self)
        ensures
            e == (NumberEntity { mode: Some(mode), ..self }),
    {
        NumberEntity { mode: Some(mode), ..self }
    }
}

/// Registration of a number entity with its callbacks: `provide_state` gives the current
/// value and `on_command` handles a requested value.
pub struct NumberRegistration<'a, S, C> {
    pub entity: NumberEntity<'a>,
    pub provide_state: S,
    pub on_command: C,
}

} // verus!
