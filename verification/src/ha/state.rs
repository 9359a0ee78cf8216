//! State payload structures, matching the JSON that Home Assistant expects for a light.

use vstd::prelude::*;

verus! {

/// RGB color in a state payload.
#[derive(Debug, Clone, Copy, Default, PartialEq, Eq, Structural)]
pub struct HaRgbColor {
    pub r: u8,
    pub g: u8,
    pub b: u8,
}

impl HaRgbColor {
    /// Creates a color from its three channels.
    pub fn new(r: u8, g: u8, b: u8) -> (c: Self)
        ensures
            c == (HaRgbColor { r, g, b }),
    {
        HaRgbColor { r, g, b }
    }
}

/// Light state payload for Home Assistant.
#[derive(Debug, Clone, Default)]
pub struct HaLightState<'a> {
    /// Current on/off state ("ON" or "OFF")
    pub state: &'a str,
    /// Current brightness (0-255)
    pub brightness: Option<u8>,
    /// Current color mode
    pub color_mode: Option<&'a str>,
    /// Current color temperature in mireds
    pub color_temp: Option<u16>,
    /// Current RGB color
    pub color: Option<HaRgbColor>,
    /// Current effect name
    pub effect: Option<&'a str>,
}

impl<'a> HaLightState<'a> {
    /// An "ON" state with nothing else set.
    pub fn on() -> (s: Self)
        ensures
            s == (HaLightState {
                state: "ON",
                brightness: None,
                color_mode: None,
                color_temp: None,
                color: None,
                effect: None,
            }),
    {
        HaLightState { state: "ON", brightness: None, color_mode: None, color_temp: None, color: None, effect: None }
    }

    /// An "OFF" state with nothing else set.
    pub fn off() -> (s: Self)
        ensures
            s == (HaLightState {
                state: "OFF",
                brightness: None,
                color_mode: None,
                color_temp: None,
                color: None,
                effect: None,
            }),
    {
        HaLightState { state: "OFF", brightness: None, color_mode: None, color_temp: None, color: None, effect: None }
    }

    /// Sets the brightness.
    pub fn with_brightness(self, brightness: u8) -> (s: Self)
        ensures
            s == (HaLightState { brightness: Some(brightness), ..self }),
    {
        HaLightState { brightness: Some(brightness), ..self }
    }

    /// Sets the color temperature; the color mode becomes "color_temp".
    pub fn with_color_temp(self, mireds: u16) -> (s: Self)
        ensures
            s == (HaLightState { color_temp: Some(mireds), color_mode: Some("color_temp"), ..self }),
    {
        HaLightState { color_temp: Some(mireds), color_mode: Some("color_temp"), ..self }
    }

    /// Sets the RGB color; the color mode becomes "rgb".
    pub fn with_rgb(self, r: u8, g: u8, b: u8) -> (s: Self)
        ensures
            s == (HaLightState { color: Some(HaRgbColor { r, g, b }), color_mode: Some("rgb"), ..self }),
    {
        HaLightState { color: Some(HaRgbColor::new(r, g, b)), color_mode: Some("rgb"), ..self }
    }

    /// Sets the current effect.
    pub fn with_effect(self, effect: &'a str) -> (s: Self)
        ensures
            s == (HaLightState { effect: Some(effect), ..self }),
    {
        HaLightState { effect: Some(effect), ..self }
    }
}

} // verus!
