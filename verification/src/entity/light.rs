//! Light entity domain types, independent of the Home Assistant wire format.

use crate::device::Device;
use vstd::prelude::*;

verus! {

/// RGB color (domain type).
#[derive(Debug, Clone, Copy, Default, PartialEq, Eq, Structural)]
pub struct RgbColor {
    pub r: u8,
    pub g: u8,
    pub b: u8,
}

impl RgbColor {
    /// Creates a color from its three channels.
    pub fn new(r: u8, g: u8, b: u8) -> (c: Self)
        ensures
            c == (RgbColor { r, g, b }),
    {
        RgbColor { r, g, b }
    }
}

/// Supported color modes (domain type).
#[derive(Debug, Clone, Copy, PartialEq, Eq, Structural)]
pub enum ColorMode {
    /// RGB color mode
    Rgb,
    /// Color temperature mode (in mireds)
    ColorTemp,
    /// Brightness only (no color)
    Brightness,
    /// On/Off only
    OnOff,
}

/// The Home Assistant name of a color mode.
pub open spec fn color_mode_str(m: ColorMode) -> &'static str {
    match m {
        ColorMode::Rgb => "rgb",
        ColorMode::ColorTemp => "color_temp",
        ColorMode::Brightness => "brightness",
        ColorMode::OnOff => "onoff",
    }
}

impl ColorMode {
    /// The Home Assistant name of this color mode.
    pub fn as_str(&self) -> (s: &'static str)
        ensures
            s == color_mode_str(*self),
    {
        match self {
            ColorMode::Rgb => "rgb",
            ColorMode::ColorTemp => "color_temp",
            ColorMode::Brightness => "brightness",
            ColorMode::OnOff => "onoff",
        }
    }
}

/// Light entity configuration (domain type).
#[derive(Debug, Clone)]
pub struct LightEntity<'a> {
    /// Entity identifier suffix (combined with device id for `unique_id`)
    pub id: &'a str,
    /// Human-readable name
    pub name: &'a str,
    /// Reference to parent device
    pub device: &'a Device<'a>,
    /// MDI icon (e.g., "mdi:lightbulb")
    pub icon: Option<&'a str>,
    /// Whether brightness is supported
    pub brightness: bool,
    /// Supported color modes
    pub color_modes: &'a [ColorMode],
    /// Available effects
    pub effects: Option<&'a [&'a str]>,
    /// Minimum color temperature in Kelvin
    pub min_kelvin: Option<u16>,
    /// Maximum color temperature in Kelvin
    pub max_kelvin: Option<u16>,
    /// Whether the entity works in optimistic mode
    pub optimistic: bool,
}

impl<'a> LightEntity<'a> {
    /// Creates a light entity with brightness support and no other options.
    pub fn new(id: &'a str, name: &'a str, device: &'a Device<'a>) -> (e: Self)
        ensures
            e.id == id,
            e.name == name,
            e.device == device,
            e.icon is None,
            e.brightness,
            e.color_modes@.len() == 0,
            e.effects is None,
            e.min_kelvin is None,
            e.max_kelvin is None,
            !e.optimistic,
    {
        LightEntity {
            id,
            name,
            device,
            icon: None,
            brightness: true,
            color_modes: &[],
            effects: None,
            min_kelvin: None,
            max_kelvin: None,
            optimistic: false,
        }
    }

    /// Sets the icon.
    pub fn with_icon(self, icon: &'a str) -> (e: Self)
        ensures
            e == (LightEntity { icon: Some(icon), ..self }),
    {
        LightEntity { icon: Some(icon), ..self }
    }

    /// Sets brightness support.
    pub fn with_brightness(self, brightness: bool) -> (e: Self)
        ensures
            e == (LightEntity { brightness, ..self }),
    {
        LightEntity { brightness, ..self }
    }

    /// Sets the color modes.
    pub fn with_color_modes(self, modes: &'a [ColorMode]) -> (e: Self)
        ensures
            e == (LightEntity { color_modes: modes, ..self }),
    {
        LightEntity { color_modes: modes, ..self }
    }

    /// Sets the effects list.
    pub fn with_effects(self, effects: &'a [&'a str]) -> (e: Self)
        ensures
            e == (LightEntity { effects: Some(effects), ..self }),
    {
        LightEntity { effects: Some(effects), ..self }
    }

    /// Sets the color temperature range.
    pub fn with_kelvin_range(self, min: u16, max: u16) -> (e: Self)
        ensures
            e == (LightEntity { min_kelvin: Some(min), max_kelvin: Some(max), ..self }),
    {
        LightEntity { min_kelvin: Some(min), max_kelvin: Some(max), ..self }
    }

    /// Sets optimistic mode.
    pub fn with_optimistic(self, optimistic: bool) -> (e: Self)
        ensures
            e == (LightEntity { optimistic, ..self }),
    {
        LightEntity { optimistic, ..self }
    }
}

/// Light state (domain type).
#[derive(Debug, Clone, Default)]
pub struct LightState {
    /// Current on/off state
    pub is_on: bool,
    /// Current brightness (0-255)
    pub brightness: Option<u8>,
    /// Current color mode
    pub color_mode: Option<ColorMode>,
    /// Current color temperature in mireds
    pub color_temp: Option<u16>,
    /// Current RGB color
    pub color: Option<RgbColor>,
    /// Current effect name
    pub effect: Option<&'static str>,
}

impl LightState {
    /// An "ON" state with nothing else set.
    pub fn on() -> (s: Self)
        ensures
            s == (LightState {
                is_on: true,
                brightness: None,
                color_mode: None,
                color_temp: None,
                color: None,
                effect: None,
            }),
    {
        LightState { is_on: true, brightness: None, color_mode: None, color_temp: None, color: None, effect: None }
    }

    /// An "OFF" state with nothing else set.
    pub fn off() -> (s: Self)
        ensures
            s == (LightState {
                is_on: false,
                brightness: None,
                color_mode: None,
                color_temp: None,
                color: None,
                effect: None,
            }),
    {
        LightState { is_on: false, brightness: None, color_mode: None, color_temp: None, color: None, effect: None }
    }

    /// Sets the brightness.
    pub fn with_brightness(self, brightness: u8) -> (s: Self)
        ensures
            s == (LightState { brightness: Some(brightness), ..self }),
    {
        LightState { brightness: Some(brightness), ..self }
    }

    /// Sets the color temperature, which also selects the color temperature mode.
    pub fn with_color_temp(self, mireds: u16) -> (s: Self)
        ensures
            s == (LightState { color_temp: Some(mireds), color_mode: Some(ColorMode::ColorTemp), ..self }),
    {
        LightState { color_temp: Some(mireds), color_mode: Some(ColorMode::ColorTemp), ..self }
    }

    /// Sets the RGB color, which also selects the RGB mode.
    pub fn with_rgb(self, r: u8, g: u8, b: u8) -> (s: Self)
        ensures
            s == (LightState { color: Some(RgbColor { r, g, b }), color_mode: Some(ColorMode::Rgb), ..self }),
    {
        LightState { color: Some(RgbColor::new(r, g, b)), color_mode: Some(ColorMode::Rgb), ..self }
    }

    /// Sets the current effect.
    pub fn with_effect(self, effect: &'static str) -> (s: Self)
        ensures
            s == (LightState { effect: Some(effect), ..self }),
    {
        LightState { effect: Some(effect), ..self }
    }
}

/// Command received for a light (domain type).
#[derive(Debug, Clone, Default)]
pub struct LightCommand<'a> {
    /// Requested state
    pub state: Option<bool>,
    /// Requested brightness (0-255)
    pub brightness: Option<u8>,
    /// Requested color temperature in mireds
    pub color_temp: Option<u16>,
    /// Requested RGB color
    pub color: Option<RgbColor>,
    /// Requested effect
    pub effect: Option<&'a str>,
}

impl LightCommand<'_> {
    /// Whether this command turns the light on.
    pub fn is_on(&self) -> (b: bool)
        ensures
            b == (self.state == Some(true)),
    {
        match self.state {
            Some(s) => s,
            None => false,
        }
    }

    /// Whether this command turns the light off.
    pub fn is_off(&self) -> (b: bool)
        ensures
            b == (self.state == Some(false)),
    {
        match self.state {
            Some(s) => !s,
            None => false,
        }
    }
}

/// Registration of a light entity with its callbacks: `provide_state` gives the current
/// state of the light and `on_command` handles a command for it.
pub struct LightRegistration<'a, S, C> {
    pub entity: LightEntity<'a>,
    pub provide_state: S,
    pub on_command: C,
}

} // verus!
