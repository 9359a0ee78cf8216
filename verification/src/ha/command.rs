//! Command payload structures, matching the JSON that Home Assistant sends to a light.

use crate::text::str_equal;
use vstd::prelude::*;

verus! {

/// RGB color in a command.
#[derive(Debug, Clone, Copy, Default, PartialEq, Eq, Structural)]
pub struct HaRgbColor {
    pub r: u8,
    pub g: u8,
    pub b: u8,
}

/// Light command payload from Home Assistant.
#[derive(Debug, Clone, Default)]
pub struct HaLightCommand<'a> {
    /// Requested state ("ON" or "OFF")
    pub state: Option<&'a str>,
    /// Requested brightness (0-255)
    pub brightness: Option<u8>,
    /// Requested color temperature in mireds
    pub color_temp: Option<u16>,
    /// Requested RGB color
    pub color: Option<HaRgbColor>,
    /// Requested effect
    pub effect: Option<&'a str>,
}

/// The requested state is the text `t`.
pub open spec fn state_is(state: Option<&str>, t: Seq<char>) -> bool {
    state matches Some(s) && s@ == t
}

impl HaLightCommand<'_> {
    /// Whether this is a turn-on command (state "ON").
    pub fn is_on(&self) -> (b: bool)
        ensures
            b == state_is(self.state, "ON"@),
    {
        match self.state {
            Some(s) => str_equal(s, "ON"),
            None => false,
        }
    }

    /// Whether this is a turn-off command (state "OFF").
    pub fn is_off(&self) -> (b: bool)
        ensures
            b == state_is(self.state, "OFF"@),
    {
        match self.state {
            Some(s) => str_equal(s, "OFF"),
            None => false,
        }
    }
}

} // verus!
