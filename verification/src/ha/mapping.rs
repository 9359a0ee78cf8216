//! Mapping between the domain types and the Home Assistant wire types.

use crate::device::Device;
use crate::entity::light::{color_mode_str, ColorMode, LightCommand, LightEntity, LightState, RgbColor};
use crate::entity::number::NumberEntity;
use crate::ha::command::{state_is, HaLightCommand};
use crate::ha::discovery::{HaDeviceInfo, HaLightDiscovery, HaNumberDiscovery};
use crate::ha::state::{HaLightState, HaRgbColor as HaStateRgbColor};
use crate::ha::topic::{
    command_topic, config_topic, copy_within, spec_command_topic, spec_config_topic, spec_state_topic,
    spec_unique_id, state_topic, unique_id, utf8_len, write_pieces,
};
use crate::text::str_equal;
use vstd::utf8::encode_utf8;
use vstd::prelude::*;

verus! {

/// Converts a domain [`Device`] to [`HaDeviceInfo`] with the given identifiers.
pub fn device_to_ha<'a>(device: &'a Device<'a>, identifiers: &'a [&'a str]) -> (info: HaDeviceInfo<'a>)
    ensures
        info == (HaDeviceInfo {
            name: device.name,
            identifiers,
            manufacturer: device.manufacturer,
            model: device.model,
            sw_version: device.sw_version,
        }),
{
    HaDeviceInfo {
        name: device.name,
        identifiers,
        manufacturer: device.manufacturer,
        model: device.model,
        sw_version: device.sw_version,
    }
}

/// How many color modes a discovery payload lists at most.
pub const MAX_COLOR_MODES: usize = 4;

/// The names of the color modes that a discovery payload lists: those of the first four
/// modes, in order.
pub open spec fn listed_color_modes(modes: Seq<ColorMode>) -> Seq<&'static str> {
    let k = if modes.len() < MAX_COLOR_MODES { modes.len() as int } else { MAX_COLOR_MODES as int };
    modes.subrange(0, k).map_values(|m: ColorMode| color_mode_str(m))
}

/// The device identifier held in a buffer of `cap` bytes: all of it when it fits, empty
/// otherwise.
pub open spec fn spec_identifier(device_id: Seq<char>, cap: nat) -> Seq<char> {
    write_pieces(Seq::empty(), seq![device_id], cap)
}

/// Law: the identifier is the whole device id when it fits in `cap` bytes, and empty
/// otherwise.
pub proof fn law_identifier(device_id: Seq<char>, cap: nat)
    ensures
        utf8_len(device_id) <= cap ==> spec_identifier(device_id, cap) == device_id,
        utf8_len(device_id) > cap ==> spec_identifier(device_id, cap).len() == 0,
{
    reveal_with_fuel(write_pieces, 2);
    let e = Seq::<char>::empty();
    assert(encode_utf8(e) =~= Seq::<u8>::empty());
    assert(e + device_id =~= device_id);
    assert(seq![device_id].drop_first() =~= Seq::<Seq<char>>::empty());
}

/// Topics, identifiers and color mode names of a light's discovery payload, each topic
/// within `N` bytes.
pub struct LightDiscoveryContext<'a, const N: usize> {
    pub unique_id: String,
    pub state_topic: String,
    pub command_topic: String,
    pub config_topic: String,
    pub color_modes: Vec<&'a str>,
    pub identifier: String,
}

impl<'a, const N: usize> LightDiscoveryContext<'a, N> {
    /// Builds the context for a light entity.
    pub fn new(entity: &LightEntity<'a>) -> (ctx: Self)
        ensures
            ctx.unique_id@ == spec_unique_id(entity.device.id@, entity.id@, N as nat),
            ctx.state_topic@ == spec_state_topic(entity.device.id@, entity.id@, N as nat),
            ctx.command_topic@ == spec_command_topic(entity.device.id@, entity.id@, N as nat),
            ctx.config_topic@ == spec_config_topic("light"@, entity.device.id@, entity.id@, N as nat),
            ctx.color_modes@ == listed_color_modes(entity.color_modes@),
            ctx.identifier@ == spec_identifier(entity.device.id@, N as nat),
            utf8_len(entity.device.id@) <= N ==> ctx.identifier@ == entity.device.id@,
            utf8_len(entity.device.id@) > N ==> ctx.identifier@.len() == 0,
    {
        let unique_id = unique_id::<N>(entity.device.id, entity.id);
        let state_topic = state_topic::<N>(entity.device.id, entity.id);
        let command_topic = command_topic::<N>(entity.device.id, entity.id);
        let config_topic = config_topic::<N>("light", entity.device.id, entity.id);

        let mut color_modes: Vec<&'a str> = Vec::new();
        let modes: &[ColorMode] = entity.color_modes;
        let mut i: usize = 0;
        while i < modes.len()
            invariant
                i <= modes@.len(),
                modes@ == entity.color_modes@,
                color_modes@ == listed_color_modes(modes@.subrange(0, i as int)),
            decreases modes@.len() - i,
        {
            let ghost before = color_modes@;
            if color_modes.len() < MAX_COLOR_MODES {
                color_modes.push(modes[i].as_str());
            }
            assert(modes@.subrange(0, i + 1).subrange(0, i as int) =~= modes@.subrange(0, i as int));
            if i < MAX_COLOR_MODES {
                assert(listed_color_modes(modes@.subrange(0, i + 1)) =~= before.push(color_mode_str(modes@[i as int])));
            } else {
                assert(listed_color_modes(modes@.subrange(0, i + 1)) =~= before);
            }
            i = i + 1;
        }
        assert(modes@.subrange(0, modes@.len() as int) =~= modes@);

        proof {
            law_identifier(entity.device.id@, N as nat);
        }
        let identifier = copy_within::<N>(entity.device.id);

        LightDiscoveryContext { unique_id, state_topic, command_topic, config_topic, color_modes, identifier }
    }
}

/// Builds [`HaLightDiscovery`] from a [`LightEntity`] and its prepared context.
pub fn light_to_discovery<'a, 'b, const N: usize>(
    entity: &'a LightEntity<'a>,
    ctx: &'b LightDiscoveryContext<'a, N>,
    identifier_slice: &'b [&'b str],
) -> (d: HaLightDiscovery<'b>) where 'a: 'b
    ensures
        d.name == entity.name,
        d.unique_id@ == ctx.unique_id@,
        d.schema == "json",
        d.state_topic@ == ctx.state_topic@,
        d.command_topic@ == ctx.command_topic@,
        d.device == (HaDeviceInfo {
            name: entity.device.name,
            identifiers: identifier_slice,
            manufacturer: entity.device.manufacturer,
            model: entity.device.model,
            sw_version: entity.device.sw_version,
        }),
        d.icon == entity.icon,
        d.brightness == entity.brightness,
        d.effect == (if entity.effects is Some { Some(true) } else { None::<bool> }),
        d.effect_list == entity.effects,
        d.supported_color_modes@ == ctx.color_modes@,
        d.min_kelvin == entity.min_kelvin,
        d.max_kelvin == entity.max_kelvin,
        d.color_temp_kelvin == Some(true),
        d.optimistic == entity.optimistic,
{
    HaLightDiscovery {
        name: entity.name,
        unique_id: ctx.unique_id.as_str(),
        schema: "json",
        state_topic: ctx.state_topic.as_str(),
        command_topic: ctx.command_topic.as_str(),
        device: HaDeviceInfo {
            name: entity.device.name,
            identifiers: identifier_slice,
            manufacturer: entity.device.manufacturer,
            model: entity.device.model,
            sw_version: entity.device.sw_version,
        },
        icon: entity.icon,
        brightness: entity.brightness,
        effect: match entity.effects {
            Some(_) => Some(true),
            None => None,
        },
        effect_list: entity.effects,
        supported_color_modes: ctx.color_modes.as_slice(),
        min_kelvin: entity.min_kelvin,
        max_kelvin: entity.max_kelvin,
        color_temp_kelvin: Some(true),
        optimistic: entity.optimistic,
    }
}

/// Topics and identifier of a number's discovery payload, each within `N` bytes.
pub struct NumberDiscoveryContext<const N: usize> {
    pub unique_id: String,
    pub state_topic: String,
    pub command_topic: String,
    pub config_topic: String,
    pub identifier: String,
}

impl<const N: usize> NumberDiscoveryContext<N> {
    /// Builds the context for a number entity.
    pub fn new(entity: &NumberEntity<'_>) -> (ctx: Self)
        ensures
            ctx.unique_id@ == spec_unique_id(entity.device.id@, entity.id@, N as nat),
            ctx.state_topic@ == spec_state_topic(entity.device.id@, entity.id@, N as nat),
            ctx.command_topic@ == spec_command_topic(entity.device.id@, entity.id@, N as nat),
            ctx.config_topic@ == spec_config_topic("number"@, entity.device.id@, entity.id@, N as nat),
            ctx.identifier@ == spec_identifier(entity.device.id@, N as nat),
            utf8_len(entity.device.id@) <= N ==> ctx.identifier@ == entity.device.id@,
            utf8_len(entity.device.id@) > N ==> ctx.identifier@.len() == 0,
    {
        let unique_id = unique_id::<N>(entity.device.id, entity.id);
        let state_topic = state_topic::<N>(entity.device.id, entity.id);
        let command_topic = command_topic::<N>(entity.device.id, entity.id);
        let config_topic = config_topic::<N>("number", entity.device.id, entity.id);
        proof {
            law_identifier(entity.device.id@, N as nat);
        }
        let identifier = copy_within::<N>(entity.device.id);
        NumberDiscoveryContext { unique_id, state_topic, command_topic, config_topic, identifier }
    }
}

/// Builds [`HaNumberDiscovery`] from a [`NumberEntity`] and its prepared context.
pub fn number_to_discovery<'a, 'b, const N: usize>(
    entity: &'a NumberEntity<'a>,
    ctx: &'b NumberDiscoveryContext<N>,
    identifier_slice: &'b [&'b str],
) -> (d: HaNumberDiscovery<'b>) where 'a: 'b
    ensures
        d.name == entity.name,
        d.unique_id@ == ctx.unique_id@,
        d.state_topic@ == ctx.state_topic@,
        d.command_topic@ == ctx.command_topic@,
        d.device == (HaDeviceInfo {
            name: entity.device.name,
            identifiers: identifier_slice,
            manufacturer: entity.device.manufacturer,
            model: entity.device.model,
            sw_version: entity.device.sw_version,
        }),
        d.icon == entity.icon,
        d.device_class == entity.device_class,
        d.unit_of_measurement == entity.unit,
        d.min == entity.min,
        d.max == entity.max,
        d.step == entity.step,
        d.mode == entity.mode,
{
    HaNumberDiscovery {
        name: entity.name,
        unique_id: ctx.unique_id.as_str(),
        state_topic: ctx.state_topic.as_str(),
        command_topic: ctx.command_topic.as_str(),
        device: HaDeviceInfo {
            name: entity.device.name,
            identifiers: identifier_slice,
            manufacturer: entity.device.manufacturer,
            model: entity.device.model,
            sw_version: entity.device.sw_version,
        },
        icon: entity.icon,
        device_class: entity.device_class,
        unit_of_measurement: entity.unit,
        min: entity.min,
        max: entity.max,
        step: entity.step,
        mode: entity.mode,
    }
}

/// The wire state of a domain light state.
pub open spec fn spec_light_state_to_ha(state: LightState) -> HaLightState<'static> {
    HaLightState {
        state: if state.is_on { "ON" } else { "OFF" },
        brightness: state.brightness,
        color_mode: match state.color_mode {
            Some(m) => Some(color_mode_str(m)),
            None => None,
        },
        color_temp: state.color_temp,
        color: match state.color {
            Some(c) => Some(HaStateRgbColor { r: c.r, g: c.g, b: c.b }),
            None => None,
        },
        effect: state.effect,
    }
}

/// Converts a domain [`LightState`] to [`HaLightState`].
pub fn light_state_to_ha(state: &LightState) -> (s: HaLightState<'static>)
    ensures
        s == spec_light_state_to_ha(*state),
        s.state@ == (if state.is_on { "ON"@ } else { "OFF"@ }),
        s.brightness == state.brightness,
        s.color_temp == state.color_temp,
        s.effect == state.effect,
        (s.color is Some) == (state.color is Some),
        state.color is Some ==> s.color.unwrap().r == state.color.unwrap().r
            && s.color.unwrap().g == state.color.unwrap().g && s.color.unwrap().b == state.color.unwrap().b,
        (s.color_mode is Some) == (state.color_mode is Some),
        state.color_mode == Some(ColorMode::Rgb) ==> s.color_mode.unwrap()@ == "rgb"@,
        state.color_mode == Some(ColorMode::ColorTemp) ==> s.color_mode.unwrap()@ == "color_temp"@,
        state.color_mode == Some(ColorMode::Brightness) ==> s.color_mode.unwrap()@ == "brightness"@,
        state.color_mode == Some(ColorMode::OnOff) ==> s.color_mode.unwrap()@ == "onoff"@,
{
    proof {
        law_state_fields_carried(*state);
    }
    HaLightState {
        state: if state.is_on { "ON" } else { "OFF" },
        brightness: state.brightness,
        color_mode: match state.color_mode {
            Some(m) => Some(m.as_str()),
            None => None,
        },
        color_temp: state.color_temp,
        color: match state.color {
            Some(c) => Some(HaStateRgbColor::new(c.r, c.g, c.b)),
            None => None,
        },
        effect: state.effect,
    }
}

/// The domain command of a wire command: the state is on exactly when it reads "ON".
pub open spec fn spec_ha_command_to_light<'a>(cmd: HaLightCommand<'a>) -> LightCommand<'a> {
    LightCommand {
        state: match cmd.state {
            Some(s) => Some(s@ == "ON"@),
            None => None,
        },
        brightness: cmd.brightness,
        color_temp: cmd.color_temp,
        color: match cmd.color {
            Some(c) => Some(RgbColor { r: c.r, g: c.g, b: c.b }),
            None => None,
        },
        effect: cmd.effect,
    }
}

/// Converts a [`HaLightCommand`] to a domain [`LightCommand`].
pub fn ha_command_to_light<'a>(cmd: &HaLightCommand<'a>) -> (c: LightCommand<'a>)
    ensures
        c == spec_ha_command_to_light(*cmd),
        c.brightness == cmd.brightness,
        c.color_temp == cmd.color_temp,
        c.effect == cmd.effect,
        (c.state is Some) == (cmd.state is Some),
        cmd.state is Some ==> c.state.unwrap() == (cmd.state.unwrap()@ == "ON"@),
        (c.color is Some) == (cmd.color is Some),
        cmd.color is Some ==> c.color.unwrap().r == cmd.color.unwrap().r
            && c.color.unwrap().g == cmd.color.unwrap().g && c.color.unwrap().b == cmd.color.unwrap().b,
{
    proof {
        law_command_fields_carried(*cmd);
    }
    LightCommand {
        state: match cmd.state {
            Some(s) => Some(str_equal(s, "ON")),
            None => None,
        },
        brightness: cmd.brightness,
        color_temp: cmd.color_temp,
        color: match cmd.color {
            Some(c) => Some(RgbColor::new(c.r, c.g, c.b)),
            None => None,
        },
        effect: cmd.effect,
    }
}

/// Law: a converted command carries every requested field of the wire command unchanged:
/// brightness, color temperature, effect and color channels, whatever else the command
/// holds; it has a state exactly when the wire command has one, on exactly when that
/// state reads "ON".
pub proof fn law_command_fields_carried(cmd: HaLightCommand)
    ensures
        spec_ha_command_to_light(cmd).brightness == cmd.brightness,
        spec_ha_command_to_light(cmd).color_temp == cmd.color_temp,
        spec_ha_command_to_light(cmd).effect == cmd.effect,
        (spec_ha_command_to_light(cmd).state is Some) == (cmd.state is Some),
        cmd.state is Some ==> spec_ha_command_to_light(cmd).state.unwrap() == (cmd.state.unwrap()@ == "ON"@),
        (spec_ha_command_to_light(cmd).color is Some) == (cmd.color is Some),
        cmd.color is Some ==> {
            let c = spec_ha_command_to_light(cmd).color.unwrap();
            c.r == cmd.color.unwrap().r && c.g == cmd.color.unwrap().g && c.b == cmd.color.unwrap().b
        },
{
}

/// Law: a converted state carries brightness, color temperature, effect and color channels
/// unchanged, reads "ON" or "OFF" by whether the light is on, and names its color mode by
/// Home Assistant's name for each of the four modes.
pub proof fn law_state_fields_carried(state: LightState)
    ensures
        spec_light_state_to_ha(state).state@ == (if state.is_on { "ON"@ } else { "OFF"@ }),
        spec_light_state_to_ha(state).brightness == state.brightness,
        spec_light_state_to_ha(state).color_temp == state.color_temp,
        spec_light_state_to_ha(state).effect == state.effect,
        (spec_light_state_to_ha(state).color is Some) == (state.color is Some),
        state.color is Some ==> {
            let c = spec_light_state_to_ha(state).color.unwrap();
            c.r == state.color.unwrap().r && c.g == state.color.unwrap().g && c.b == state.color.unwrap().b
        },
        (spec_light_state_to_ha(state).color_mode is Some) == (state.color_mode is Some),
        state.color_mode == Some(ColorMode::Rgb) ==> spec_light_state_to_ha(state).color_mode.unwrap()@ == "rgb"@,
        state.color_mode == Some(ColorMode::ColorTemp) ==> spec_light_state_to_ha(state).color_mode.unwrap()@
            == "color_temp"@,
        state.color_mode == Some(ColorMode::Brightness) ==> spec_light_state_to_ha(state).color_mode.unwrap()@
            == "brightness"@,
        state.color_mode == Some(ColorMode::OnOff) ==> spec_light_state_to_ha(state).color_mode.unwrap()@
            == "onoff"@,
{
}

/// Law: the wire state reads "ON" exactly when the light is on and "OFF" exactly when it
/// is off.
pub proof fn law_state_text_follows_is_on(state: LightState)
    ensures
        (spec_light_state_to_ha(state).state@ == "ON"@) == state.is_on,
        (spec_light_state_to_ha(state).state@ == "OFF"@) == !state.is_on,
{
    reveal_strlit("ON");
    reveal_strlit("OFF");
    assert("ON"@.len() != "OFF"@.len());
}

/// Law: converting a state commutes with every builder: building the domain state and
/// converting it gives what converting and building the wire state gives, the on and off
/// states included.
pub proof fn law_state_builders_commute(
    state: LightState,
    brightness: u8,
    mireds: u16,
    r: u8,
    g: u8,
    b: u8,
    effect: &'static str,
)
    ensures
        spec_light_state_to_ha(
            LightState {
                is_on: true,
                brightness: None,
                color_mode: None,
                color_temp: None,
                color: None,
                effect: None,
            },
        ) == (HaLightState {
            state: "ON",
            brightness: None,
            color_mode: None,
            color_temp: None,
            color: None,
            effect: None,
        }),
        spec_light_state_to_ha(
            LightState {
                is_on: false,
                brightness: None,
                color_mode: None,
                color_temp: None,
                color: None,
                effect: None,
            },
        ) == (HaLightState {
            state: "OFF",
            brightness: None,
            color_mode: None,
            color_temp: None,
            color: None,
            effect: None,
        }),
        spec_light_state_to_ha(LightState { brightness: Some(brightness), ..state })
            == (HaLightState { brightness: Some(brightness), ..spec_light_state_to_ha(state) }),
        spec_light_state_to_ha(LightState { color_temp: Some(mireds), color_mode: Some(ColorMode::ColorTemp), ..state })
            == (HaLightState { color_temp: Some(mireds), color_mode: Some("color_temp"), ..spec_light_state_to_ha(state) }),
        spec_light_state_to_ha(LightState { color: Some(RgbColor { r, g, b }), color_mode: Some(ColorMode::Rgb), ..state })
            == (HaLightState {
                color: Some(HaStateRgbColor { r, g, b }),
                color_mode: Some("rgb"),
                ..spec_light_state_to_ha(state)
            }),
        spec_light_state_to_ha(LightState { effect: Some(effect), ..state })
            == (HaLightState { effect: Some(effect), ..spec_light_state_to_ha(state) }),
{
}

/// Law: a converted command turns the light on exactly when the wire command's state is
/// "ON"; a wire "OFF" turns it off; a missing state stays missing. (Any other state text,
/// such as "off", also turns it off, though the wire command's `is_off` is false there.)
pub proof fn law_command_on_off(cmd: HaLightCommand)
    ensures
        (spec_ha_command_to_light(cmd).state == Some(true)) == state_is(cmd.state, "ON"@),
        state_is(cmd.state, "OFF"@) ==> spec_ha_command_to_light(cmd).state == Some(false),
        (spec_ha_command_to_light(cmd).state is None) == (cmd.state is None),
{
    reveal_strlit("ON");
    reveal_strlit("OFF");
    assert("ON"@.len() != "OFF"@.len());
}

/// Law: the color modes that a discovery payload lists are at most four, each the name of
/// the mode at the same position of the entity's list.
pub proof fn law_listed_color_modes(modes: Seq<ColorMode>)
    ensures
        listed_color_modes(modes).len() <= MAX_COLOR_MODES,
        listed_color_modes(modes).len() == (if modes.len() < MAX_COLOR_MODES { modes.len() } else { MAX_COLOR_MODES as nat }),
        forall|i: int| 0 <= i < listed_color_modes(modes).len() ==> #[trigger] listed_color_modes(modes)[i] == color_mode_str(modes[i]),
{
}

/// A builder step of a light state: `with_brightness`, `with_color_temp`, `with_rgb` or
/// `with_effect`, on either state type.
#[derive(Debug, Clone, Copy)]
pub enum StateOp {
    Brightness(u8),
    ColorTemp(u16),
    Rgb(u8, u8, u8),
    Effect(&'static str),
}

/// What the builder step `op` makes of a domain state (as the builders' contracts state).
pub open spec fn apply_light_op(s: LightState, op: StateOp) -> LightState {
    match op {
        StateOp::Brightness(b) => LightState { brightness: Some(b), ..s },
        StateOp::ColorTemp(m) => LightState { color_temp: Some(m), color_mode: Some(ColorMode::ColorTemp), ..s },
        StateOp::Rgb(r, g, b) => LightState { color: Some(RgbColor { r, g, b }), color_mode: Some(ColorMode::Rgb), ..s },
        StateOp::Effect(e) => LightState { effect: Some(e), ..s },
    }
}

/// What the builder step `op` makes of a wire state (as the builders' contracts state).
pub open spec fn apply_ha_op(h: HaLightState<'static>, op: StateOp) -> HaLightState<'static> {
    match op {
        StateOp::Brightness(b) => HaLightState { brightness: Some(b), ..h },
        StateOp::ColorTemp(m) => HaLightState { color_temp: Some(m), color_mode: Some("color_temp"), ..h },
        StateOp::Rgb(r, g, b) => HaLightState {
            color: Some(HaStateRgbColor { r, g, b }),
            color_mode: Some("rgb"),
            ..h
        },
        StateOp::Effect(e) => HaLightState { effect: Some(e), ..h },
    }
}

/// The domain state after the builder steps `ops`, in order.
pub open spec fn apply_light_ops(s: LightState, ops: Seq<StateOp>) -> LightState
    decreases ops.len(),
{
    if ops.len() == 0 {
        s
    } else {
        apply_light_op(apply_light_ops(s, ops.drop_last()), ops.last())
    }
}

/// The wire state after the builder steps `ops`, in order.
pub open spec fn apply_ha_ops(h: HaLightState<'static>, ops: Seq<StateOp>) -> HaLightState<'static>
    decreases ops.len(),
{
    if ops.len() == 0 {
        h
    } else {
        apply_ha_op(apply_ha_ops(h, ops.drop_last()), ops.last())
    }
}

/// Law: converting a state commutes with any sequence of builder steps; in particular,
/// building from the on (or off) domain state and converting gives what building the same
/// steps from the on (or off) wire state gives.
pub proof fn law_state_builder_sequences_commute(state: LightState, ops: Seq<StateOp>)
    ensures
        spec_light_state_to_ha(apply_light_ops(state, ops)) == apply_ha_ops(spec_light_state_to_ha(state), ops),
        spec_light_state_to_ha(
            apply_light_ops(
                LightState {
                    is_on: true,
                    brightness: None,
                    color_mode: None,
                    color_temp: None,
                    color: None,
                    effect: None,
                },
                ops,
            ),
        ) == apply_ha_ops(
            HaLightState {
                state: "ON",
                brightness: None,
                color_mode: None,
                color_temp: None,
                color: None,
                effect: None,
            },
            ops,
        ),
        spec_light_state_to_ha(
            apply_light_ops(
                LightState {
                    is_on: false,
                    brightness: None,
                    color_mode: None,
                    color_temp: None,
                    color: None,
                    effect: None,
                },
                ops,
            ),
        ) == apply_ha_ops(
            HaLightState {
                state: "OFF",
                brightness: None,
                color_mode: None,
                color_temp: None,
                color: None,
                effect: None,
            },
            ops,
        ),
{
    law_state_ops_commute_from(state, ops);
    let on = LightState { is_on: true, brightness: None, color_mode: None, color_temp: None, color: None, effect: None };
    let off = LightState { is_on: false, ..on };
    law_state_ops_commute_from(on, ops);
    law_state_ops_commute_from(off, ops);
}

proof fn law_state_ops_commute_from(state: LightState, ops: Seq<StateOp>)
    ensures
        spec_light_state_to_ha(apply_light_ops(state, ops)) == apply_ha_ops(spec_light_state_to_ha(state), ops),
    decreases ops.len(),
{
    if ops.len() > 0 {
        law_state_ops_commute_from(state, ops.drop_last());
    }
}

} // verus!
