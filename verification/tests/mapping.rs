use myrtio_mqtt_homeassistant::entity::light::{ColorMode, LightEntity, LightState};
use myrtio_mqtt_homeassistant::entity::number::NumberEntity;
use myrtio_mqtt_homeassistant::ha::command::{HaLightCommand, HaRgbColor};
use myrtio_mqtt_homeassistant::ha::mapping::{
    device_to_ha, ha_command_to_light, light_state_to_ha, light_to_discovery, number_to_discovery,
    LightDiscoveryContext, NumberDiscoveryContext,
};
use myrtio_mqtt_homeassistant::ha::state::HaLightState;
use myrtio_mqtt_homeassistant::Device;

#[test]
fn device_info_copies_fields() {
    let d = Device::new("dev", "Device").with_model("M1");
    let ids = ["dev"];
    let info = device_to_ha(&d, &ids);
    assert_eq!(info.name, "Device");
    assert_eq!(info.identifiers, &ids);
    assert_eq!(info.model, Some("M1"));
    assert_eq!(info.manufacturer, None);
    assert_eq!(info.sw_version, None);
}

#[test]
fn light_discovery_context_and_payload() {
    let d = Device::new("kitchen", "Kitchen").with_manufacturer("Myrtio");
    let modes = [ColorMode::Rgb, ColorMode::ColorTemp, ColorMode::Brightness, ColorMode::OnOff, ColorMode::Rgb];
    let effects = ["rainbow"];
    let e = LightEntity::new("main", "Main", &d).with_color_modes(&modes).with_effects(&effects);
    let ctx: LightDiscoveryContext<'_, 128> = LightDiscoveryContext::new(&e);
    assert_eq!(ctx.unique_id, "kitchen_main");
    assert_eq!(ctx.state_topic, "kitchen/main");
    assert_eq!(ctx.command_topic, "kitchen/main/set");
    assert_eq!(ctx.config_topic, "homeassistant/light/kitchen_main/config");
    // Only the first four modes are listed.
    assert_eq!(ctx.color_modes, vec!["rgb", "color_temp", "brightness", "onoff"]);
    assert_eq!(ctx.identifier, "kitchen");
    let ids = [ctx.identifier.as_str()];
    let disc = light_to_discovery(&e, &ctx, &ids);
    assert_eq!(disc.name, "Main");
    assert_eq!(disc.schema, "json");
    assert_eq!(disc.unique_id, "kitchen_main");
    assert_eq!(disc.state_topic, "kitchen/main");
    assert_eq!(disc.command_topic, "kitchen/main/set");
    assert_eq!(disc.device.name, "Kitchen");
    assert_eq!(disc.device.manufacturer, Some("Myrtio"));
    assert_eq!(disc.device.identifiers, &["kitchen"]);
    assert_eq!(disc.effect, Some(true));
    assert_eq!(disc.effect_list, Some(&effects[..]));
    assert_eq!(disc.supported_color_modes.len(), 4);
    assert_eq!(disc.color_temp_kelvin, Some(true));
    assert!(disc.brightness);
    assert!(!disc.optimistic);
}

#[test]
fn light_discovery_without_effects() {
    let d = Device::new("d", "D");
    let e = LightEntity::new("x", "X", &d);
    let ctx: LightDiscoveryContext<'_, 128> = LightDiscoveryContext::new(&e);
    let ids = [ctx.identifier.as_str()];
    let disc = light_to_discovery(&e, &ctx, &ids);
    assert_eq!(disc.effect, None);
    assert_eq!(disc.effect_list, None);
    assert!(disc.supported_color_modes.is_empty());
}

#[test]
fn identifier_that_does_not_fit_is_empty() {
    let d = Device::new("a_very_long_device_identifier", "D");
    let e = LightEntity::new("x", "X", &d);
    let ctx: LightDiscoveryContext<'_, 8> = LightDiscoveryContext::new(&e);
    assert_eq!(ctx.identifier, "");
    assert_eq!(ctx.state_topic, "");
}

#[test]
fn number_discovery_context_and_payload() {
    let d = Device::new("thermo", "Thermostat");
    let n = NumberEntity::new("target", "Target", &d).with_range(5, 30).with_unit("C").with_step(1.5f32.to_bits());
    let ctx: NumberDiscoveryContext<128> = NumberDiscoveryContext::new(&n);
    assert_eq!(ctx.config_topic, "homeassistant/number/thermo_target/config");
    assert_eq!(ctx.command_topic, "thermo/target/set");
    assert_eq!(ctx.state_topic, "thermo/target");
    assert_eq!(ctx.unique_id, "thermo_target");
    assert_eq!(ctx.identifier, "thermo");
    let ids = [ctx.identifier.as_str()];
    let disc = number_to_discovery(&n, &ctx, &ids);
    assert_eq!(disc.name, "Target");
    assert_eq!((disc.min, disc.max), (5, 30));
    assert_eq!(disc.unit_of_measurement, Some("C"));
    assert_eq!(disc.step.map(f32::from_bits), Some(1.5));
    assert_eq!(disc.mode, None);
    assert_eq!(disc.device.identifiers, &["thermo"]);
}

fn same(a: &HaLightState<'_>, b: &HaLightState<'_>) -> bool {
    a.state == b.state
        && a.brightness == b.brightness
        && a.color_mode == b.color_mode
        && a.color_temp == b.color_temp
        && a.color.map(|c| (c.r, c.g, c.b)) == b.color.map(|c| (c.r, c.g, c.b))
        && a.effect == b.effect
}

#[test]
fn state_mapping_commutes_with_builders() {
    assert!(same(&light_state_to_ha(&LightState::on()), &HaLightState::on()));
    assert!(same(&light_state_to_ha(&LightState::off()), &HaLightState::off()));
    let base = LightState::on().with_brightness(3);
    assert!(same(
        &light_state_to_ha(&base.clone().with_color_temp(320)),
        &light_state_to_ha(&base).with_color_temp(320)
    ));
    assert!(same(&light_state_to_ha(&base.clone().with_rgb(9, 8, 7)), &light_state_to_ha(&base).with_rgb(9, 8, 7)));
    assert!(same(&light_state_to_ha(&base.clone().with_effect("e")), &light_state_to_ha(&base).with_effect("e")));
    assert!(same(&light_state_to_ha(&LightState::off().with_brightness(7)), &HaLightState::off().with_brightness(7)));
}

#[test]
fn state_mapping_values() {
    let s = light_state_to_ha(&LightState::on().with_rgb(1, 2, 3));
    assert_eq!(s.state, "ON");
    assert_eq!(s.color_mode, Some("rgb"));
    assert_eq!(s.color.map(|c| (c.r, c.g, c.b)), Some((1, 2, 3)));
    let t = light_state_to_ha(&LightState::off());
    assert_eq!(t.state, "OFF");
    assert_eq!(t.color_mode, None);
}

#[test]
fn command_mapping() {
    let mut c = HaLightCommand::default();
    c.state = Some("ON");
    c.brightness = Some(200);
    c.color = Some(HaRgbColor { r: 1, g: 2, b: 3 });
    c.effect = Some("rainbow");
    let l = ha_command_to_light(&c);
    assert!(l.is_on());
    assert_eq!(l.brightness, Some(200));
    assert_eq!(l.color.map(|x| (x.r, x.g, x.b)), Some((1, 2, 3)));
    assert_eq!(l.effect, Some("rainbow"));
    c.state = Some("OFF");
    assert!(ha_command_to_light(&c).is_off());
    // Any other state text turns the light off as well.
    c.state = Some("toggle");
    assert!(ha_command_to_light(&c).is_off());
    assert!(!c.is_off());
    c.state = None;
    assert_eq!(ha_command_to_light(&c).state, None);
}

#[test]
fn state_mapping_commutes_with_builder_sequences() {
    let s = LightState::off().with_rgb(1, 2, 3).with_brightness(9).with_color_temp(200).with_effect("x").with_brightness(4);
    let h = HaLightState::off().with_rgb(1, 2, 3).with_brightness(9).with_color_temp(200).with_effect("x").with_brightness(4);
    assert!(same(&light_state_to_ha(&s), &h));
    let s = LightState::on().with_color_temp(150).with_rgb(7, 7, 7);
    let h = HaLightState::on().with_color_temp(150).with_rgb(7, 7, 7);
    assert!(same(&light_state_to_ha(&s), &h));
}
