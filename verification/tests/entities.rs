use myrtio_mqtt_homeassistant::entity::light::{ColorMode, LightCommand, LightEntity, LightState, RgbColor};
use myrtio_mqtt_homeassistant::entity::number::NumberEntity;
use myrtio_mqtt_homeassistant::ha::command::HaLightCommand;
use myrtio_mqtt_homeassistant::ha::discovery::is_false;
use myrtio_mqtt_homeassistant::ha::state::{HaLightState, HaRgbColor};
use myrtio_mqtt_homeassistant::Device;

#[test]
fn device_builders() {
    let d = Device::new("kitchen_light", "Kitchen Main Light")
        .with_manufacturer("Myrtio")
        .with_model("Light Controller v1")
        .with_sw_version("1.0");
    assert_eq!(d.id, "kitchen_light");
    assert_eq!(d.name, "Kitchen Main Light");
    assert_eq!(d.manufacturer, Some("Myrtio"));
    assert_eq!(d.model, Some("Light Controller v1"));
    assert_eq!(d.sw_version, Some("1.0"));
    let bare = Device::new("a", "b");
    assert_eq!(bare.manufacturer, None);
    assert_eq!(bare.model, None);
    assert_eq!(bare.sw_version, None);
}

#[test]
fn color_mode_names() {
    assert_eq!(ColorMode::Rgb.as_str(), "rgb");
    assert_eq!(ColorMode::ColorTemp.as_str(), "color_temp");
    assert_eq!(ColorMode::Brightness.as_str(), "brightness");
    assert_eq!(ColorMode::OnOff.as_str(), "onoff");
}

#[test]
fn light_entity_defaults_and_builders() {
    let d = Device::new("dev", "Dev");
    let modes = [ColorMode::Rgb, ColorMode::ColorTemp];
    let effects = ["rainbow", "blink"];
    let e = LightEntity::new("main", "Main Light", &d);
    assert!(e.brightness);
    assert!(e.color_modes.is_empty());
    assert!(e.effects.is_none());
    assert!(!e.optimistic);
    assert_eq!(e.icon, None);
    let e = e
        .with_icon("mdi:lightbulb")
        .with_brightness(false)
        .with_color_modes(&modes)
        .with_effects(&effects)
        .with_kelvin_range(2700, 6500)
        .with_optimistic(true);
    assert_eq!(e.icon, Some("mdi:lightbulb"));
    assert!(!e.brightness);
    assert_eq!(e.color_modes, &modes);
    assert_eq!(e.effects, Some(&effects[..]));
    assert_eq!(e.min_kelvin, Some(2700));
    assert_eq!(e.max_kelvin, Some(6500));
    assert!(e.optimistic);
}

#[test]
fn light_state_builders() {
    let s = LightState::on().with_brightness(255).with_rgb(1, 2, 3).with_effect("rainbow");
    assert!(s.is_on);
    assert_eq!(s.brightness, Some(255));
    assert_eq!(s.color, Some(RgbColor::new(1, 2, 3)));
    assert_eq!(s.color_mode, Some(ColorMode::Rgb));
    assert_eq!(s.effect, Some("rainbow"));
    let t = LightState::off().with_color_temp(300);
    assert!(!t.is_on);
    assert_eq!(t.color_temp, Some(300));
    assert_eq!(t.color_mode, Some(ColorMode::ColorTemp));
    assert_eq!(t.color, None);
}

#[test]
fn light_command_on_off() {
    let mut c = LightCommand::default();
    assert!(!c.is_on() && !c.is_off());
    c.state = Some(true);
    assert!(c.is_on() && !c.is_off());
    c.state = Some(false);
    assert!(!c.is_on() && c.is_off());
}

#[test]
fn ha_light_command_on_off() {
    let mut c = HaLightCommand::default();
    assert!(!c.is_on() && !c.is_off());
    c.state = Some("ON");
    assert!(c.is_on() && !c.is_off());
    c.state = Some("OFF");
    assert!(!c.is_on() && c.is_off());
    c.state = Some("on");
    assert!(!c.is_on() && !c.is_off());
}

#[test]
fn ha_light_state_builders() {
    let s = HaLightState::on().with_brightness(10).with_color_temp(250).with_effect("fade");
    assert_eq!(s.state, "ON");
    assert_eq!(s.brightness, Some(10));
    assert_eq!(s.color_temp, Some(250));
    assert_eq!(s.color_mode, Some("color_temp"));
    assert_eq!(s.effect, Some("fade"));
    let t = HaLightState::off().with_rgb(4, 5, 6);
    assert_eq!(t.state, "OFF");
    assert_eq!(t.color_mode, Some("rgb"));
    let c = t.color.unwrap();
    let expected = HaRgbColor::new(4, 5, 6);
    assert_eq!((c.r, c.g, c.b), (expected.r, expected.g, expected.b));
}

#[test]
fn number_entity_defaults_and_builders() {
    let d = Device::new("dev", "Dev");
    let n = NumberEntity::new("level", "Level", &d);
    assert_eq!((n.min, n.max), (0, 100));
    assert_eq!(n.step, None);
    let n = n
        .with_icon("mdi:speedometer")
        .with_device_class("temperature")
        .with_unit("%")
        .with_range(-10, 40)
        .with_step(0.5f32.to_bits())
        .with_mode("slider");
    assert_eq!(n.icon, Some("mdi:speedometer"));
    assert_eq!(n.device_class, Some("temperature"));
    assert_eq!(n.unit, Some("%"));
    assert_eq!((n.min, n.max), (-10, 40));
    assert_eq!(n.step.map(f32::from_bits), Some(0.5));
    assert_eq!(n.mode, Some("slider"));
}

#[test]
fn false_flags_are_skipped() {
    assert!(is_false(&false));
    assert!(!is_false(&true));
}
