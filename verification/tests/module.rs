use embassy_time::Duration;
use myrtio_mqtt_homeassistant::entity::light::{LightCommand, LightEntity, LightRegistration, LightState};
use myrtio_mqtt_homeassistant::entity::number::{NumberEntity, NumberRegistration};
use myrtio_mqtt_homeassistant::ha::command::HaLightCommand;
use myrtio_mqtt_homeassistant::mqtt_module::{Dispatch, HaModule, Outgoing, PublishQos};

type Tiny = HaModule<'static, fn() -> LightState, fn(&LightCommand), fn() -> i32, fn(i32), 1, 1, 2>;
use myrtio_mqtt_homeassistant::{Device, Error};

type Module = HaModule<'static, fn() -> LightState, fn(&LightCommand), fn() -> i32, fn(i32), 2, 1, 32>;

static DEVICE: Device<'static> = Device {
    id: "dev",
    name: "Device",
    manufacturer: None,
    model: None,
    sw_version: None,
};

fn light_state() -> LightState {
    LightState::on()
}

fn light_command(_c: &LightCommand) {}

fn number_state() -> i32 {
    -42
}

fn number_command(_v: i32) {}

fn light(id: &'static str) -> LightRegistration<'static, fn() -> LightState, fn(&LightCommand)> {
    LightRegistration {
        entity: LightEntity::new(id, "Light", &DEVICE),
        provide_state: light_state as fn() -> LightState,
        on_command: light_command as fn(&LightCommand),
    }
}

fn number(id: &'static str) -> NumberRegistration<'static, fn() -> i32, fn(i32)> {
    NumberRegistration {
        entity: NumberEntity::new(id, "Number", &DEVICE),
        provide_state: number_state as fn() -> i32,
        on_command: number_command as fn(i32),
    }
}

#[test]
fn new_module_is_empty() {
    let m = Module::new(Duration::from_secs(30));
    assert_eq!(m.light_count(), 0);
    assert_eq!(m.number_count(), 0);
    assert!(!m.needs_immediate_publish());
    assert_eq!(m.tick_interval(), Duration::from_secs(30));
    assert_eq!(m.buffer_contents(), &[0u8; 32]);
}

#[test]
fn add_until_capacity() {
    let mut m = Module::new(Duration::from_secs(1));
    assert!(m.add_light(light("a")).is_ok());
    assert!(m.add_light(light("b")).is_ok());
    assert!(matches!(m.add_light(light("c")), Err(Error::MaxEntitiesReached)));
    assert_eq!(m.light_count(), 2);
    assert!(m.add_number(number("n")).is_ok());
    assert!(matches!(m.add_number(number("m")), Err(Error::MaxEntitiesReached)));
    assert_eq!(m.number_count(), 1);
    assert_eq!(m.light_entry(1).command_topic, "dev/b/set");
    assert_eq!(m.number_entry(0).command_topic, "dev/n/set");
}

#[test]
fn command_topics_lights_then_numbers() {
    let mut m = Module::new(Duration::from_secs(1));
    m.add_number(number("n")).unwrap();
    m.add_light(light("a")).unwrap();
    assert_eq!(m.command_topics(), vec!["dev/a/set", "dev/n/set"]);
}

#[test]
fn light_command_is_routed_to_first_matching_light() {
    let mut m = Module::new(Duration::from_secs(1));
    m.add_light(light("a")).unwrap();
    m.add_light(light("a")).unwrap();
    let mut cmd = HaLightCommand::default();
    cmd.state = Some("ON");
    match m.on_message("dev/a/set", b"{\"state\":\"ON\"}", Some(cmd)) {
        Dispatch::Light { index, command } => {
            assert_eq!(index, 0);
            assert!(command.is_on());
        },
        _ => panic!("expected a light"),
    }
    assert!(m.needs_immediate_publish());
}

#[test]
fn number_command_is_routed_with_its_value() {
    let mut m = Module::new(Duration::from_secs(1));
    m.add_light(light("a")).unwrap();
    m.add_number(number("n")).unwrap();
    match m.on_message("dev/n/set", b" 17 ", None) {
        Dispatch::Number { index, value } => {
            assert_eq!(index, 0);
            assert_eq!(value, 17);
        },
        _ => panic!("expected a number"),
    }
    assert!(m.needs_immediate_publish());
}

#[test]
fn unhandled_messages_are_ignored() {
    let mut m = Module::new(Duration::from_secs(1));
    m.add_light(light("a")).unwrap();
    m.add_number(number("n")).unwrap();
    // Unknown topic.
    assert!(matches!(m.on_message("dev/x/set", b"1", None), Dispatch::Ignored));
    // A light topic without a light command.
    assert!(matches!(m.on_message("dev/a/set", b"garbage", None), Dispatch::Ignored));
    // A number topic with a payload that is not a number.
    assert!(matches!(m.on_message("dev/n/set", b"1.5", None), Dispatch::Ignored));
    // A light command on a number topic only reaches numbers.
    assert!(matches!(m.on_message("dev/n/set", b"x", Some(HaLightCommand::default())), Dispatch::Ignored));
    assert!(!m.needs_immediate_publish());
}

#[test]
fn tick_clears_pending_and_lists_publications() {
    let mut m = Module::new(Duration::from_secs(5));
    m.add_light(light("a")).unwrap();
    m.add_number(number("n")).unwrap();
    let _ = m.on_message("dev/n/set", b"3", None);
    assert!(m.needs_immediate_publish());
    let (interval, plan) = m.on_tick();
    assert_eq!(interval, Duration::from_secs(5));
    assert!(!m.needs_immediate_publish());
    assert_eq!(
        plan,
        vec![Outgoing::LightDiscovery(0), Outgoing::NumberDiscovery(0), Outgoing::LightState(0), Outgoing::NumberState(0)]
    );
    assert_eq!(plan[0].qos(), PublishQos::AtLeastOnce);
    assert_eq!(plan[1].qos(), PublishQos::AtLeastOnce);
    assert_eq!(plan[2].qos(), PublishQos::AtMostOnce);
    assert_eq!(plan[3].qos(), PublishQos::AtMostOnce);
    assert_eq!(m.on_start(), plan);
}

#[test]
fn number_state_is_formatted_into_the_buffer_and_reads_back() {
    let mut m = Module::new(Duration::from_secs(1));
    m.add_number(number("n")).unwrap();
    let value = (m.number_entry(0).provide_state)();
    let n = m.format_number_state(value).unwrap();
    assert_eq!(&m.buffer_contents()[..n], b"-42");
    let payload: Vec<u8> = m.buffer_contents()[..n].to_vec();
    match m.on_message("dev/n/set", &payload, None) {
        Dispatch::Number { value: v, .. } => assert_eq!(v, -42),
        _ => panic!("expected a number"),
    }
}

#[test]
fn error_texts() {
    assert_eq!(Error::<()>::MaxEntitiesReached.to_text(), "Maximum entities reached");
    assert_eq!(Error::<()>::Serialization.to_text(), "JSON serialization error");
    assert_eq!(Error::<()>::Deserialization.to_text(), "JSON deserialization error");
    let e: Error<()> = myrtio_mqtt::error::MqttError::Timeout.into();
    assert_eq!(e.to_text(), "MQTT error: Timeout");
    let e: Error<()> = myrtio_mqtt::error::MqttError::BufferTooSmall.into();
    assert_eq!(e.to_text(), "MQTT error: BufferTooSmall");
}

#[test]
fn number_state_that_does_not_fit_is_skipped() {
    let mut m = Tiny::new(Duration::from_secs(1));
    m.add_number(number("n")).unwrap();
    assert_eq!(m.format_number_state(1234), None);
    assert_eq!(m.buffer_contents(), &[0u8, 0u8]);
    assert_eq!(m.format_number_state(-5), Some(2));
    assert_eq!(m.buffer_contents(), b"-5");
    assert_eq!(m.format_number_state(-10), None);
}

#[test]
fn publication_topics() {
    let mut m = Module::new(Duration::from_secs(1));
    m.add_light(light("a")).unwrap();
    m.add_number(number("n")).unwrap();
    let plan = m.on_start();
    let topics: Vec<String> = plan.iter().map(|o| m.outgoing_topic(*o)).collect();
    assert_eq!(
        topics,
        vec![
            "homeassistant/light/dev_a/config".to_string(),
            "homeassistant/number/dev_n/config".to_string(),
            "dev/a".to_string(),
            "dev/n".to_string(),
        ]
    );
}

#[test]
fn discovery_payloads_of_entries() {
    let mut m = Module::new(Duration::from_secs(1));
    m.add_light(light("a")).unwrap();
    m.add_number(number("n")).unwrap();
    let ctx = m.light_discovery_context(0);
    assert_eq!(ctx.config_topic, "homeassistant/light/dev_a/config");
    let ids = [ctx.identifier.as_str()];
    let d = m.light_discovery(0, &ctx, &ids);
    assert_eq!(d.unique_id, "dev_a");
    assert_eq!(d.command_topic, "dev/a/set");
    assert_eq!(d.device.identifiers, &["dev"]);
    let nctx = m.number_discovery_context(0);
    assert_eq!(nctx.config_topic, "homeassistant/number/dev_n/config");
    let nids = [nctx.identifier.as_str()];
    let nd = m.number_discovery(0, &nctx, &nids);
    assert_eq!(nd.state_topic, "dev/n");
    assert_eq!((nd.min, nd.max), (0, 100));
}

#[test]
fn pending_follows_the_last_tick() {
    let mut m = Module::new(Duration::from_secs(1));
    m.add_number(number("n")).unwrap();
    assert!(!m.needs_immediate_publish());
    let _ = m.on_message("dev/n/set", b"1", None);
    let _ = m.on_message("dev/x/set", b"1", None);
    assert!(m.needs_immediate_publish());
    let _ = m.on_tick();
    let _ = m.on_start();
    let _ = m.on_message("dev/n/set", b"oops", None);
    assert!(!m.needs_immediate_publish());
    let _ = m.on_message("dev/n/set", b"2", None);
    assert!(m.needs_immediate_publish());
}
