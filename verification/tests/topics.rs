use myrtio_mqtt_homeassistant::ha::topic::{command_topic, config_topic, copy_within, state_topic, unique_id};

#[test]
fn config_topic_full_format() {
    let t = config_topic::<128>("light", "kitchen", "main");
    assert_eq!(t, "homeassistant/light/kitchen_main/config");
}

#[test]
fn state_topic_full_format() {
    assert_eq!(state_topic::<128>("kitchen", "main"), "kitchen/main");
}

#[test]
fn command_topic_full_format() {
    assert_eq!(command_topic::<128>("kitchen", "main"), "kitchen/main/set");
}

#[test]
fn unique_id_full_format() {
    assert_eq!(unique_id::<128>("kitchen", "main"), "kitchen_main");
}

#[test]
fn state_topic_stops_at_first_piece_that_does_not_fit() {
    // "ab" and "/" fit in 4 bytes, "xyz" does not.
    assert_eq!(state_topic::<4>("ab", "xyz"), "ab/");
    // Nothing fits.
    assert_eq!(state_topic::<1>("ab", "x"), "");
}

#[test]
fn command_topic_writes_set_on_its_own() {
    // The state topic stops after "a/", and "/set" still fits in the 6 bytes.
    assert_eq!(command_topic::<6>("a", "xyzwvu"), "a//set");
    // The state topic fits but "/set" does not.
    assert_eq!(command_topic::<5>("ab", "c"), "ab/c");
}

#[test]
fn config_topic_truncates_to_prefix() {
    let t = config_topic::<20>("light", "kitchen", "main");
    assert_eq!(t, "homeassistant/light/");
    assert!("homeassistant/light/kitchen_main/config".starts_with(t.as_str()));
}

#[test]
fn topics_count_bytes_not_chars() {
    // "é" takes two bytes: "é/" is three bytes, "é/x" four.
    assert_eq!(state_topic::<3>("é", "x"), "é/");
    assert_eq!(state_topic::<4>("é", "x"), "é/x");
}

#[test]
fn copy_within_is_all_or_nothing() {
    assert_eq!(copy_within::<5>("abcde"), "abcde");
    assert_eq!(copy_within::<4>("abcde"), "");
}

#[test]
fn command_topic_extends_state_topic() {
    let s = state_topic::<12>("dev", "entity");
    let c = command_topic::<12>("dev", "entity");
    assert!(c.starts_with(s.as_str()));
    assert_eq!(s, "dev/entity");
    assert_eq!(c, "dev/entity");
}
