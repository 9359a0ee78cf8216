//! Home Assistant MQTT integration for embedded devices.
//!
//! The crate is structured in layers:
//!
//! - **Domain layer** (`device`, `entity`): platform-independent types for devices and entities
//! - **HA wire layer** (`ha`): types matching Home Assistant's MQTT schema, topics and mappings
//! - **Module** (`mqtt_module`): `HaModule`, which keeps the registered entities and decides
//!   what to announce, what to publish and how to route incoming commands
//! - **Payloads** (`payload`): decimal text of number states and commands

pub mod device;
pub mod entity;
pub mod ha;
pub mod mqtt_module;
pub mod payload;
pub mod text;

pub use device::Device;
pub use entity::{
    ColorMode, LightCommand, LightEntity, LightRegistration, LightState, NumberEntity, NumberRegistration,
    RgbColor,
};
pub use ha::{HaDeviceInfo, HaLightCommand, HaLightDiscovery, HaLightState, HaNumberDiscovery};
pub use mqtt_module::HaModule;

use myrtio_mqtt::error::MqttError;
use vstd::prelude::*;
use vstd::string::StringExecFns;

verus! {

/// `myrtio_mqtt::error::MqttError`, carried opaquely inside [`Error::Mqtt`].
#[verifier::external_type_specification]
#[verifier::external_body]
#[verifier::reject_recursive_types(T)]
pub struct ExMqttError<T>(MqttError<T>);

/// Error type for Home Assistant operations.
#[derive(Debug)]
#[verifier::reject_recursive_types(E)]
pub enum Error<E> {
    /// MQTT communication error
    Mqtt(MqttError<E>),
    /// JSON serialization error
    Serialization,
    /// JSON deserialization error
    Deserialization,
    /// Maximum entities reached
    MaxEntitiesReached,
}

/// The debug text of an MQTT error: `format!("{:?}", e)` with the derived `Debug` of
/// `myrtio_mqtt::error::MqttError`. Nothing is claimed of the text, which depends on the
/// `Debug` of the transport error type.
#[verifier::external_body]
fn mqtt_error_debug<E: core::fmt::Debug>(e: &MqttError<E>) -> String {
    format!("{:?}", e)
}

/// Prefix of the text of an MQTT error.
pub open spec fn mqtt_error_prefix() -> Seq<char> {
    "MQTT error: "@
}

impl<E: core::fmt::Debug> Error<E> {
    /// A human-readable description of the error; for an MQTT error, `MQTT error: ` followed
    /// by the error's debug text.
    pub fn to_text(&self) -> (s: String)
        ensures
            self is Mqtt ==> mqtt_error_prefix().is_prefix_of(s@),
            self is Serialization ==> s@ == "JSON serialization error"@,
            self is Deserialization ==> s@ == "JSON deserialization error"@,
            self is MaxEntitiesReached ==> s@ == "Maximum entities reached"@,
    {
        match self {
            Error::Mqtt(e) => {
                let mut s = String::from_str("MQTT error: ");
                let d = mqtt_error_debug(e);
                s.append(d.as_str());
                assert(s@.subrange(0, mqtt_error_prefix().len() as int) =~= mqtt_error_prefix());
                s
            },
            Error::Serialization => String::from_str("JSON serialization error"),
            Error::Deserialization => String::from_str("JSON deserialization error"),
            Error::MaxEntitiesReached => String::from_str("Maximum entities reached"),
        }
    }
}

impl<E> From<MqttError<E>> for Error<E> {
    fn from(e: MqttError<E>) -> (r: Self) {
        Error::Mqtt(e)
    }
}

impl<E> vstd::std_specs::convert::FromSpecImpl<MqttError<E>> for Error<E> {
    open spec fn obeys_from_spec() -> bool {
        true
    }

    open spec fn from_spec(e: MqttError<E>) -> Self {
        Error::Mqtt(e)
    }
}

} // verus!
