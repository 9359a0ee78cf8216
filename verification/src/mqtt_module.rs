//! The Home Assistant module: the registered entities, and the decisions of the MQTT
//! integration. It registers the command topics, routes incoming commands to the entity
//! they address, and lists what each start and tick publishes: discovery configs first
//! (at least once), then states (at most once).
//!
//! For each publication it gives the topic ([`HaModule::outgoing_topic`]) and what goes into
//! the payload: the discovery payload of the entity, the wire state of a light, or the
//! decimal text of a number, which is skipped when it does not fit in the buffer. The MQTT
//! runtime, the callbacks and JSON encoding stand outside this module: whoever drives it
//! performs the calls, the encoding and the publishing.

use crate::entity::light::{LightCommand, LightEntity, LightRegistration};
use crate::entity::number::{NumberEntity, NumberRegistration};
use crate::ha::command::HaLightCommand;
use crate::ha::discovery::{HaDeviceInfo, HaLightDiscovery, HaNumberDiscovery};
use crate::ha::mapping::{
    ha_command_to_light, law_command_fields_carried, light_to_discovery, listed_color_modes, number_to_discovery,
    spec_ha_command_to_light,
    spec_identifier, LightDiscoveryContext, NumberDiscoveryContext,
};
use crate::ha::topic::{
    command_topic, config_topic, spec_command_topic, spec_config_topic, spec_state_topic, spec_unique_id, state_topic,
};
use crate::payload::{
    format_i32, i32_text, i32_text_len, law_number_text_reads_back, parse_number_payload, spec_number_payload,
};
use crate::text::str_equal;
use crate::Error;
use embassy_time::Duration;
use vstd::prelude::*;

verus! {

/// `embassy_time::Duration`, carried opaquely as the tick interval.
#[verifier::external_type_specification]
#[verifier::external_body]
pub struct ExDuration(Duration);

/// Maximum length, in bytes, of a topic string.
pub const MAX_TOPIC_LEN: usize = 128;

/// A registered light with its precomputed command topic.
pub struct LightEntry<'a, S, C> {
    pub entity: LightEntity<'a>,
    pub command_topic: String,
    pub provide_state: S,
    pub on_command: C,
}

/// A registered number with its precomputed command topic.
pub struct NumberEntry<'a, S, C> {
    pub entity: NumberEntity<'a>,
    pub command_topic: String,
    pub provide_state: S,
    pub on_command: C,
}

/// The command topic that the module computes for an entity of `device_id` and `id`.
pub open spec fn entry_topic(device_id: Seq<char>, id: Seq<char>) -> Seq<char> {
    spec_command_topic(device_id, id, MAX_TOPIC_LEN as nat)
}

/// `i` is the first index of `topics` that holds `topic`.
pub open spec fn is_first_match(topics: Seq<Seq<char>>, topic: Seq<char>, i: int) -> bool {
    &&& 0 <= i < topics.len()
    &&& topics[i] == topic
    &&& forall|j: int| 0 <= j < i ==> topics[j] != topic
}

/// Some index of `topics` holds `topic`.
pub open spec fn has_match(topics: Seq<Seq<char>>, topic: Seq<char>) -> bool {
    exists|i: int| 0 <= i < topics.len() && topics[i] == topic
}

/// A light handles a message on `topic`: the payload is a light command and some light
/// has `topic` as its command topic.
pub open spec fn light_handles(light_topics: Seq<Seq<char>>, topic: Seq<char>, light_command: Option<HaLightCommand>) -> bool {
    light_command is Some && has_match(light_topics, topic)
}

/// A number handles a message on `topic`: the payload is a number and some number has
/// `topic` as its command topic.
pub open spec fn number_handles(number_topics: Seq<Seq<char>>, topic: Seq<char>, payload: Seq<u8>) -> bool {
    spec_number_payload(payload) is Some && has_match(number_topics, topic)
}

/// `d` hands the converted light command to the first light with command topic `topic`.
pub open spec fn routed_to_light<'p>(
    light_topics: Seq<Seq<char>>,
    topic: Seq<char>,
    light_command: Option<HaLightCommand<'p>>,
    d: Dispatch<'p>,
) -> bool {
    &&& d is Light
    &&& is_first_match(light_topics, topic, d->Light_index as int)
    &&& d->Light_command == spec_ha_command_to_light(light_command->0)
}

/// `d` hands the payload's value to the first number with command topic `topic`.
pub open spec fn routed_to_number(number_topics: Seq<Seq<char>>, topic: Seq<char>, payload: Seq<u8>, d: Dispatch) -> bool {
    &&& d is Number
    &&& is_first_match(number_topics, topic, d->Number_index as int)
    &&& Some(d->Number_value) == spec_number_payload(payload)
}

/// What an incoming message leads to.
pub enum Dispatch<'p> {
    /// The light at `index` handles `command`.
    Light { index: usize, command: LightCommand<'p> },
    /// The number at `index` handles `value`.
    Number { index: usize, value: i32 },
    /// No entity handles the message.
    Ignored,
}

/// Quality of service of a publication.
#[derive(Debug, Clone, Copy, PartialEq, Eq, Structural)]
pub enum PublishQos {
    /// Sent once, without acknowledgement (QoS 0).
    AtMostOnce,
    /// Acknowledged, possibly sent more than once (QoS 1).
    AtLeastOnce,
}

/// One publication of a start or a tick.
#[derive(Debug, Clone, Copy, PartialEq, Eq, Structural)]
pub enum Outgoing {
    /// Discovery config of the light at this index.
    LightDiscovery(usize),
    /// Discovery config of the number at this index.
    NumberDiscovery(usize),
    /// State of the light at this index.
    LightState(usize),
    /// State of the number at this index.
    NumberState(usize),
}

/// The quality of service of a publication: discovery configs at least once, states at
/// most once.
pub open spec fn spec_qos(o: Outgoing) -> PublishQos {
    match o {
        Outgoing::LightDiscovery(_) | Outgoing::NumberDiscovery(_) => PublishQos::AtLeastOnce,
        Outgoing::LightState(_) | Outgoing::NumberState(_) => PublishQos::AtMostOnce,
    }
}

impl Outgoing {
    /// The quality of service of this publication.
    pub fn qos(&self) -> (q: PublishQos)
        ensures
            q == spec_qos(*self),
    {
        match self {
            Outgoing::LightDiscovery(_) | Outgoing::NumberDiscovery(_) => PublishQos::AtLeastOnce,
            Outgoing::LightState(_) | Outgoing::NumberState(_) => PublishQos::AtMostOnce,
        }
    }
}

/// The publications of a start or a tick with `nl` lights and `nn` numbers: the discovery
/// configs of all lights, then of all numbers, then the states of all lights, then of all
/// numbers, each in order of registration.
pub open spec fn spec_publish_plan(nl: nat, nn: nat) -> Seq<Outgoing> {
    Seq::new(nl, |i: int| Outgoing::LightDiscovery(i as usize)) + Seq::new(nn, |i: int| Outgoing::NumberDiscovery(i as usize))
        + Seq::new(nl, |i: int| Outgoing::LightState(i as usize)) + Seq::new(nn, |i: int| Outgoing::NumberState(i as usize))
}

/// An operation on the module, as far as the pending immediate publish is concerned.
#[derive(Debug, Clone, Copy, PartialEq, Eq, Structural)]
pub enum ModuleEvent {
    /// A light or number registration (accepted or refused).
    Registration,
    /// An incoming message, which an entity handled or not.
    Message { handled: bool },
    /// A tick.
    Tick,
    /// Anything that only reads the module (registering topics, starting, querying).
    Read,
}

/// Whether an immediate publish is pending after `e`, when `pending` was before: a handled
/// message sets it, a tick clears it, everything else keeps it.
pub open spec fn pending_after_event(pending: bool, e: ModuleEvent) -> bool {
    match e {
        ModuleEvent::Message { handled } => pending || handled,
        ModuleEvent::Tick => false,
        _ => pending,
    }
}

/// Whether an immediate publish is pending after `events`, in order, from `pending`.
pub open spec fn pending_after(pending: bool, events: Seq<ModuleEvent>) -> bool
    decreases events.len(),
{
    if events.len() == 0 {
        pending
    } else {
        pending_after_event(pending_after(pending, events.drop_last()), events.last())
    }
}

/// Some message of `events` was handled, and no tick came after it: scanning back from the
/// last event, a handled message comes before any tick.
pub open spec fn handled_since_last_tick(events: Seq<ModuleEvent>) -> bool
    decreases events.len(),
{
    if events.len() == 0 {
        false
    } else if events.last() == ModuleEvent::Tick {
        false
    } else if events.last() == (ModuleEvent::Message { handled: true }) {
        true
    } else {
        handled_since_last_tick(events.drop_last())
    }
}

/// `events` holds no tick.
pub open spec fn no_tick(events: Seq<ModuleEvent>) -> bool {
    forall|j: int| 0 <= j < events.len() ==> events[j] != ModuleEvent::Tick
}

/// Builds [`spec_publish_plan`] for `nl` lights and `nn` numbers.
pub fn publish_plan(nl: usize, nn: usize) -> (plan: Vec<Outgoing>)
    ensures
        plan@ == spec_publish_plan(nl as nat, nn as nat),
{
    let mut plan: Vec<Outgoing> = Vec::new();
    let mut i: usize = 0;
    while i < nl
        invariant
            i <= nl,
            plan@ == Seq::new(i as nat, |k: int| Outgoing::LightDiscovery(k as usize)),
        decreases nl - i,
    {
        plan.push(Outgoing::LightDiscovery(i));
        i = i + 1;
        assert(plan@ =~= Seq::new(i as nat, |k: int| Outgoing::LightDiscovery(k as usize)));
    }
    let ghost p1 = plan@;
    let mut i: usize = 0;
    while i < nn
        invariant
            i <= nn,
            plan@ == p1 + Seq::new(i as nat, |k: int| Outgoing::NumberDiscovery(k as usize)),
        decreases nn - i,
    {
        plan.push(Outgoing::NumberDiscovery(i));
        i = i + 1;
        assert(plan@ =~= p1 + Seq::new(i as nat, |k: int| Outgoing::NumberDiscovery(k as usize)));
    }
    let ghost p2 = plan@;
    let mut i: usize = 0;
    while i < nl
        invariant
            i <= nl,
            plan@ == p2 + Seq::new(i as nat, |k: int| Outgoing::LightState(k as usize)),
        decreases nl - i,
    {
        plan.push(Outgoing::LightState(i));
        i = i + 1;
        assert(plan@ =~= p2 + Seq::new(i as nat, |k: int| Outgoing::LightState(k as usize)));
    }
    let ghost p3 = plan@;
    let mut i: usize = 0;
    while i < nn
        invariant
            i <= nn,
            plan@ == p3 + Seq::new(i as nat, |k: int| Outgoing::NumberState(k as usize)),
        decreases nn - i,
    {
        plan.push(Outgoing::NumberState(i));
        i = i + 1;
        assert(plan@ =~= p3 + Seq::new(i as nat, |k: int| Outgoing::NumberState(k as usize)));
    }
    plan
}

/// Home Assistant MQTT module.
///
/// Holds up to `MAX_LIGHTS` lights and `MAX_NUMBERS` numbers, each with its callbacks
/// (`LS` and `LC` for lights, `NS` and `NC` for numbers), a buffer of `BUF_SIZE` bytes
/// for payloads, the tick interval, and whether a command asked for an immediate publish.
pub struct HaModule<'a, LS, LC, NS, NC, const MAX_LIGHTS: usize, const MAX_NUMBERS: usize, const BUF_SIZE: usize> {
    lights: Vec<LightEntry<'a, LS, LC>>,
    numbers: Vec<NumberEntry<'a, NS, NC>>,
    buf: Vec<u8>,
    tick_interval: Duration,
    needs_publish: bool,
}

impl<'a, LS, LC, NS, NC, const MAX_LIGHTS: usize, const MAX_NUMBERS: usize, const BUF_SIZE: usize> HaModule<
    'a,
    LS,
    LC,
    NS,
    NC,
    MAX_LIGHTS,
    MAX_NUMBERS,
    BUF_SIZE,
> {
    /// The registered lights, in order of registration.
    pub closed spec fn lights(&self) -> Seq<LightEntry<'a, LS, LC>> {
        self.lights@
    }

    /// The registered numbers, in order of registration.
    pub closed spec fn numbers(&self) -> Seq<NumberEntry<'a, NS, NC>> {
        self.numbers@
    }

    /// The payload buffer.
    pub closed spec fn buffer(&self) -> Seq<u8> {
        self.buf@
    }

    /// The tick interval.
    pub closed spec fn interval(&self) -> Duration {
        self.tick_interval
    }

    /// Whether a handled command asks for an immediate publish.
    pub closed spec fn pending(&self) -> bool {
        self.needs_publish
    }

    /// The command topics of the registered lights, in order.
    pub open spec fn light_topics(&self) -> Seq<Seq<char>> {
        self.lights().map_values(|e: LightEntry<'a, LS, LC>| e.command_topic@)
    }

    /// The command topics of the registered numbers, in order.
    pub open spec fn number_topics(&self) -> Seq<Seq<char>> {
        self.numbers().map_values(|e: NumberEntry<'a, NS, NC>| e.command_topic@)
    }

    /// The module's invariant: within its capacities, and each entry's command topic
    /// computed from its entity.
    pub open spec fn wf(&self) -> bool {
        &&& self.lights().len() <= MAX_LIGHTS
        &&& self.numbers().len() <= MAX_NUMBERS
        &&& forall|i: int|
            0 <= i < self.lights().len() ==> (#[trigger] self.lights()[i]).command_topic@ == entry_topic(
                self.lights()[i].entity.device.id@,
                self.lights()[i].entity.id@,
            )
        &&& forall|i: int|
            0 <= i < self.numbers().len() ==> (#[trigger] self.numbers()[i]).command_topic@ == entry_topic(
                self.numbers()[i].entity.device.id@,
                self.numbers()[i].entity.id@,
            )
    }

    /// Creates a module with no entities that ticks every `tick_interval`.
    pub fn new(tick_interval: Duration) -> (m: Self)
        ensures
            m.wf(),
            m.buffer().len() == BUF_SIZE,
            m.lights().len() == 0,
            m.numbers().len() == 0,
            m.buffer() == Seq::new(BUF_SIZE as nat, |i: int| 0u8),
            m.interval() == tick_interval,
            !m.pending(),
    {
        let mut buf: Vec<u8> = Vec::new();
        let mut i: usize = 0;
        while i < BUF_SIZE
            invariant
                i <= BUF_SIZE,
                buf@ == Seq::new(i as nat, |k: int| 0u8),
            decreases BUF_SIZE - i,
        {
            buf.push(0u8);
            i = i + 1;
            assert(buf@ =~= Seq::new(i as nat, |k: int| 0u8));
        }
        HaModule { lights: Vec::new(), numbers: Vec::new(), buf, tick_interval, needs_publish: false }
    }

    /// Adds a light registration, with its command topic computed once here.
    ///
    /// Returns `Err(Error::MaxEntitiesReached)`, and keeps the module as it was, when
    /// `MAX_LIGHTS` lights are already registered.
    pub fn add_light(&mut self, reg: LightRegistration<'a, LS, LC>) -> (r: Result<(), Error<()>>)
        requires
            old(self).wf(),
        ensures
            final(self).wf(),
            old(self).lights().len() < MAX_LIGHTS ==> {
                &&& r is Ok
                &&& final(self).lights().len() == old(self).lights().len() + 1
                &&& final(self).lights().subrange(0, old(self).lights().len() as int) == old(self).lights()
                &&& final(self).lights().last().entity == reg.entity
                &&& final(self).lights().last().command_topic@ == entry_topic(reg.entity.device.id@, reg.entity.id@)
                &&& final(self).lights().last().provide_state == reg.provide_state
                &&& final(self).lights().last().on_command == reg.on_command
            },
            old(self).lights().len() >= MAX_LIGHTS ==> {
                &&& r matches Err(Error::MaxEntitiesReached)
                &&& final(self).lights() == old(self).lights()
            },
            final(self).numbers() == old(self).numbers(),
            final(self).buffer() == old(self).buffer(),
            final(self).interval() == old(self).interval(),
            final(self).pending() == pending_after_event(old(self).pending(), ModuleEvent::Registration),
    {
        let command_topic = command_topic::<MAX_TOPIC_LEN>(reg.entity.device.id, reg.entity.id);
        if self.lights.len() < MAX_LIGHTS {
            let ghost before = self.lights@;
            self.lights.push(
                LightEntry {
                    entity: reg.entity,
                    command_topic,
                    provide_state: reg.provide_state,
                    on_command: reg.on_command,
                },
            );
            assert(self.lights@.subrange(0, before.len() as int) =~= before);
            assert forall|i: int| 0 <= i < self.lights@.len() implies (#[trigger] self.lights@[i]).command_topic@
                == entry_topic(self.lights@[i].entity.device.id@, self.lights@[i].entity.id@) by {
                if i < before.len() {
                    assert(self.lights@[i] == before[i]);
                }
            }
            Ok(())
        } else {
            Err(Error::MaxEntitiesReached)
        }
    }

    /// Adds a number registration, with its command topic computed once here.
    ///
    /// Returns `Err(Error::MaxEntitiesReached)`, and keeps the module as it was, when
    /// `MAX_NUMBERS` numbers are already registered.
    pub fn add_number(&mut self, reg: NumberRegistration<'a, NS, NC>) -> (r: Result<(), Error<()>>)
        requires
            old(self).wf(),
        ensures
            final(self).wf(),
            old(self).numbers().len() < MAX_NUMBERS ==> {
                &&& r is Ok
                &&& final(self).numbers().len() == old(self).numbers().len() + 1
                &&& final(self).numbers().subrange(0, old(self).numbers().len() as int) == old(self).numbers()
                &&& final(self).numbers().last().entity == reg.entity
                &&& final(self).numbers().last().command_topic@ == entry_topic(reg.entity.device.id@, reg.entity.id@)
                &&& final(self).numbers().last().provide_state == reg.provide_state
                &&& final(self).numbers().last().on_command == reg.on_command
            },
            old(self).numbers().len() >= MAX_NUMBERS ==> {
                &&& r matches Err(Error::MaxEntitiesReached)
                &&& final(self).numbers() == old(self).numbers()
            },
            final(self).lights() == old(self).lights(),
            final(self).buffer() == old(self).buffer(),
            final(self).interval() == old(self).interval(),
            final(self).pending() == pending_after_event(old(self).pending(), ModuleEvent::Registration),
    {
        let command_topic = command_topic::<MAX_TOPIC_LEN>(reg.entity.device.id, reg.entity.id);
        if self.numbers.len() < MAX_NUMBERS {
            let ghost before = self.numbers@;
            self.numbers.push(
                NumberEntry {
                    entity: reg.entity,
                    command_topic,
                    provide_state: reg.provide_state,
                    on_command: reg.on_command,
                },
            );
            assert(self.numbers@.subrange(0, before.len() as int) =~= before);
            assert forall|i: int| 0 <= i < self.numbers@.len() implies (#[trigger] self.numbers@[i]).command_topic@
                == entry_topic(self.numbers@[i].entity.device.id@, self.numbers@[i].entity.id@) by {
                if i < before.len() {
                    assert(self.numbers@[i] == before[i]);
                }
            }
            Ok(())
        } else {
            Err(Error::MaxEntitiesReached)
        }
    }

    /// Routes an incoming message on `topic` with `payload`. `light_command` is the payload
    /// read as a light command, when it reads as one.
    ///
    /// The first light whose command topic is `topic` handles the message when the payload
    /// is a light command; otherwise the first number whose command topic is `topic` handles
    /// it when the payload is a number (see [`parse_number_payload`]); otherwise nothing
    /// does. A handled message asks for an immediate publish.
    pub fn on_message<'p>(&mut self, topic: &str, payload: &[u8], light_command: Option<HaLightCommand<'p>>) -> (d:
        Dispatch<'p>)
        requires
            old(self).wf(),
        ensures
            final(self).wf(),
            final(self).lights() == old(self).lights(),
            final(self).numbers() == old(self).numbers(),
            final(self).buffer() == old(self).buffer(),
            final(self).interval() == old(self).interval(),
            final(self).pending() == pending_after_event(
                old(self).pending(),
                ModuleEvent::Message { handled: !(d is Ignored) },
            ),
            light_handles(old(self).light_topics(), topic@, light_command) ==> routed_to_light(
                old(self).light_topics(),
                topic@,
                light_command,
                d,
            ),
            !light_handles(old(self).light_topics(), topic@, light_command) && number_handles(
                old(self).number_topics(),
                topic@,
                payload@,
            ) ==> routed_to_number(old(self).number_topics(), topic@, payload@, d),
            !light_handles(old(self).light_topics(), topic@, light_command) && !number_handles(
                old(self).number_topics(),
                topic@,
                payload@,
            ) ==> d is Ignored,
    {
        if let Some(cmd) = &light_command {
            let mut i: usize = 0;
            while i < self.lights.len()
                invariant
                    i <= self.lights@.len(),
                    *self == *old(self),
                    old(self).wf(),
                    light_command == Some(*cmd),
                    forall|k: int| 0 <= k < i ==> self.light_topics()[k] != topic@,
                decreases self.lights@.len() - i,
            {
                if str_equal(self.lights[i].command_topic.as_str(), topic) {
                    assert(self.light_topics()[i as int] == topic@);
                    assert(has_match(self.light_topics(), topic@));
                    self.needs_publish = true;
                    let command = ha_command_to_light(cmd);
                    return Dispatch::Light { index: i, command };
                }
                i = i + 1;
            }
        }
        let mut j: usize = 0;
        while j < self.numbers.len()
            invariant
                j <= self.numbers@.len(),
                *self == *old(self),
                old(self).wf(),
                !light_handles(old(self).light_topics(), topic@, light_command),
                forall|k: int| 0 <= k < j ==> self.number_topics()[k] != topic@,
            decreases self.numbers@.len() - j,
        {
            if str_equal(self.numbers[j].command_topic.as_str(), topic) {
                assert(self.number_topics()[j as int] == topic@);
                assert(has_match(self.number_topics(), topic@));
                match parse_number_payload(payload) {
                    Some(value) => {
                        self.needs_publish = true;
                        return Dispatch::Number { index: j, value };
                    },
                    None => {
                        return Dispatch::Ignored;
                    },
                }
            }
            j = j + 1;
        }
        Dispatch::Ignored
    }

    /// The publications of a start: see [`spec_publish_plan`].
    pub fn on_start(&self) -> (plan: Vec<Outgoing>)
        requires
            self.wf(),
        ensures
            plan@ == spec_publish_plan(self.lights().len(), self.numbers().len()),
    {
        publish_plan(self.lights.len(), self.numbers.len())
    }

    /// Starts a tick: the pending immediate publish is cleared, and the publications of the
    /// tick (see [`spec_publish_plan`]) and the interval until the next tick are returned.
    pub fn on_tick(&mut self) -> (r: (Duration, Vec<Outgoing>))
        requires
            old(self).wf(),
        ensures
            final(self).wf(),
            final(self).pending() == pending_after_event(old(self).pending(), ModuleEvent::Tick),
            final(self).lights() == old(self).lights(),
            final(self).numbers() == old(self).numbers(),
            final(self).buffer() == old(self).buffer(),
            final(self).interval() == old(self).interval(),
            r.0 == old(self).interval(),
            r.1@ == spec_publish_plan(old(self).lights().len(), old(self).numbers().len()),
    {
        self.needs_publish = false;
        let plan = publish_plan(self.lights.len(), self.numbers.len());
        (self.tick_interval, plan)
    }

    /// Whether a handled command asks for an immediate publish.
    pub fn needs_immediate_publish(&self) -> (b: bool)
        ensures
            b == self.pending(),
    {
        self.needs_publish
    }

    /// The tick interval.
    pub fn tick_interval(&self) -> (d: Duration)
        ensures
            d == self.interval(),
    {
        self.tick_interval
    }

    /// Number of registered lights.
    pub fn light_count(&self) -> (n: usize)
        ensures
            n == self.lights().len(),
    {
        self.lights.len()
    }

    /// Number of registered numbers.
    pub fn number_count(&self) -> (n: usize)
        ensures
            n == self.numbers().len(),
    {
        self.numbers.len()
    }

    /// The light registered at position `i`.
    pub fn light_entry(&self, i: usize) -> (e: &LightEntry<'a, LS, LC>)
        requires
            i < self.lights().len(),
        ensures
            *e == self.lights()[i as int],
    {
        &self.lights[i]
    }

    /// The number registered at position `i`.
    pub fn number_entry(&self, i: usize) -> (e: &NumberEntry<'a, NS, NC>)
        requires
            i < self.numbers().len(),
        ensures
            *e == self.numbers()[i as int],
    {
        &self.numbers[i]
    }

    /// Writes the decimal text of a number's state `value` at the start of the payload
    /// buffer and returns its length; when the text does not fit in the buffer, nothing is
    /// written and `None` is returned, so that the publication is skipped.
    pub fn format_number_state(&mut self, value: i32) -> (n: Option<usize>)
        requires
            old(self).wf(),
        ensures
            final(self).wf(),
            final(self).buffer().len() == old(self).buffer().len(),
            n is Some <==> i32_text(value).len() <= old(self).buffer().len(),
            n matches Some(k) ==> {
                &&& k == i32_text(value).len()
                &&& final(self).buffer().subrange(0, k as int) == i32_text(value)
                &&& final(self).buffer().subrange(k as int, old(self).buffer().len() as int)
                    == old(self).buffer().subrange(k as int, old(self).buffer().len() as int)
            },
            n is None ==> final(self).buffer() == old(self).buffer(),
            final(self).lights() == old(self).lights(),
            final(self).numbers() == old(self).numbers(),
            final(self).interval() == old(self).interval(),
            final(self).pending() == old(self).pending(),
    {
        let len = i32_text_len(value);
        if len <= self.buf.len() {
            let n = format_i32(value, self.buf.as_mut_slice());
            assert(i32_text(value).subrange(0, n as int) =~= i32_text(value));
            Some(n)
        } else {
            None
        }
    }

    /// The payload buffer.
    pub fn buffer_contents(&self) -> (b: &[u8])
        ensures
            b@ == self.buffer(),
    {
        self.buf.as_slice()
    }

    /// The publication refers to a registered entity.
    pub open spec fn outgoing_in_range(&self, o: Outgoing) -> bool {
        match o {
            Outgoing::LightDiscovery(i) | Outgoing::LightState(i) => i < self.lights().len(),
            Outgoing::NumberDiscovery(i) | Outgoing::NumberState(i) => i < self.numbers().len(),
        }
    }

    /// The topic of a publication: the discovery config topic of the entity for a discovery
    /// config (component `light` or `number`), its state topic for a state, each within
    /// [`MAX_TOPIC_LEN`] bytes.
    pub open spec fn spec_outgoing_topic(&self, o: Outgoing) -> Seq<char> {
        match o {
            Outgoing::LightDiscovery(i) => spec_config_topic(
                "light"@,
                self.lights()[i as int].entity.device.id@,
                self.lights()[i as int].entity.id@,
                MAX_TOPIC_LEN as nat,
            ),
            Outgoing::NumberDiscovery(i) => spec_config_topic(
                "number"@,
                self.numbers()[i as int].entity.device.id@,
                self.numbers()[i as int].entity.id@,
                MAX_TOPIC_LEN as nat,
            ),
            Outgoing::LightState(i) => spec_state_topic(
                self.lights()[i as int].entity.device.id@,
                self.lights()[i as int].entity.id@,
                MAX_TOPIC_LEN as nat,
            ),
            Outgoing::NumberState(i) => spec_state_topic(
                self.numbers()[i as int].entity.device.id@,
                self.numbers()[i as int].entity.id@,
                MAX_TOPIC_LEN as nat,
            ),
        }
    }

    /// The topic on which the publication `o` goes out.
    pub fn outgoing_topic(&self, o: Outgoing) -> (t: String)
        requires
            self.wf(),
            self.outgoing_in_range(o),
        ensures
            t@ == self.spec_outgoing_topic(o),
    {
        match o {
            Outgoing::LightDiscovery(i) => {
                let e = &self.lights[i].entity;
                config_topic::<MAX_TOPIC_LEN>("light", e.device.id, e.id)
            },
            Outgoing::NumberDiscovery(i) => {
                let e = &self.numbers[i].entity;
                config_topic::<MAX_TOPIC_LEN>("number", e.device.id, e.id)
            },
            Outgoing::LightState(i) => {
                let e = &self.lights[i].entity;
                state_topic::<MAX_TOPIC_LEN>(e.device.id, e.id)
            },
            Outgoing::NumberState(i) => {
                let e = &self.numbers[i].entity;
                state_topic::<MAX_TOPIC_LEN>(e.device.id, e.id)
            },
        }
    }

    /// The discovery context of the light at position `i`; its config topic is the topic of
    /// the light's discovery publication.
    pub fn light_discovery_context(&self, i: usize) -> (ctx: LightDiscoveryContext<'a, MAX_TOPIC_LEN>)
        requires
            self.wf(),
            i < self.lights().len(),
        ensures
            ctx.config_topic@ == self.spec_outgoing_topic(Outgoing::LightDiscovery(i)),
            ctx.unique_id@ == spec_unique_id(
                self.lights()[i as int].entity.device.id@,
                self.lights()[i as int].entity.id@,
                MAX_TOPIC_LEN as nat,
            ),
            ctx.state_topic@ == self.spec_outgoing_topic(Outgoing::LightState(i)),
            ctx.command_topic@ == self.light_topics()[i as int],
            ctx.color_modes@ == listed_color_modes(self.lights()[i as int].entity.color_modes@),
            ctx.identifier@ == spec_identifier(self.lights()[i as int].entity.device.id@, MAX_TOPIC_LEN as nat),
    {
        LightDiscoveryContext::new(&self.lights[i].entity)
    }

    /// The discovery context of the number at position `i`; its config topic is the topic
    /// of the number's discovery publication.
    pub fn number_discovery_context(&self, i: usize) -> (ctx: NumberDiscoveryContext<MAX_TOPIC_LEN>)
        requires
            self.wf(),
            i < self.numbers().len(),
        ensures
            ctx.config_topic@ == self.spec_outgoing_topic(Outgoing::NumberDiscovery(i)),
            ctx.unique_id@ == spec_unique_id(
                self.numbers()[i as int].entity.device.id@,
                self.numbers()[i as int].entity.id@,
                MAX_TOPIC_LEN as nat,
            ),
            ctx.state_topic@ == self.spec_outgoing_topic(Outgoing::NumberState(i)),
            ctx.command_topic@ == self.number_topics()[i as int],
            ctx.identifier@ == spec_identifier(self.numbers()[i as int].entity.device.id@, MAX_TOPIC_LEN as nat),
    {
        NumberDiscoveryContext::new(&self.numbers[i].entity)
    }

    /// The discovery payload of the light at position `i`, built from its context and the
    /// device identifiers `identifiers` (the context's identifier alone, in the module's use).
    pub fn light_discovery<'b>(
        &'b self,
        i: usize,
        ctx: &'b LightDiscoveryContext<'a, MAX_TOPIC_LEN>,
        identifiers: &'b [&'b str],
    ) -> (d: HaLightDiscovery<'b>)
        requires
            self.wf(),
            i < self.lights().len(),
        ensures
            ({
                let e = self.lights()[i as int].entity;
                &&& d.name == e.name
                &&& d.unique_id@ == ctx.unique_id@
                &&& d.schema == "json"
                &&& d.state_topic@ == ctx.state_topic@
                &&& d.command_topic@ == ctx.command_topic@
                &&& d.device == (HaDeviceInfo {
                    name: e.device.name,
                    identifiers,
                    manufacturer: e.device.manufacturer,
                    model: e.device.model,
                    sw_version: e.device.sw_version,
                })
                &&& d.icon == e.icon
                &&& d.brightness == e.brightness
                &&& d.effect == (if e.effects is Some { Some(true) } else { None::<bool> })
                &&& d.effect_list == e.effects
                &&& d.supported_color_modes@ == ctx.color_modes@
                &&& d.min_kelvin == e.min_kelvin
                &&& d.max_kelvin == e.max_kelvin
                &&& d.color_temp_kelvin == Some(true)
                &&& d.optimistic == e.optimistic
            }),
    {
        light_to_discovery(&self.lights[i].entity, ctx, identifiers)
    }

    /// The discovery payload of the number at position `i`, built from its context and the
    /// device identifiers `identifiers` (the context's identifier alone, in the module's use).
    pub fn number_discovery<'b>(
        &'b self,
        i: usize,
        ctx: &'b NumberDiscoveryContext<MAX_TOPIC_LEN>,
        identifiers: &'b [&'b str],
    ) -> (d: HaNumberDiscovery<'b>)
        requires
            self.wf(),
            i < self.numbers().len(),
        ensures
            ({
                let e = self.numbers()[i as int].entity;
                &&& d.name == e.name
                &&& d.unique_id@ == ctx.unique_id@
                &&& d.state_topic@ == ctx.state_topic@
                &&& d.command_topic@ == ctx.command_topic@
                &&& d.device == (HaDeviceInfo {
                    name: e.device.name,
                    identifiers,
                    manufacturer: e.device.manufacturer,
                    model: e.device.model,
                    sw_version: e.device.sw_version,
                })
                &&& d.icon == e.icon
                &&& d.device_class == e.device_class
                &&& d.unit_of_measurement == e.unit
                &&& d.min == e.min
                &&& d.max == e.max
                &&& d.step == e.step
                &&& d.mode == e.mode
            }),
    {
        number_to_discovery(&self.numbers[i].entity, ctx, identifiers)
    }

    /// The command topics to subscribe to: those of the lights, then those of the
    /// numbers, in order of registration.
    pub fn command_topics(&self) -> (topics: Vec<&str>)
        ensures
            topics@.map_values(|t: &str| t@) == self.light_topics() + self.number_topics(),
    {
        let mut topics: Vec<&str> = Vec::new();
        let mut i: usize = 0;
        while i < self.lights.len()
            invariant
                i <= self.lights@.len(),
                topics@.len() == i,
                topics@.map_values(|t: &str| t@) == self.light_topics().subrange(0, i as int),
            decreases self.lights@.len() - i,
        {
            let ghost prev = topics@;
            topics.push(self.lights[i].command_topic.as_str());
            assert(topics@.map_values(|t: &str| t@) =~= self.light_topics().subrange(0, i + 1)) by {
                assert forall|k: int| 0 <= k < i + 1 implies topics@.map_values(|t: &str| t@)[k] == self.light_topics()[k] by {
                    if k < i {
                        assert(topics@[k] == prev[k]);
                        assert(prev.map_values(|t: &str| t@)[k] == self.light_topics().subrange(0, i as int)[k]);
                    }
                }
            }
            i = i + 1;
        }
        let mut j: usize = 0;
        assert(self.light_topics().subrange(0, i as int) =~= self.light_topics());
        while j < self.numbers.len()
            invariant
                j <= self.numbers@.len(),
                topics@.len() == self.lights@.len() + j,
                topics@.map_values(|t: &str| t@) == self.light_topics() + self.number_topics().subrange(0, j as int),
            decreases self.numbers@.len() - j,
        {
            let ghost prev = topics@;
            topics.push(self.numbers[j].command_topic.as_str());
            let ghost target = self.light_topics() + self.number_topics().subrange(0, j + 1);
            assert(topics@.map_values(|t: &str| t@) =~= target) by {
                assert forall|k: int| 0 <= k < target.len() implies topics@.map_values(|t: &str| t@)[k] == target[k] by {
                    if k < target.len() - 1 {
                        assert(topics@[k] == prev[k]);
                        assert(prev.map_values(|t: &str| t@)[k] == (self.light_topics() + self.number_topics().subrange(0, j as int))[k]);
                    }
                }
            }
            j = j + 1;
        }
        assert(self.number_topics().subrange(0, j as int) =~= self.number_topics());
        topics
    }
}

/// Law: every registered entity can be reached: its computed command topic is among the
/// command topics that the module routes, for lights and for numbers alike.
pub proof fn law_registered_topics_are_routed<'a, LS, LC, NS, NC, const ML: usize, const MN: usize, const B: usize>(
    m: HaModule<'a, LS, LC, NS, NC, ML, MN, B>,
)
    requires
        m.wf(),
    ensures
        forall|i: int|
            0 <= i < m.lights().len() ==> has_match(
                m.light_topics(),
                entry_topic(#[trigger] m.lights()[i].entity.device.id@, m.lights()[i].entity.id@),
            ),
        forall|i: int|
            0 <= i < m.numbers().len() ==> has_match(
                m.number_topics(),
                entry_topic(#[trigger] m.numbers()[i].entity.device.id@, m.numbers()[i].entity.id@),
            ),
        m.lights().len() <= ML,
        m.numbers().len() <= MN,
{
    assert forall|i: int| 0 <= i < m.lights().len() implies has_match(
        m.light_topics(),
        entry_topic(#[trigger] m.lights()[i].entity.device.id@, m.lights()[i].entity.id@),
    ) by {
        assert(m.light_topics()[i] == m.lights()[i].command_topic@);
    }
    assert forall|i: int| 0 <= i < m.numbers().len() implies has_match(
        m.number_topics(),
        entry_topic(#[trigger] m.numbers()[i].entity.device.id@, m.numbers()[i].entity.id@),
    ) by {
        assert(m.number_topics()[i] == m.numbers()[i].command_topic@);
    }
}

/// Law: a light command routed to a light carries the wire command's brightness, color
/// temperature, effect and color unchanged, whatever other fields the command holds, and
/// turns the light on exactly when its state reads "ON".
pub proof fn law_routed_light_command_carries_request<'p>(
    light_topics: Seq<Seq<char>>,
    topic: Seq<char>,
    cmd: HaLightCommand<'p>,
    d: Dispatch<'p>,
)
    requires
        routed_to_light(light_topics, topic, Some(cmd), d),
    ensures
        d->Light_command.brightness == cmd.brightness,
        d->Light_command.color_temp == cmd.color_temp,
        d->Light_command.effect == cmd.effect,
        (d->Light_command.state is Some) == (cmd.state is Some),
        cmd.state is Some ==> d->Light_command.state.unwrap() == (cmd.state.unwrap()@ == "ON"@),
        (d->Light_command.color is Some) == (cmd.color is Some),
        cmd.color is Some ==> {
            let c = d->Light_command.color.unwrap();
            c.r == cmd.color.unwrap().r && c.g == cmd.color.unwrap().g && c.b == cmd.color.unwrap().b
        },
{
    law_command_fields_carried(cmd);
}

/// Law: the decimal text of a value, sent on a number's command topic when no light handles
/// the message, is routed to the first number with that topic and carries that value.
pub proof fn law_number_text_is_routed_back(number_topics: Seq<Seq<char>>, topic: Seq<char>, v: i32, d: Dispatch)
    requires
        has_match(number_topics, topic),
    ensures
        number_handles(number_topics, topic, i32_text(v)),
        routed_to_number(number_topics, topic, i32_text(v), d) ==> d->Number_value == v,
{
    law_number_text_reads_back(v);
}

/// Law: of the publications of a start or a tick, discovery configs go out at least once
/// and states at most once, and every discovery config comes before every state.
pub proof fn law_publish_plan_order(nl: nat, nn: nat)
    ensures
        forall|i: int|
            0 <= i < nl + nn ==> spec_qos(#[trigger] spec_publish_plan(nl, nn)[i]) == PublishQos::AtLeastOnce,
        forall|i: int|
            nl + nn <= i < 2 * (nl + nn) ==> spec_qos(#[trigger] spec_publish_plan(nl, nn)[i])
                == PublishQos::AtMostOnce,
        spec_publish_plan(nl, nn).len() == 2 * (nl + nn),
{
    let p = spec_publish_plan(nl, nn);
    let a = Seq::new(nl, |i: int| Outgoing::LightDiscovery(i as usize));
    let b = Seq::new(nn, |i: int| Outgoing::NumberDiscovery(i as usize));
    let c = Seq::new(nl, |i: int| Outgoing::LightState(i as usize));
    let e = Seq::new(nn, |i: int| Outgoing::NumberState(i as usize));
    assert forall|i: int| 0 <= i < nl + nn implies spec_qos(#[trigger] p[i]) == PublishQos::AtLeastOnce by {
        if i < nl {
            assert(p[i] == a[i]);
        } else {
            assert(p[i] == b[i - nl]);
        }
    }
    assert forall|i: int| nl + nn <= i < 2 * (nl + nn) implies spec_qos(#[trigger] p[i]) == PublishQos::AtMostOnce by {
        if i < 2 * nl + nn {
            assert(p[i] == c[i - nl - nn]);
        } else {
            assert(p[i] == e[i - 2 * nl - nn]);
        }
    }
}

/// Law: an immediate publish is pending after a sequence of operations exactly when a
/// message after the last tick was handled, or, with no tick at all, when one was pending
/// before; from a new module, exactly when a message after the last tick was handled.
pub proof fn law_pending_over_operations(pending: bool, events: Seq<ModuleEvent>)
    ensures
        pending_after(pending, events) == (handled_since_last_tick(events) || (pending && no_tick(events))),
        pending_after(false, events) == handled_since_last_tick(events),
    decreases events.len(),
{
    if events.len() > 0 {
        let rest = events.drop_last();
        law_pending_over_operations(pending, rest);
        assert(events.last() == events[events.len() - 1]);
        assert(no_tick(events) == (no_tick(rest) && events.last() != ModuleEvent::Tick)) by {
            if no_tick(rest) && events.last() != ModuleEvent::Tick {
                assert forall|j: int| 0 <= j < events.len() implies events[j] != ModuleEvent::Tick by {
                    if j < rest.len() {
                        assert(events[j] == rest[j]);
                    }
                }
            }
            if no_tick(events) {
                assert forall|j: int| 0 <= j < rest.len() implies rest[j] != ModuleEvent::Tick by {
                    assert(events[j] == rest[j]);
                }
            }
        }
    }
}

/// Law: every publication of a start or a tick refers to a registered entity and goes out
/// on that entity's topic: first the discovery config topic of each light, then of each
/// number, then the state topic of each light, then of each number, in order of registration.
pub proof fn law_publish_plan_topics<'a, LS, LC, NS, NC, const ML: usize, const MN: usize, const B: usize>(
    m: HaModule<'a, LS, LC, NS, NC, ML, MN, B>,
)
    requires
        m.wf(),
    ensures
        ({
            let nl = m.lights().len();
            let nn = m.numbers().len();
            let plan = spec_publish_plan(nl, nn);
            &&& plan.len() == 2 * (nl + nn)
            &&& forall|k: int| 0 <= k < plan.len() ==> m.outgoing_in_range(#[trigger] plan[k])
            &&& forall|i: int|
                0 <= i < nl ==> m.spec_outgoing_topic(#[trigger] plan[i]) == spec_config_topic(
                    "light"@,
                    m.lights()[i].entity.device.id@,
                    m.lights()[i].entity.id@,
                    MAX_TOPIC_LEN as nat,
                )
            &&& forall|j: int|
                0 <= j < nn ==> m.spec_outgoing_topic(#[trigger] plan[nl + j]) == spec_config_topic(
                    "number"@,
                    m.numbers()[j].entity.device.id@,
                    m.numbers()[j].entity.id@,
                    MAX_TOPIC_LEN as nat,
                )
            &&& forall|i: int|
                0 <= i < nl ==> m.spec_outgoing_topic(#[trigger] plan[nl + nn + i]) == spec_state_topic(
                    m.lights()[i].entity.device.id@,
                    m.lights()[i].entity.id@,
                    MAX_TOPIC_LEN as nat,
                )
            &&& forall|j: int|
                0 <= j < nn ==> m.spec_outgoing_topic(#[trigger] plan[2 * nl + nn + j]) == spec_state_topic(
                    m.numbers()[j].entity.device.id@,
                    m.numbers()[j].entity.id@,
                    MAX_TOPIC_LEN as nat,
                )
        }),
{
    let nl = m.lights().len();
    let nn = m.numbers().len();
    let plan = spec_publish_plan(nl, nn);
    let a = Seq::new(nl, |i: int| Outgoing::LightDiscovery(i as usize));
    let b = Seq::new(nn, |i: int| Outgoing::NumberDiscovery(i as usize));
    let c = Seq::new(nl, |i: int| Outgoing::LightState(i as usize));
    let e = Seq::new(nn, |i: int| Outgoing::NumberState(i as usize));
    assert forall|k: int| 0 <= k < plan.len() implies m.outgoing_in_range(#[trigger] plan[k]) by {
        if k < nl {
            assert(plan[k] == a[k]);
        } else if k < nl + nn {
            assert(plan[k] == b[k - nl]);
        } else if k < 2 * nl + nn {
            assert(plan[k] == c[k - nl - nn]);
        } else {
            assert(plan[k] == e[k - 2 * nl - nn]);
        }
    }
    assert forall|i: int| 0 <= i < nl implies m.spec_outgoing_topic(#[trigger] plan[i]) == spec_config_topic(
        "light"@,
        m.lights()[i].entity.device.id@,
        m.lights()[i].entity.id@,
        MAX_TOPIC_LEN as nat,
    ) by {
        assert(plan[i] == a[i]);
    }
    assert forall|j: int| 0 <= j < nn implies m.spec_outgoing_topic(#[trigger] plan[nl + j]) == spec_config_topic(
        "number"@,
        m.numbers()[j].entity.device.id@,
        m.numbers()[j].entity.id@,
        MAX_TOPIC_LEN as nat,
    ) by {
        assert(plan[nl + j] == b[j]);
    }
    assert forall|i: int| 0 <= i < nl implies m.spec_outgoing_topic(#[trigger] plan[nl + nn + i]) == spec_state_topic(
        m.lights()[i].entity.device.id@,
        m.lights()[i].entity.id@,
        MAX_TOPIC_LEN as nat,
    ) by {
        assert(plan[nl + nn + i] == c[i]);
    }
    assert forall|j: int| 0 <= j < nn implies m.spec_outgoing_topic(#[trigger] plan[2 * nl + nn + j])
        == spec_state_topic(m.numbers()[j].entity.device.id@, m.numbers()[j].entity.id@, MAX_TOPIC_LEN as nat) by {
        assert(plan[2 * nl + nn + j] == e[j]);
    }
}

} // verus!
