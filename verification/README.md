# myrtio_mqtt_homeassistant

Home Assistant MQTT discovery for embedded devices, with its logic verified by Verus.

- `src/` — the verified library: devices and entities, wire types, topic generation within a
  byte capacity, the mapping between domain and wire types, decimal text of number payloads,
  and `HaModule`, which keeps the registered entities, routes incoming commands and lists what
  each start and tick publishes.
- `app/` — glue for the `myrtio-mqtt` runtime: serde forms of the wire types, const builders,
  and the `MqttModule` implementation that performs the JSON encoding, the callbacks and the
  publishing that `HaModule` decides.
- `tests/` — tests of the library on concrete values.
