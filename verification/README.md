# weatherflow_mqtt

A bridge that forwards WeatherFlow weather-station messages, received from the
WeatherFlow WebSocket service, to an MQTT broker.

- `src/` is the verified library: the configuration and its checks, the
  routing of each message to MQTT topics, the WebSocket collector's requests,
  device-list reading, connection checks and reconnection back-off, and the
  MQTT publisher's handling of broker events. `src/json.rs` describes the
  `serde_json` calls the library makes.
- `app/` is the program around it: command line, logging, file reading, and
  the asynchronous tasks that talk to the network.
- `tests/` exercises the library on concrete values.
