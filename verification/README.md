# esp_idf_async_wifi

Firmware for an ESP32 that stays on its Wi-Fi network, runs an HTTP server while
it has an address, takes commands and publishes wind readings over MQTT, and
updates itself over the air.

`src/` is the library, verified with Verus. It holds what the firmware decides:

- `wifi`: how the station joins, and what it makes of the driver's events
- `task::httpd`: when the HTTP server runs and what it answers
- `mqtt::parser`: commands out of messages, whole or in parts
- `mqtt::session`: what is done about the connection, and what is sent
- `mqtt::laws`: what holds of the MQTT client over all messages and events
- `task::firmware`: what an image says about itself
- `task::ota`: the steps of an update
- `task::ota_laws`: what holds of every update
- `state`, `http`, `text`, `decimal`: events, request methods, fixed-capacity text,
  whole numbers

`app/` is the program for the device: it waits for events, asks the library what
to do, and does it. What stops the firmware at once (a driver that does not
start, a subscription that is refused) is reported there.

Where a library function requires more of its arguments than a bound on a length,
a function beside it makes the test: `MessageParser::accepts`,
`FirmwareUpdate::accepts`, `is_info_readable`, `is_field_readable`,
`has_readable_length`.
