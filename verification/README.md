# e2l-parser

The Edge2LoRa gateway agent: it relays LoRaWAN packet-forwarder traffic to the
network server and, for devices running in edge mode, decrypts their frames on
the gateway and publishes them over MQTT.

`src/` is the verified library:

- `directory` – the table of devices known to the gateway (associated with
  their edge session keys and received frame counters, or served by another
  gateway), viewed as two finite maps keyed by device address;
- `crypto` – the gateway key pair, the P-256 key agreement with a device and the
  application server, the derivation of the edge session keys, and the messages
  built for the frames of known devices;
- `rpc` – the handlers of the gateway's control RPC service;
- `lora` – packet-forwarder records, device-address rendering, the route of an
  uplink data frame and the walk through the packets of a `PUSH_DATA` datagram;
- `devices` – grouping of received packets by device;
- `stats` – frame counters and per-device statistics;
- `mqtt_client`, `mqtt_structs` – MQTT messages, topics, control commands and
  broker bridge configurations;
- `text` – hexadecimal rendering, decimal parsing and topic text helpers;
- `keyed` – association lists with distinct keys viewed as maps;
- `ecc` – the calls into `p256`, `sha2` and `base64`;
- `laws` – properties relating several operations.

`app/` is the process around it: environment, UDP relay, MQTT connections,
HTTP calls to the broker, the statistics thread, JSON (de)serialization and the
floating-point averages.
