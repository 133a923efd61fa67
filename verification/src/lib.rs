//! Edge2LoRa gateway parser: device directory, edge session key derivation,
//! uplink forwarding decisions, frame statistics and MQTT message building.

pub mod crypto;
pub mod devices;
pub mod directory;
pub mod ecc;
pub mod keyed;
pub mod laws;
pub mod lora;
pub mod mqtt_client;
pub mod mqtt_structs;
pub mod rpc;
pub mod stats;
pub mod text;
