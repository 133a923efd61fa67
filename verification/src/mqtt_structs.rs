//! Messages the gateway publishes about the frames it processes. Floating-point
//! values (frequency, signal-to-noise ratio) are carried as the bit patterns of
//! their `f32` values.

use vstd::prelude::*;

verus! {

/// Connection settings of the MQTT broker.
pub struct MqttVariables {
    pub broker_url: String,
    pub broker_port: String,
    pub broker_auth_name: String,
    pub broker_auth_password: String,
    pub broker_process_topic: String,
    pub broker_handover_topic: String,
    pub broker_qos: i32,
}

/// An uplink of a device in edge mode, its payload decrypted and Base64 encoded.
pub struct MqttJson {
    pub dev_eui: String,
    pub dev_addr: String,
    pub fcnt: u16,
    pub timestamp: String,
    pub frequency_bits: u32,
    pub data_rate: String,
    pub coding_rate: String,
    pub gtw_id: String,
    pub gtw_channel: u32,
    pub gtw_rssi: i32,
    pub gtw_snr_bits: u32,
    pub payload: String,
}

/// The bit pattern of the `f32` value 868.1 (MHz).
pub const DEFAULT_FREQUENCY_BITS: u32 = 0x4459_0666u32;

impl Default for MqttJson {
    fn default() -> (r: Self)
        ensures
            r.dev_eui@ == Seq::<char>::empty(),
            r.dev_addr@ == Seq::<char>::empty(),
            r.fcnt == 0,
            r.timestamp@ == Seq::<char>::empty(),
            r.frequency_bits == DEFAULT_FREQUENCY_BITS,
            r.data_rate@ == "SF7BW125"@,
            r.coding_rate@ == "4/5"@,
            r.gtw_id@ == Seq::<char>::empty(),
            r.gtw_channel == 0,
            r.gtw_rssi == 0,
            r.gtw_snr_bits == 0,
            r.payload@ == Seq::<char>::empty(),
    {
        MqttJson {
            dev_eui: String::new(),
            dev_addr: String::new(),
            fcnt: 0,
            timestamp: String::new(),
            frequency_bits: DEFAULT_FREQUENCY_BITS,
            data_rate: "SF7BW125".to_owned(),
            coding_rate: "4/5".to_owned(),
            gtw_id: String::new(),
            gtw_channel: 0,
            gtw_rssi: 0,
            gtw_snr_bits: 0,
            payload: String::new(),
        }
    }
}

/// An uplink of a device whose edge session runs on another gateway, to be
/// handed over to that gateway: the radio metadata of the packet and its
/// encrypted PHY payload, Base64 encoded.
pub struct UnassociatedMqttJson {
    pub dev_eui: String,
    pub dev_addr: String,
    pub gw_id: String,
    pub gwmac: String,
    pub fcnt: u16,
    pub time: Option<String>,
    pub tmst: u32,
    pub freq_bits: u32,
    pub chan: Option<u32>,
    pub stat: Option<i32>,
    pub modu: String,
    pub datr: String,
    pub codr: String,
    pub rssi: Option<i32>,
    pub lsnr_bits: Option<u32>,
    pub size: u32,
    pub data: String,
}

} // verus!
