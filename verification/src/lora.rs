//! LoRa packet-forwarder records and the uplink handling decisions of the
//! gateway: device-address rendering, packet-type names, what to do with a
//! received data frame and with a `PUSH_DATA` datagram.

use vstd::prelude::*;
use crate::crypto::{edge_message, handover_message, CryptoView, E2LCrypto};
use crate::mqtt_structs::{MqttJson, UnassociatedMqttJson};
use crate::stats::{counted, frame_count, FrameCounters, FrameKind};
use crate::text::{hex_encode, hex_lower, hex_upper, to_hex_upper};

verus! {

/// One received radio packet as the packet forwarder reports it (an entry of
/// the `rxpk` array of a `PUSH_DATA` JSON body). The two floating-point fields,
/// the frequency in MHz and the signal-to-noise ratio, are held as the bit
/// patterns of their `f32` values (`f32::to_bits`).
pub struct RxpkContent {
    pub time: Option<String>,
    pub tmst: u32,
    pub freq_bits: u32,
    pub chan: Option<u32>,
    pub stat: Option<i32>,
    pub modu: String,
    pub datr: String,
    pub codr: String,
    pub rssi: Option<i32>,
    pub lsnr_bits: Option<u32>,
    pub size: u32,
    pub data: String,
}

impl Clone for RxpkContent {
    fn clone(&self) -> (r: Self)
        ensures
            r == *self,
    {
        RxpkContent {
            time: match &self.time {
                Some(t) => Some(t.clone()),
                None => None,
            },
            tmst: self.tmst,
            freq_bits: self.freq_bits,
            chan: self.chan,
            stat: self.stat,
            modu: self.modu.clone(),
            datr: self.datr.clone(),
            codr: self.codr.clone(),
            rssi: self.rssi,
            lsnr_bits: self.lsnr_bits,
            size: self.size,
            data: self.data.clone(),
        }
    }
}

/// The `rxpk` array of a `PUSH_DATA` body.
pub struct Rxpk {
    pub rxpk: Vec<RxpkContent>,
}

/// The application port of ordinary LoRaWAN traffic, forwarded to the network
/// server.
pub const DEFAULT_APP_PORT: u8 = 2;

/// The application port of Edge2LoRa traffic.
pub const DEFAULT_E2L_APP_PORT: u8 = 4;

/// Frames shorter than this are not considered.
pub const MIN_UPLINK_LEN: usize = 26;

/// The name of a packet-forwarder datagram identifier.
pub open spec fn packet_name_spec(id: u8) -> Option<Seq<char>> {
    if id == 0 {
        Some("PUSH_DATA"@)
    } else if id == 1 {
        Some("PUSH_ACK"@)
    } else if id == 2 {
        Some("PULL_DATA"@)
    } else if id == 3 {
        Some("PULL_RESP"@)
    } else if id == 4 {
        Some("PULL_ACK"@)
    } else if id == 5 {
        Some("TX_ACK"@)
    } else {
        None
    }
}

/// The name of a packet-forwarder datagram identifier, if it has one.
pub fn packet_name(id: u8) -> (r: Option<&'static str>)
    ensures
        match r {
            Some(n) => packet_name_spec(id) == Some(n@),
            None => packet_name_spec(id) is None,
        },
{
    if id == 0 {
        Some("PUSH_DATA")
    } else if id == 1 {
        Some("PUSH_ACK")
    } else if id == 2 {
        Some("PULL_DATA")
    } else if id == 3 {
        Some("PULL_RESP")
    } else if id == 4 {
        Some("PULL_ACK")
    } else if id == 5 {
        Some("TX_ACK")
    } else {
        None
    }
}

/// The hexadecimal text of the gateway MAC carried in bytes 4 to 11 of a
/// packet-forwarder datagram (lower case, as `hex::encode` writes it).
pub fn gateway_mac(datagram: &[u8]) -> (mac: String)
    requires
        datagram@.len() >= 12,
    ensures
        mac@ == hex_lower(datagram@.subrange(4, 12)),
{
    let mut bytes: Vec<u8> = Vec::new();
    let mut i: usize = 4;
    while i < 12
        invariant
            4 <= i <= 12,
            datagram@.len() >= 12,
            bytes@ =~= datagram@.subrange(4, i as int),
        decreases 12 - i,
    {
        bytes.push(datagram[i]);
        i = i + 1;
    }
    hex_encode(bytes.as_slice())
}

/// The device address as the gateway writes it: the address bytes of the frame
/// header (least significant first) in reverse order, each as two upper-case
/// hexadecimal digits.
pub open spec fn dev_addr_text(dev_addr_le: Seq<u8>) -> Seq<char> {
    hex_upper(dev_addr_le.reverse())
}

/// Renders a device address from its frame-header bytes.
pub fn dev_addr_string(dev_addr_le: &[u8]) -> (s: String)
    ensures
        s@ == dev_addr_text(dev_addr_le@),
{
    let mut reversed: Vec<u8> = Vec::new();
    let n = dev_addr_le.len();
    let mut i: usize = 0;
    while i < n
        invariant
            i <= n,
            n == dev_addr_le@.len(),
            reversed@ =~= dev_addr_le@.reverse().take(i as int),
        decreases n - i,
    {
        reversed.push(dev_addr_le[n - 1 - i]);
        i = i + 1;
    }
    assert(reversed@ =~= dev_addr_le@.reverse());
    to_hex_upper(reversed.as_slice())
}

/// The four bytes of a device address, or four zero bytes when the input does
/// not have exactly four.
pub fn extract_dev_addr_array(v: Vec<u8>) -> (a: [u8; 4])
    ensures
        v@.len() == 4 ==> a@ == v@,
        v@.len() != 4 ==> a@ == seq![0u8, 0u8, 0u8, 0u8],
{
    if v.len() == 4 {
        let a = [v[0], v[1], v[2], v[3]];
        assert(a@ =~= v@);
        a
    } else {
        let a = [0u8, 0u8, 0u8, 0u8];
        assert(a@ =~= seq![0u8, 0u8, 0u8, 0u8]);
        a
    }
}

/// Where an uplink data frame goes.
#[derive(Clone, Copy, PartialEq, Eq, Structural)]
pub enum UplinkRoute {
    /// The gateway does not process frames: the frame is dropped.
    Inactive,
    /// The device is associated and the frame is Edge2LoRa traffic: it is
    /// decrypted and published for local processing.
    Edge,
    /// Edge2LoRa traffic of a device not associated here: it is handed over to
    /// the gateway that serves the device, if one is known.
    Handover,
    /// Ordinary traffic: forwarded to the network server.
    NetworkServer,
    /// Any other port.
    Ignored,
}

/// The route of a frame on port `f_port` from a device at `dev_addr`.
pub open spec fn spec_uplink_route(c: CryptoView, dev_addr: Seq<char>, f_port: u8) -> UplinkRoute {
    if !c.is_active {
        UplinkRoute::Inactive
    } else if f_port == DEFAULT_E2L_APP_PORT && c.directory.associated.contains_key(dev_addr) {
        UplinkRoute::Edge
    } else if f_port == DEFAULT_E2L_APP_PORT {
        UplinkRoute::Handover
    } else if f_port == DEFAULT_APP_PORT {
        UplinkRoute::NetworkServer
    } else {
        UplinkRoute::Ignored
    }
}

/// Decides the route of a frame.
pub fn uplink_route(crypto: &E2LCrypto, dev_addr: &String, f_port: u8) -> (r: UplinkRoute)
    ensures
        r == spec_uplink_route(crypto@, dev_addr@, f_port),
{
    if !crypto.is_active() {
        UplinkRoute::Inactive
    } else if f_port == DEFAULT_E2L_APP_PORT && crypto.check_e2ed_enabled(dev_addr.clone()) {
        UplinkRoute::Edge
    } else if f_port == DEFAULT_E2L_APP_PORT {
        UplinkRoute::Handover
    } else if f_port == DEFAULT_APP_PORT {
        UplinkRoute::NetworkServer
    } else {
        UplinkRoute::Ignored
    }
}

/// A message to publish about a frame.
pub enum Publication {
    Nothing,
    /// Published on the processing topic.
    Process(MqttJson),
    /// Published on the handover topic of the named gateway.
    Handover(String, UnassociatedMqttJson),
}

/// What handling a data frame decides: whether the datagram is still to be
/// forwarded (`None` when the frame is dropped), and what to publish.
pub struct UplinkOutcome {
    pub will_send: Option<bool>,
    pub publication: Publication,
}

/// The counter that a frame of a route adds to, if any.
pub open spec fn route_counter(route: UplinkRoute) -> Option<FrameKind> {
    match route {
        UplinkRoute::Edge => Some(FrameKind::Processed),
        UplinkRoute::Handover => Some(FrameKind::HandoverSent),
        UplinkRoute::NetworkServer => Some(FrameKind::Forwarded),
        _ => None,
    }
}

/// Handles a received data frame of the device whose frame-header address bytes
/// are `dev_addr_le`, with frame counter `fcnt` on port `f_port`:
/// - inactive gateway: dropped (`None`), nothing counted or published;
/// - edge traffic of an associated device: with application data in
///   `frm_payload` (the payload decrypted with the device's session keys, which
///   the caller works out only on this route) it is published for processing
///   and counted as processed, without it the frame is dropped;
/// - other edge traffic: handed over (and counted as handed over) when the
///   device is known as unassociated, carrying the PHY payload `phy_payload`;
/// - ordinary traffic: the datagram is forwarded to the network server
///   (`Some(true)`) and counted as forwarded;
/// - any other port: nothing.
/// Edge traffic and other ports are not forwarded as they are (`Some(false)`).
pub fn handle_data_payload(
    crypto: &E2LCrypto,
    counters: &mut FrameCounters,
    dev_addr_le: &[u8],
    fcnt: u16,
    f_port: u8,
    frm_payload: Option<Vec<u8>>,
    phy_payload: &[u8],
    packet: &RxpkContent,
    gwmac: String,
) -> (r: UplinkOutcome)
    requires
        ({
            let route = spec_uplink_route(crypto@, dev_addr_text(dev_addr_le@), f_port);
            &&& route == UplinkRoute::Edge && frm_payload is Some ==> packet.chan is Some
                && packet.rssi is Some && packet.lsnr_bits is Some
            &&& route_counter(route) matches Some(kind) ==> frame_count(*old(counters), kind)
                < u32::MAX
        }),
    ensures
        r.will_send == Some(true) <==> spec_uplink_route(crypto@, dev_addr_text(dev_addr_le@), f_port)
            == UplinkRoute::NetworkServer,
        ({
            let dev_addr = dev_addr_text(dev_addr_le@);
            let route = spec_uplink_route(crypto@, dev_addr, f_port);
            match route {
                UplinkRoute::Inactive => {
                    &&& r.will_send is None
                    &&& r.publication is Nothing
                    &&& *final(counters) == *old(counters)
                },
                UplinkRoute::Edge => match frm_payload {
                    Some(frame) => {
                        let info = crypto@.directory.associated[dev_addr];
                        &&& r.will_send == Some(false)
                        &&& *final(counters) == counted(*old(counters), FrameKind::Processed)
                        &&& r.publication matches Publication::Process(j)
                        &&& edge_message(j, info, fcnt, frame@, *packet, gwmac@)
                    },
                    None => {
                        &&& r.will_send is None
                        &&& r.publication is Nothing
                        &&& *final(counters) == *old(counters)
                    },
                },
                UplinkRoute::Handover => {
                    &&& r.will_send == Some(false)
                    &&& if crypto@.directory.unassociated.contains_key(dev_addr) {
                        let info = crypto@.directory.unassociated[dev_addr];
                        &&& *final(counters) == counted(*old(counters), FrameKind::HandoverSent)
                        &&& r.publication matches Publication::Handover(gw, j)
                        &&& gw@ == info.e2gw_id
                        &&& handover_message(j, info, fcnt, phy_payload@, *packet, gwmac@)
                    } else {
                        &&& r.publication is Nothing
                        &&& *final(counters) == *old(counters)
                    }
                },
                UplinkRoute::NetworkServer => {
                    &&& r.will_send == Some(true)
                    &&& r.publication is Nothing
                    &&& *final(counters) == counted(*old(counters), FrameKind::Forwarded)
                },
                UplinkRoute::Ignored => {
                    &&& r.will_send == Some(false)
                    &&& r.publication is Nothing
                    &&& *final(counters) == *old(counters)
                },
            }
        }),
{
    let dev_addr = dev_addr_string(dev_addr_le);
    match uplink_route(crypto, &dev_addr, f_port) {
        UplinkRoute::Inactive => UplinkOutcome { will_send: None, publication: Publication::Nothing },
        UplinkRoute::Edge => {
            match crypto.get_json_mqtt_payload(dev_addr, fcnt, frm_payload, packet, gwmac) {
                Some(mqtt_payload) => {
                    counters.count(FrameKind::Processed);
                    UplinkOutcome {
                        will_send: Some(false),
                        publication: Publication::Process(mqtt_payload),
                    }
                },
                None => UplinkOutcome { will_send: None, publication: Publication::Nothing },
            }
        },
        UplinkRoute::Handover => {
            match crypto.get_unassociated_json_mqtt_payload(dev_addr, fcnt, phy_payload, packet, gwmac) {
                Some(mqtt_payload) => {
                    let gw_id = mqtt_payload.gw_id.clone();
                    counters.count(FrameKind::HandoverSent);
                    UplinkOutcome {
                        will_send: Some(false),
                        publication: Publication::Handover(gw_id, mqtt_payload),
                    }
                },
                None => UplinkOutcome { will_send: Some(false), publication: Publication::Nothing },
            }
        },
        UplinkRoute::NetworkServer => {
            counters.count(FrameKind::Forwarded);
            UplinkOutcome { will_send: Some(true), publication: Publication::Nothing }
        },
        UplinkRoute::Ignored => UplinkOutcome { will_send: Some(false), publication: Publication::Nothing },
    }
}

/// How the PHY payload of a reported packet parsed.
#[derive(Clone, Copy, PartialEq, Eq, Structural)]
pub enum FrameClass {
    /// An encrypted data frame, to be handled by `handle_data_payload`.
    EncryptedData,
    /// A join request, forwarded as it is.
    JoinRequest,
    /// Another well-formed frame, forwarded as it is.
    OtherFrame,
    /// Not a LoRaWAN frame: the datagram is not forwarded.
    Unparsable,
}

/// The progress through the packets of a `PUSH_DATA` datagram: whether the
/// datagram is still to be forwarded to the network server, whether the
/// remaining packets are skipped, and the packets kept for statistics.
pub struct PushDataState {
    pub will_send: bool,
    pub stopped: bool,
    pub packets: Vec<RxpkContent>,
}

impl PushDataState {
    /// Before the first packet: to be forwarded, nothing kept.
    pub fn new() -> (r: Self)
        ensures
            r.will_send,
            !r.stopped,
            r.packets@ == Seq::<RxpkContent>::empty(),
    {
        PushDataState { will_send: true, stopped: false, packets: Vec::new() }
    }

    /// Takes the next packet, whose PHY payload is `data_len` bytes long and
    /// parsed as `class`. Packets shorter than `MIN_UPLINK_LEN` bytes are
    /// passed over; the others are kept for statistics. An encrypted data frame
    /// is counted as received and the answer is `true`: the caller hands it to
    /// `handle_data_payload` and reports the outcome with `data_outcome`. An
    /// unparsable frame stops the datagram from being forwarded and ends the walk.
    pub fn accept_packet(
        &mut self,
        counters: &mut FrameCounters,
        packet: &RxpkContent,
        data_len: usize,
        class: FrameClass,
    ) -> (handle: bool)
        requires
            class == FrameClass::EncryptedData && data_len >= MIN_UPLINK_LEN ==> old(counters).rx_frames
                < u32::MAX,
        ensures
            handle == (data_len >= MIN_UPLINK_LEN && class == FrameClass::EncryptedData),
            data_len < MIN_UPLINK_LEN ==> final(self).packets@ == old(self).packets@,
            data_len >= MIN_UPLINK_LEN ==> final(self).packets@ == old(self).packets@.push(*packet),
            handle ==> *final(counters) == counted(*old(counters), FrameKind::Received),
            !handle ==> *final(counters) == *old(counters),
            final(self).will_send == (old(self).will_send && !(data_len >= MIN_UPLINK_LEN && class
                == FrameClass::Unparsable)),
            final(self).stopped == (old(self).stopped || (data_len >= MIN_UPLINK_LEN && class
                == FrameClass::Unparsable)),
    {
        if data_len < MIN_UPLINK_LEN {
            return false;
        }
        self.packets.push(packet.clone());
        match class {
            FrameClass::EncryptedData => {
                counters.count(FrameKind::Received);
                true
            },
            FrameClass::JoinRequest => false,
            FrameClass::OtherFrame => false,
            FrameClass::Unparsable => {
                self.will_send = false;
                self.stopped = true;
                false
            },
        }
    }

    /// Takes the outcome of `handle_data_payload` for the last packet: its
    /// forwarding decision replaces the current one, and a dropped frame stops
    /// the datagram from being forwarded and ends the walk.
    pub fn data_outcome(&mut self, will_send: Option<bool>)
        ensures
            final(self).packets@ == old(self).packets@,
            will_send matches Some(v) ==> final(self).will_send == v && final(self).stopped
                == old(self).stopped,
            will_send is None ==> !final(self).will_send && final(self).stopped,
    {
        match will_send {
            Some(v) => {
                self.will_send = v;
            },
            None => {
                self.will_send = false;
                self.stopped = true;
            },
        }
    }
}

} // verus!
