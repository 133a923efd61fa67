//! The gateway's key material and its handling of edge sessions: the
//! elliptic-curve key agreement with a device and the application server, the
//! derivation of the edge session keys, and the messages built from the frames
//! of known devices.

use vstd::prelude::*;
use crate::directory::{
    AssociatedDevView, UnassociatedDevView,
    spec_add_associated, spec_add_unassociated, spec_remove_associated,
    spec_remove_unassociated, DirectoryView, E2LActiveDirectory,
};
use crate::ecc::{
    affine_x, base64_encode, base64_standard, generate_secret_key, p256_mul, p256_point_valid,
    p256_public_key, p256_secret_valid, p256_x_coordinate, public_key_of,
    scalar_point_multiplication, sec1_point_is_valid, sha256, sha256_digest,
};
use crate::lora::RxpkContent;
use crate::mqtt_client::NewUnassociatedDevice;
use crate::mqtt_structs::{MqttJson, UnassociatedMqttJson};
use crate::rpc::{Device, E2lData, GwResponse};

verus! {

/// The shared secret of an edge session: the x-coordinate of the product of the
/// gateway's secret scalar and the point `g_as_ed` computed by the application
/// server.
pub open spec fn edge_session_secret(private_key: Seq<u8>, g_as_ed: Seq<u8>) -> Seq<u8> {
    p256_x_coordinate(p256_mul(private_key, g_as_ed))
}

/// A 128-bit key derived from a shared secret: the first 16 bytes of the
/// SHA-256 digest of the label byte followed by the secret.
pub open spec fn derived_key(label: u8, secret: Seq<u8>) -> Seq<u8> {
    sha256(seq![label] + secret).take(16)
}

/// The edge session integrity key (label 0).
pub open spec fn edge_integrity_key(secret: Seq<u8>) -> Seq<u8> {
    derived_key(0, secret)
}

/// The edge session encryption key (label 1).
pub open spec fn edge_encryption_key(secret: Seq<u8>) -> Seq<u8> {
    derived_key(1, secret)
}

/// `j` is the processing message for a frame of the associated device `info`
/// with frame counter `fcnt` and decrypted application data `frame`, received
/// in `packet` by the gateway whose MAC reads `gwmac`.
pub open spec fn edge_message(
    j: MqttJson,
    info: AssociatedDevView,
    fcnt: u16,
    frame: Seq<u8>,
    packet: RxpkContent,
    gwmac: Seq<char>,
) -> bool {
    &&& j.dev_eui@ == info.dev_eui
    &&& j.dev_addr@ == info.dev_addr
    &&& j.fcnt == fcnt
    &&& j.timestamp@ == (match packet.time {
        Some(t) => t@,
        None => Seq::<char>::empty(),
    })
    &&& j.frequency_bits == packet.freq_bits
    &&& j.data_rate@ == packet.datr@
    &&& j.coding_rate@ == packet.codr@
    &&& j.gtw_id@ == gwmac
    &&& Some(j.gtw_channel) == packet.chan
    &&& Some(j.gtw_rssi) == packet.rssi
    &&& Some(j.gtw_snr_bits) == packet.lsnr_bits
    &&& j.payload@ == base64_standard(frame)
}

/// `j` is the handover message for a frame of the unassociated device `info`
/// with frame counter `fcnt` and PHY payload `phy`, received in `packet` by the
/// gateway whose MAC reads `gwmac`.
pub open spec fn handover_message(
    j: UnassociatedMqttJson,
    info: UnassociatedDevView,
    fcnt: u16,
    phy: Seq<u8>,
    packet: RxpkContent,
    gwmac: Seq<char>,
) -> bool {
    &&& j.dev_eui@ == info.dev_eui
    &&& j.dev_addr@ == info.dev_addr
    &&& j.gw_id@ == info.e2gw_id
    &&& j.gwmac@ == gwmac
    &&& j.fcnt == fcnt
    &&& j.time == packet.time
    &&& j.tmst == packet.tmst
    &&& j.freq_bits == packet.freq_bits
    &&& j.chan == packet.chan
    &&& j.stat == packet.stat
    &&& j.modu@ == packet.modu@
    &&& j.datr@ == packet.datr@
    &&& j.codr@ == packet.codr@
    &&& j.rssi == packet.rssi
    &&& j.lsnr_bits == packet.lsnr_bits
    &&& j.size == packet.size
    &&& j.data@ == base64_standard(phy)
}

/// `pk` is the SEC1 encoding of the public key of some secret scalar.
pub open spec fn is_public_key(pk: Seq<u8>) -> bool {
    exists|secret: Seq<u8>| p256_secret_valid(secret) && pk == p256_public_key(secret)
}

/// The directory after one device of an `add_devices` request: a device
/// assigned to another gateway is recorded as unassociated; one assigned to
/// this gateway is recorded as associated, with its session keys and a
/// placeholder public key.
pub open spec fn spec_add_device(
    d: DirectoryView,
    gw_id: Seq<char>,
    device: Device,
    placeholder_public_key: Seq<u8>,
) -> DirectoryView {
    if device.assigned_gw@ != gw_id {
        spec_add_unassociated(d, device.dev_eui@, device.dev_addr@, device.assigned_gw@)
    } else {
        spec_add_associated(
            d,
            device.dev_eui@,
            device.dev_addr@,
            placeholder_public_key,
            device.edge_s_enc_key@,
            device.edge_s_int_key@,
        )
    }
}

/// The directory after the devices of an `add_devices` request, in order.
pub open spec fn spec_add_devices(
    d: DirectoryView,
    gw_id: Seq<char>,
    devices: Seq<Device>,
    placeholder_public_keys: Seq<Seq<u8>>,
) -> DirectoryView
    decreases devices.len(),
{
    if devices.len() == 0 {
        d
    } else {
        spec_add_device(
            spec_add_devices(d, gw_id, devices.drop_last(), placeholder_public_keys.drop_last()),
            gw_id,
            devices.last(),
            placeholder_public_keys.last(),
        )
    }
}

/// Every device of a request carries AES-128 session keys.
pub open spec fn session_keys_sized(devices: Seq<Device>) -> bool {
    forall|i: int|
        #![trigger devices[i]]
        0 <= i < devices.len() ==> devices[i].edge_s_enc_key@.len() == 16
            && devices[i].edge_s_int_key@.len() == 16
}

/// The state of an [`E2LCrypto`].
pub struct CryptoView {
    pub gw_id: Seq<char>,
    pub private_key: Seq<u8>,
    pub compressed_public_key: Seq<u8>,
    pub directory: DirectoryView,
    pub is_active: bool,
}

/// The gateway's identity, its P-256 key pair, its directory of devices and
/// whether it processes frames.
pub struct E2LCrypto {
    gw_id: String,
    private_key: Vec<u8>,
    compressed_public_key: Vec<u8>,
    active_directory: E2LActiveDirectory,
    is_active: bool,
}

/// A freshly generated key pair.
struct KeyInfo {
    private_key: Vec<u8>,
    compressed_public_key: Vec<u8>,
}

impl View for E2LCrypto {
    type V = CryptoView;

    closed spec fn view(&self) -> CryptoView {
        CryptoView {
            gw_id: self.gw_id@,
            private_key: self.private_key@,
            compressed_public_key: self.compressed_public_key@,
            directory: self.active_directory@,
            is_active: self.is_active,
        }
    }
}

impl E2LCrypto {
    #[verifier::type_invariant]
    closed spec fn keys_match(self) -> bool {
        &&& p256_secret_valid(self.private_key@)
        &&& self.compressed_public_key@ == p256_public_key(self.private_key@)
        &&& p256_point_valid(self.compressed_public_key@)
        &&& self.active_directory.wf()
    }

    /// Generates the gateway's key pair: a random secret scalar and the SEC1
    /// encoding of its public key.
    fn generate_ecc_keys() -> (k: KeyInfo)
        ensures
            p256_secret_valid(k.private_key@),
            k.compressed_public_key@ == p256_public_key(k.private_key@),
            p256_point_valid(k.compressed_public_key@),
    {
        let private_key = generate_secret_key();
        let compressed_public_key = public_key_of(&private_key);
        KeyInfo { private_key, compressed_public_key }
    }

    /// A gateway named `hostname` with a fresh key pair, an empty directory, not
    /// yet active.
    pub fn new(hostname: String) -> (c: Self)
        ensures
            c@.gw_id == hostname@,
            p256_secret_valid(c@.private_key),
            c@.compressed_public_key == p256_public_key(c@.private_key),
            p256_point_valid(c@.compressed_public_key),
            c@.directory.unassociated.is_empty(),
            c@.directory.associated.is_empty(),
            !c@.is_active,
    {
        let key_info = Self::generate_ecc_keys();
        let c = E2LCrypto {
            gw_id: hostname,
            private_key: key_info.private_key,
            compressed_public_key: key_info.compressed_public_key,
            active_directory: E2LActiveDirectory::new(),
            is_active: false,
        };
        c
    }

    /// The gateway's identity.
    pub fn gw_id(&self) -> (r: &String)
        ensures
            r@ == self@.gw_id,
    {
        &self.gw_id
    }

    /// The SEC1 encoding of the gateway's public key, sent to the application
    /// server.
    pub fn compressed_public_key(&self) -> (r: &Vec<u8>)
        ensures
            r@ == self@.compressed_public_key,
            r@ == p256_public_key(self@.private_key),
            p256_point_valid(r@),
            p256_secret_valid(self@.private_key),
    {
        proof {
            use_type_invariant(self);
        }
        &self.compressed_public_key
    }

    /// The directory of devices.
    pub fn active_directory(&self) -> (r: &E2LActiveDirectory)
        ensures
            r.wf(),
            r@ == self@.directory,
    {
        proof {
            use_type_invariant(self);
        }
        &self.active_directory
    }

    /// Switches frame processing on or off.
    pub fn set_active(&mut self, is_active: bool)
        ensures
            final(self)@ == (CryptoView { is_active, ..old(self)@ }),
    {
        proof {
            use_type_invariant(&*self);
        }
        self.is_active = is_active;
    }

    /// Whether the gateway processes frames.
    pub fn is_active(&self) -> (r: bool)
        ensures
            r == self@.is_active,
    {
        self.is_active
    }

    /// Moves the directory out, leaving an empty one in its place.
    fn take_directory(&mut self) -> (d: E2LActiveDirectory)
        ensures
            d.wf(),
            d@ == old(self)@.directory,
            final(self)@.gw_id == old(self)@.gw_id,
            final(self)@.private_key == old(self)@.private_key,
            final(self)@.compressed_public_key == old(self)@.compressed_public_key,
            final(self)@.is_active == old(self)@.is_active,
    {
        proof {
            use_type_invariant(&*self);
        }
        let mut d = E2LActiveDirectory::new();
        std::mem::swap(&mut d, &mut self.active_directory);
        d
    }

    /// Derives a 128-bit session key from the shared secret and a label byte.
    fn derive_session_key(label: u8, secret: &Vec<u8>) -> (key: Vec<u8>)
        ensures
            key@ == derived_key(label, secret@),
            key@.len() == 16,
    {
        let mut input = secret.clone();
        input.insert(0, label);
        assert(input@ =~= seq![label] + secret@);
        let mut digest = sha256_digest(&input);
        digest.truncate(16);
        digest
    }

    /// Handles the public information of a device joining in edge mode: with the
    /// point `g_as_ed` computed by the application server it agrees on the edge
    /// session secret, derives the session keys and records the device as
    /// associated (keeping its recorded frame counters); it answers with the
    /// gateway's contribution to the device's key agreement, the product of the
    /// gateway's secret scalar and the device's public key. When either point
    /// does not decode, nothing changes and the answer is empty.
    pub fn handle_ed_pub_info(
        &mut self,
        dev_eui: String,
        dev_addr: String,
        g_as_ed_compressed: Vec<u8>,
        dev_public_key_compressed: Vec<u8>,
    ) -> (g_gw_ed: Vec<u8>)
        ensures
            !(p256_point_valid(g_as_ed_compressed@) && p256_point_valid(dev_public_key_compressed@))
                ==> g_gw_ed@ == Seq::<u8>::empty() && final(self)@ == old(self)@,
            p256_point_valid(g_as_ed_compressed@) && p256_point_valid(dev_public_key_compressed@)
                ==> {
                let secret = edge_session_secret(old(self)@.private_key, g_as_ed_compressed@);
                &&& g_gw_ed@ == p256_mul(old(self)@.private_key, dev_public_key_compressed@)
                &&& g_gw_ed@.len() == 65
                &&& final(self)@ == (CryptoView {
                    directory: spec_add_associated(
                        old(self)@.directory,
                        dev_eui@,
                        dev_addr@,
                        dev_public_key_compressed@,
                        edge_encryption_key(secret),
                        edge_integrity_key(secret),
                    ),
                    ..old(self)@
                })
            },
    {
        proof {
            use_type_invariant(&*self);
        }
        if !sec1_point_is_valid(&g_as_ed_compressed) {
            return Vec::new();
        }
        if !sec1_point_is_valid(&dev_public_key_compressed) {
            return Vec::new();
        }
        let edge_s_key_point = scalar_point_multiplication(&self.private_key, &g_as_ed_compressed);
        let edge_s_key_bytes = affine_x(&edge_s_key_point);
        let edge_s_int_key = Self::derive_session_key(0, &edge_s_key_bytes);
        let edge_s_enc_key = Self::derive_session_key(1, &edge_s_key_bytes);
        let g_gw_ed = scalar_point_multiplication(&self.private_key, &dev_public_key_compressed);
        let mut directory = self.take_directory();
        directory.add_associated_dev(
            dev_eui,
            dev_addr,
            dev_public_key_compressed,
            edge_s_enc_key,
            edge_s_int_key,
        );
        self.active_directory = directory;
        g_gw_ed
    }

    /// Whether `dev_addr` is an associated device, i.e. whether its frames are
    /// processed in edge mode here.
    pub fn check_e2ed_enabled(&self, dev_addr: String) -> (r: bool)
        ensures
            r == self@.directory.associated.contains_key(dev_addr@),
    {
        proof {
            use_type_invariant(self);
        }
        self.active_directory.is_associated_dev(dev_addr.as_str())
    }

    /// The MQTT message for an uplink of an associated device. `frm_payload` is
    /// the frame payload of the uplink decrypted with the device's edge session
    /// keys (as `get_associated_dev` reports them), or `None` when the decrypted
    /// frame carries no application data. There is no message for a device that
    /// is not associated, nor for a frame without application data.
    pub fn get_json_mqtt_payload(
        &self,
        dev_addr: String,
        fcnt: u16,
        frm_payload: Option<Vec<u8>>,
        packet: &RxpkContent,
        gwmac: String,
    ) -> (r: Option<MqttJson>)
        requires
            self@.directory.associated.contains_key(dev_addr@) && frm_payload is Some
                ==> packet.chan is Some && packet.rssi is Some && packet.lsnr_bits is Some,
        ensures
            r is Some <==> self@.directory.associated.contains_key(dev_addr@) && frm_payload is Some,
            r matches Some(j) ==> edge_message(
                j,
                self@.directory.associated[dev_addr@],
                fcnt,
                frm_payload->0@,
                *packet,
                gwmac@,
            ),
            r matches Some(j) ==> {
                &&& j.dev_addr@ == dev_addr@
                &&& j.dev_eui@ == self@.directory.associated[dev_addr@].dev_eui
                &&& j.fcnt == fcnt
                &&& j.data_rate@ == packet.datr@
                &&& j.coding_rate@ == packet.codr@
                &&& j.gtw_id@ == gwmac@
                &&& Some(j.gtw_rssi) == packet.rssi
                &&& Some(j.gtw_snr_bits) == packet.lsnr_bits
                &&& Some(j.gtw_channel) == packet.chan
            },
    {
        proof {
            use_type_invariant(self);
            self.active_directory.lemma_entries_keyed_by_address();
        }
        match self.active_directory.get_associated_dev(dev_addr.as_str()) {
            Some(dev_info) => match frm_payload {
                Some(frame_payload) => {
                    let timestamp = match &packet.time {
                        Some(t) => t.clone(),
                        None => String::new(),
                    };
                    Some(
                        MqttJson {
                            dev_eui: dev_info.dev_eui,
                            dev_addr: dev_info.dev_addr,
                            fcnt,
                            timestamp,
                            frequency_bits: packet.freq_bits,
                            data_rate: packet.datr.clone(),
                            coding_rate: packet.codr.clone(),
                            gtw_id: gwmac,
                            gtw_channel: packet.chan.unwrap(),
                            gtw_rssi: packet.rssi.unwrap(),
                            gtw_snr_bits: packet.lsnr_bits.unwrap(),
                            payload: base64_encode(&frame_payload),
                        },
                    )
                },
                None => None,
            },
            None => None,
        }
    }

    /// The MQTT message that hands an uplink of an unassociated device over to
    /// the gateway that serves it: the device's identity and gateway, the radio
    /// metadata of the packet and the encrypted PHY payload in Base64. There is
    /// no message for a device that is not recorded as unassociated.
    pub fn get_unassociated_json_mqtt_payload(
        &self,
        dev_addr: String,
        fcnt: u16,
        phy_payload: &[u8],
        packet: &RxpkContent,
        gwmac: String,
    ) -> (r: Option<UnassociatedMqttJson>)
        ensures
            r is Some <==> self@.directory.unassociated.contains_key(dev_addr@),
            r matches Some(j) ==> handover_message(
                j,
                self@.directory.unassociated[dev_addr@],
                fcnt,
                phy_payload@,
                *packet,
                gwmac@,
            ),
            r matches Some(j) ==> {
                &&& j.dev_addr@ == dev_addr@
                &&& j.dev_eui@ == self@.directory.unassociated[dev_addr@].dev_eui
                &&& j.gw_id@ == self@.directory.unassociated[dev_addr@].e2gw_id
                &&& j.gwmac@ == gwmac@
                &&& j.fcnt == fcnt
                &&& j.datr@ == packet.datr@
                &&& j.codr@ == packet.codr@
                &&& j.modu@ == packet.modu@
                &&& j.rssi == packet.rssi
                &&& j.lsnr_bits == packet.lsnr_bits
                &&& j.freq_bits == packet.freq_bits
            },
    {
        proof {
            use_type_invariant(self);
            self.active_directory.lemma_entries_keyed_by_address();
        }
        match self.active_directory.get_unassociated_dev(dev_addr.as_str()) {
            Some(dev_info) => {
                let p = packet.clone();
                Some(
                    UnassociatedMqttJson {
                        dev_eui: dev_info.dev_eui,
                        dev_addr: dev_info.dev_addr,
                        gw_id: dev_info.e2gw_id,
                        gwmac,
                        fcnt,
                        time: p.time,
                        tmst: p.tmst,
                        freq_bits: p.freq_bits,
                        chan: p.chan,
                        stat: p.stat,
                        modu: p.modu,
                        datr: p.datr,
                        codr: p.codr,
                        rssi: p.rssi,
                        lsnr_bits: p.lsnr_bits,
                        size: p.size,
                        data: base64_encode(phy_payload),
                    },
                )
            },
            None => None,
        }
    }

    /// Forgets a device: its associated entry when it has one, otherwise its
    /// unassociated entry. Answers with status code -1 and empty data.
    pub fn remove_e2device(&mut self, dev_addr: String) -> (r: E2lData)
        ensures
            final(self)@ == (CryptoView {
                directory: if old(self)@.directory.associated.contains_key(dev_addr@) {
                    spec_remove_associated(old(self)@.directory, dev_addr@)
                } else {
                    spec_remove_unassociated(old(self)@.directory, dev_addr@)
                },
                ..old(self)@
            }),
            r.status_code == -1,
            r.dev_eui@ == Seq::<char>::empty(),
            r.dev_addr@ == Seq::<char>::empty(),
            r.aggregated_data == 0,
            r.aggregated_data_num == 0,
            r.timetag == 0,
    {
        proof {
            use_type_invariant(&*self);
        }
        let mut directory = self.take_directory();
        if directory.is_associated_dev(dev_addr.as_str()) {
            directory.remove_associated_dev(dev_addr.as_str());
        } else {
            directory.remove_unassociated_dev(dev_addr.as_str());
        }
        self.active_directory = directory;
        E2lData {
            status_code: -1,
            dev_eui: String::new(),
            dev_addr: String::new(),
            aggregated_data: 0,
            aggregated_data_num: 0,
            timetag: 0,
        }
    }

    /// Records the devices of a request from the application server, in order
    /// (see `spec_add_device`). Each device gets a placeholder public key, the
    /// public key of a freshly drawn secret, whichever gateway serves it.
    pub fn add_devices(&mut self, device_list: Vec<Device>) -> (r: GwResponse)
        requires
            session_keys_sized(device_list@),
        ensures
            exists|placeholders: Seq<Seq<u8>>|
                {
                    &&& placeholders.len() == device_list@.len()
                    &&& forall|i: int|
                        0 <= i < placeholders.len() ==> is_public_key(#[trigger] placeholders[i])
                    &&& final(self)@ == (CryptoView {
                        directory: #[trigger] spec_add_devices(
                            old(self)@.directory,
                            old(self)@.gw_id,
                            device_list@,
                            placeholders,
                        ),
                        ..old(self)@
                    })
                },
            r.status_code == 0,
            r.message@ == "Devices added"@,
    {
        proof {
            use_type_invariant(&*self);
        }
        let ghost old_directory = self@.directory;
        let mut directory = self.take_directory();
        let ghost mut placeholders: Seq<Seq<u8>> = Seq::empty();
        let mut i: usize = 0;
        while i < device_list.len()
            invariant
                i <= device_list@.len(),
                session_keys_sized(device_list@),
                directory.wf(),
                placeholders.len() == i,
                forall|j: int| 0 <= j < i ==> is_public_key(#[trigger] placeholders[j]),
                directory@ == spec_add_devices(
                    old_directory,
                    self.gw_id@,
                    device_list@.take(i as int),
                    placeholders,
                ),
            decreases device_list.len() - i,
        {
            let device = &device_list[i];
            let placeholder_secret = generate_secret_key();
            let placeholder_public_key = public_key_of(&placeholder_secret);
            let ghost pk = placeholder_public_key@;
            assert(is_public_key(pk));
            if device.assigned_gw != self.gw_id {
                directory.add_unassociated_dev(
                    device.dev_eui.clone(),
                    device.dev_addr.clone(),
                    device.assigned_gw.clone(),
                );
            } else {
                let enc_key = device.edge_s_enc_key.clone();
                let int_key = device.edge_s_int_key.clone();
                assert(enc_key@ =~= device.edge_s_enc_key@);
                assert(int_key@ =~= device.edge_s_int_key@);
                directory.add_associated_dev(
                    device.dev_eui.clone(),
                    device.dev_addr.clone(),
                    placeholder_public_key,
                    enc_key,
                    int_key,
                );
            }
            proof {
                let next = device_list@.take(i + 1);
                assert(next.drop_last() =~= device_list@.take(i as int));
                assert(next.last() == device_list@[i as int]);
                assert(placeholders.push(pk).drop_last() =~= placeholders);
                placeholders = placeholders.push(pk);
            }
            i = i + 1;
        }
        assert(device_list@.take(i as int) =~= device_list@);
        self.active_directory = directory;
        GwResponse { status_code: 0, message: "Devices added".to_owned() }
    }

    /// Control command `add_unassigned_device`: records a device served by
    /// another gateway.
    pub fn add_unassigned_device(&mut self, device: NewUnassociatedDevice)
        ensures
            final(self)@ == (CryptoView {
                directory: spec_add_unassociated(
                    old(self)@.directory,
                    device.dev_eui@,
                    device.dev_addr@,
                    device.assigned_gw@,
                ),
                ..old(self)@
            }),
    {
        proof {
            use_type_invariant(&*self);
        }
        let mut directory = self.take_directory();
        directory.add_unassociated_dev(device.dev_eui, device.dev_addr, device.assigned_gw);
        self.active_directory = directory;
    }

    /// Control command `remove_assigned_device`: forgets an associated device.
    pub fn remove_assigned_device(&mut self, dev_addr: String)
        ensures
            final(self)@ == (CryptoView {
                directory: spec_remove_associated(old(self)@.directory, dev_addr@),
                ..old(self)@
            }),
    {
        proof {
            use_type_invariant(&*self);
        }
        let mut directory = self.take_directory();
        directory.remove_associated_dev(dev_addr.as_str());
        self.active_directory = directory;
    }

    /// Control command `remove_unassigned_device`: forgets an unassociated device.
    pub fn remove_unassigned_device(&mut self, dev_addr: String)
        ensures
            final(self)@ == (CryptoView {
                directory: spec_remove_unassociated(old(self)@.directory, dev_addr@),
                ..old(self)@
            }),
    {
        proof {
            use_type_invariant(&*self);
        }
        let mut directory = self.take_directory();
        directory.remove_unassociated_dev(dev_addr.as_str());
        self.active_directory = directory;
    }
}

} // verus!
