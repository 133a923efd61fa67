//! The messages of the gateway's control RPC service and the replies its
//! handlers give.

use vstd::prelude::*;
use crate::crypto::{
    edge_encryption_key, edge_integrity_key, edge_session_secret, is_public_key,
    session_keys_sized, spec_add_devices, CryptoView, E2LCrypto,
};
use crate::directory::{spec_add_associated, spec_remove_associated, spec_remove_unassociated};
use crate::ecc::{p256_mul, p256_point_valid};

verus! {

/// A device handed to the gateway by the application server, with its edge
/// session keys and the gateway that serves it.
pub struct Device {
    pub dev_eui: String,
    pub dev_addr: String,
    pub edge_s_enc_key: Vec<u8>,
    pub edge_s_int_key: Vec<u8>,
    pub assigned_gw: String,
}

/// A generic reply: a status code and a message.
pub struct GwResponse {
    pub status_code: i32,
    pub message: String,
}

/// The reply to a device's public information: the gateway's contribution to the
/// key agreement.
pub struct GwInfo {
    pub status_code: i32,
    pub g_gw_ed: Vec<u8>,
}

/// Aggregated data about a device.
pub struct E2lData {
    pub status_code: i32,
    pub dev_eui: String,
    pub dev_addr: String,
    pub aggregated_data: i32,
    pub aggregated_data_num: i32,
    pub timetag: u64,
}

/// A device's public information: its identity, the point `g_as_ed` computed by
/// the application server and the device's public key, both SEC1 encoded.
pub struct EdPubInfo {
    pub dev_eui: String,
    pub dev_addr: String,
    pub g_as_ed: Vec<u8>,
    pub dev_public_key: Vec<u8>,
}

/// New aggregation parameters.
pub struct AggregationParams {
    pub aggregation_function: u32,
    pub window_size: u32,
}

/// A device to forget.
pub struct E2lDeviceInfo {
    pub dev_eui: String,
    pub dev_addr: String,
}

/// Devices to record.
pub struct E2lDevicesInfoComplete {
    pub device_list: Vec<Device>,
}

/// Whether the gateway should process frames.
pub struct ActiveFlag {
    pub is_active: bool,
}

/// Answers a device's public information: status 0 and the gateway's
/// contribution to the key agreement when both points decode (and the device is
/// then associated), status -1 and no data otherwise (nothing changes).
pub fn handle_ed_pub_info(crypto: &mut E2LCrypto, request: EdPubInfo) -> (reply: GwInfo)
    ensures
        (reply.status_code == -1) == (reply.g_gw_ed@.len() == 0),
        reply.status_code == 0 || reply.status_code == -1,
        !(p256_point_valid(request.g_as_ed@) && p256_point_valid(request.dev_public_key@)) ==> {
            &&& reply.status_code == -1
            &&& reply.g_gw_ed@ == Seq::<u8>::empty()
            &&& final(crypto)@ == old(crypto)@
        },
        p256_point_valid(request.g_as_ed@) && p256_point_valid(request.dev_public_key@) ==> {
            let secret = edge_session_secret(old(crypto)@.private_key, request.g_as_ed@);
            &&& reply.status_code == 0
            &&& reply.g_gw_ed@ == p256_mul(old(crypto)@.private_key, request.dev_public_key@)
            &&& reply.g_gw_ed@.len() == 65
            &&& final(crypto)@ == (CryptoView {
                directory: spec_add_associated(
                    old(crypto)@.directory,
                    request.dev_eui@,
                    request.dev_addr@,
                    request.dev_public_key@,
                    edge_encryption_key(secret),
                    edge_integrity_key(secret),
                ),
                ..old(crypto)@
            })
        },
{
    let g_gw_ed = crypto.handle_ed_pub_info(
        request.dev_eui,
        request.dev_addr,
        request.g_as_ed,
        request.dev_public_key,
    );
    if g_gw_ed.len() == 0 {
        GwInfo { status_code: -1, g_gw_ed }
    } else {
        GwInfo { status_code: 0, g_gw_ed }
    }
}

/// Acknowledges new aggregation parameters (they are not used).
pub fn update_aggregation_params(request: AggregationParams) -> (reply: GwResponse)
    ensures
        reply.status_code == 0,
        reply.message@ == "Parameters Updated!"@,
{
    GwResponse { status_code: 0, message: "Parameters Updated!".to_owned() }
}

/// Forgets a device. The request's `dev_eui` is what is looked up as the
/// device address.
pub fn remove_e2device(crypto: &mut E2LCrypto, request: E2lDeviceInfo) -> (reply: E2lData)
    ensures
        final(crypto)@ == (CryptoView {
            directory: if old(crypto)@.directory.associated.contains_key(request.dev_eui@) {
                spec_remove_associated(old(crypto)@.directory, request.dev_eui@)
            } else {
                spec_remove_unassociated(old(crypto)@.directory, request.dev_eui@)
            },
            ..old(crypto)@
        }),
        reply.status_code == -1,
        reply.dev_eui@ == Seq::<char>::empty(),
        reply.dev_addr@ == Seq::<char>::empty(),
        reply.aggregated_data == 0,
        reply.aggregated_data_num == 0,
        reply.timetag == 0,
{
    crypto.remove_e2device(request.dev_eui)
}

/// Records the devices of the request (see `E2LCrypto::add_devices`).
pub fn add_devices(crypto: &mut E2LCrypto, request: E2lDevicesInfoComplete) -> (reply: GwResponse)
    requires
        session_keys_sized(request.device_list@),
    ensures
        exists|placeholders: Seq<Seq<u8>>|
            {
                &&& placeholders.len() == request.device_list@.len()
                &&& forall|i: int|
                    0 <= i < placeholders.len() ==> is_public_key(#[trigger] placeholders[i])
                &&& final(crypto)@ == (CryptoView {
                    directory: #[trigger] spec_add_devices(
                        old(crypto)@.directory,
                        old(crypto)@.gw_id,
                        request.device_list@,
                        placeholders,
                    ),
                    ..old(crypto)@
                })
            },
        reply.status_code == 0,
        reply.message@ == "Devices added"@,
{
    crypto.add_devices(request.device_list)
}

/// Switches frame processing on or off.
pub fn set_active(crypto: &mut E2LCrypto, request: ActiveFlag) -> (reply: GwResponse)
    ensures
        final(crypto)@ == (CryptoView { is_active: request.is_active, ..old(crypto)@ }),
        reply.status_code == 0,
        reply.message@ == "Parameters Updated!"@,
{
    crypto.set_active(request.is_active);
    GwResponse { status_code: 0, message: "Parameters Updated!".to_owned() }
}

} // verus!
