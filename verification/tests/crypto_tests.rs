use e2l_parser::crypto::E2LCrypto;
use e2l_parser::lora::RxpkContent;
use e2l_parser::mqtt_client::NewUnassociatedDevice;
use e2l_parser::rpc::{
    add_devices, handle_ed_pub_info, remove_e2device, set_active, update_aggregation_params,
    ActiveFlag, AggregationParams, Device, E2lDeviceInfo, E2lDevicesInfoComplete, EdPubInfo,
};
use p256::elliptic_curve::point::AffineCoordinates;
use p256::elliptic_curve::rand_core::OsRng;
use p256::{PublicKey, SecretKey};
use sha2::{Digest, Sha256};

fn product(secret: &SecretKey, point_sec1: &[u8]) -> PublicKey {
    let point = PublicKey::from_sec1_bytes(point_sec1).unwrap();
    let p = (point.to_projective() * *secret.to_nonzero_scalar()).to_affine();
    PublicKey::from_affine(p).unwrap()
}

fn derived(label: u8, secret: &[u8]) -> Vec<u8> {
    let mut input = vec![label];
    input.extend_from_slice(secret);
    Sha256::digest(&input)[0..16].to_vec()
}

fn packet() -> RxpkContent {
    RxpkContent {
        time: Some("2024-01-01T00:00:00Z".to_string()),
        tmst: 42,
        freq_bits: 868.1f32.to_bits(),
        chan: Some(3),
        stat: Some(1),
        modu: "LORA".to_string(),
        datr: "SF7BW125".to_string(),
        codr: "4/5".to_string(),
        rssi: Some(-57),
        lsnr_bits: Some(9.5f32.to_bits()),
        size: 26,
        data: "QAQDAgGAAQAE".to_string(),
    }
}

#[test]
fn new_gateway_has_valid_key_pair_and_is_inactive() {
    let c = E2LCrypto::new("gw-1".to_string());
    assert_eq!(c.gw_id(), "gw-1");
    assert!(!c.is_active());
    let public = c.compressed_public_key();
    assert_eq!(public.len(), 65);
    assert!(PublicKey::from_sec1_bytes(public).is_ok());
    assert!(!c.check_e2ed_enabled("01020304".to_string()));
}

#[test]
fn key_exchange_derives_edge_session_keys() {
    let mut c = E2LCrypto::new("gw-1".to_string());
    let app_server = SecretKey::random(&mut OsRng);
    let device = SecretKey::random(&mut OsRng);
    let g_as_ed = app_server.public_key().to_sec1_bytes().to_vec();
    let dev_pub = device.public_key().to_sec1_bytes().to_vec();
    let gw_pub = c.compressed_public_key().clone();

    let g_gw_ed =
        c.handle_ed_pub_info("eui-1".to_string(), "01020304".to_string(), g_as_ed, dev_pub.clone());

    // The device derives the same point from the gateway's public key.
    assert_eq!(g_gw_ed, product(&device, &gw_pub).to_sec1_bytes().to_vec());
    // The application server derives the same shared secret.
    let shared = product(&app_server, &gw_pub);
    let x = shared.as_affine().x().to_vec();
    let info = c.active_directory().get_associated_dev("01020304").unwrap();
    assert_eq!(info.edge_s_int_key, derived(0, &x));
    assert_eq!(info.edge_s_enc_key, derived(1, &x));
    assert_eq!(info.dev_public_key, dev_pub);
    assert_eq!(info.dev_eui, "eui-1");
    assert!(info.fcnts.is_empty());
    assert!(c.check_e2ed_enabled("01020304".to_string()));
}

#[test]
fn key_exchange_with_bad_point_changes_nothing() {
    let mut c = E2LCrypto::new("gw-1".to_string());
    let device = SecretKey::random(&mut OsRng);
    let dev_pub = device.public_key().to_sec1_bytes().to_vec();
    let r = c.handle_ed_pub_info("e".to_string(), "A".to_string(), vec![1, 2, 3], dev_pub.clone());
    assert!(r.is_empty());
    let r = c.handle_ed_pub_info("e".to_string(), "A".to_string(), dev_pub, vec![4; 65]);
    assert!(r.is_empty());
    assert!(!c.check_e2ed_enabled("A".to_string()));
}

#[test]
fn rpc_key_exchange_status_codes() {
    let mut c = E2LCrypto::new("gw-1".to_string());
    let device = SecretKey::random(&mut OsRng);
    let dev_pub = device.public_key().to_sec1_bytes().to_vec();
    let refused = handle_ed_pub_info(
        &mut c,
        EdPubInfo {
            dev_eui: "e".to_string(),
            dev_addr: "A".to_string(),
            g_as_ed: vec![],
            dev_public_key: dev_pub.clone(),
        },
    );
    assert_eq!(refused.status_code, -1);
    assert!(refused.g_gw_ed.is_empty());
    let accepted = handle_ed_pub_info(
        &mut c,
        EdPubInfo {
            dev_eui: "e".to_string(),
            dev_addr: "A".to_string(),
            g_as_ed: dev_pub.clone(),
            dev_public_key: dev_pub,
        },
    );
    assert_eq!(accepted.status_code, 0);
    assert_eq!(accepted.g_gw_ed.len(), 65);
    assert!(c.check_e2ed_enabled("A".to_string()));
}

#[test]
fn add_devices_routes_by_assigned_gateway() {
    let mut c = E2LCrypto::new("gw-1".to_string());
    let reply = c.add_devices(vec![
        Device {
            dev_eui: "e1".to_string(),
            dev_addr: "A1".to_string(),
            edge_s_enc_key: vec![1; 16],
            edge_s_int_key: vec![2; 16],
            assigned_gw: "gw-1".to_string(),
        },
        Device {
            dev_eui: "e2".to_string(),
            dev_addr: "A2".to_string(),
            edge_s_enc_key: vec![3; 16],
            edge_s_int_key: vec![4; 16],
            assigned_gw: "gw-2".to_string(),
        },
    ]);
    assert_eq!(reply.status_code, 0);
    assert_eq!(reply.message, "Devices added");
    let a1 = c.active_directory().get_associated_dev("A1").unwrap();
    assert_eq!(a1.edge_s_enc_key, vec![1; 16]);
    assert_eq!(a1.edge_s_int_key, vec![2; 16]);
    assert!(PublicKey::from_sec1_bytes(&a1.dev_public_key).is_ok());
    assert!(c.active_directory().get_associated_dev("A2").is_none());
    assert_eq!(c.active_directory().get_unassociated_dev("A2").unwrap().e2gw_id, "gw-2");
}

#[test]
fn remove_e2device_prefers_associated_entry() {
    let mut c = E2LCrypto::new("gw-1".to_string());
    c.add_devices(vec![Device {
        dev_eui: "e".to_string(),
        dev_addr: "A".to_string(),
        edge_s_enc_key: vec![0; 16],
        edge_s_int_key: vec![0; 16],
        assigned_gw: "gw-1".to_string(),
    }]);
    c.add_unassigned_device(NewUnassociatedDevice {
        dev_eui: "e".to_string(),
        dev_addr: "A".to_string(),
        assigned_gw: "gw-9".to_string(),
    });
    let r = c.remove_e2device("A".to_string());
    assert_eq!(r.status_code, -1);
    assert_eq!(r.dev_eui, "");
    assert_eq!(r.timetag, 0);
    assert!(!c.check_e2ed_enabled("A".to_string()));
    assert!(c.active_directory().get_unassociated_dev("A").is_some());
    c.remove_e2device("A".to_string());
    assert!(c.active_directory().get_unassociated_dev("A").is_none());
}

#[test]
fn rpc_remove_looks_up_the_dev_eui() {
    let mut c = E2LCrypto::new("gw-1".to_string());
    c.add_unassigned_device(NewUnassociatedDevice {
        dev_eui: "x".to_string(),
        dev_addr: "EUI".to_string(),
        assigned_gw: "gw-9".to_string(),
    });
    remove_e2device(&mut c, E2lDeviceInfo { dev_eui: "EUI".to_string(), dev_addr: "other".to_string() });
    assert!(c.active_directory().get_unassociated_dev("EUI").is_none());
}

#[test]
fn rpc_parameters_and_activation() {
    let mut c = E2LCrypto::new("gw-1".to_string());
    let r = update_aggregation_params(AggregationParams { aggregation_function: 1, window_size: 10 });
    assert_eq!(r.status_code, 0);
    assert_eq!(r.message, "Parameters Updated!");
    let r = set_active(&mut c, ActiveFlag { is_active: true });
    assert_eq!(r.message, "Parameters Updated!");
    assert!(c.is_active());
    c.set_active(false);
    assert!(!c.is_active());
    let r = add_devices(&mut c, E2lDevicesInfoComplete { device_list: vec![] });
    assert_eq!(r.status_code, 0);
}

#[test]
fn mqtt_payload_of_associated_device() {
    let mut c = E2LCrypto::new("gw-1".to_string());
    c.add_devices(vec![Device {
        dev_eui: "eui-7".to_string(),
        dev_addr: "01020304".to_string(),
        edge_s_enc_key: vec![0; 16],
        edge_s_int_key: vec![0; 16],
        assigned_gw: "gw-1".to_string(),
    }]);
    let p = packet();
    let j = c
        .get_json_mqtt_payload("01020304".to_string(), 5, Some(vec![1, 2, 3]), &p, "aabb".to_string())
        .unwrap();
    assert_eq!(j.dev_eui, "eui-7");
    assert_eq!(j.dev_addr, "01020304");
    assert_eq!(j.fcnt, 5);
    assert_eq!(j.timestamp, "2024-01-01T00:00:00Z");
    assert_eq!(f32::from_bits(j.frequency_bits), 868.1f32);
    assert_eq!(j.data_rate, "SF7BW125");
    assert_eq!(j.coding_rate, "4/5");
    assert_eq!(j.gtw_id, "aabb");
    assert_eq!(j.gtw_channel, 3);
    assert_eq!(j.gtw_rssi, -57);
    assert_eq!(f32::from_bits(j.gtw_snr_bits), 9.5f32);
    assert_eq!(j.payload, "AQID");
    assert!(c.get_json_mqtt_payload("01020304".to_string(), 5, None, &p, "aabb".to_string()).is_none());
    assert!(c.get_json_mqtt_payload("FFFFFFFF".to_string(), 5, Some(vec![1]), &p, "aabb".to_string()).is_none());
    let mut untimed = packet();
    untimed.time = None;
    let j = c
        .get_json_mqtt_payload("01020304".to_string(), 5, Some(vec![]), &untimed, "aabb".to_string())
        .unwrap();
    assert_eq!(j.timestamp, "");
    assert_eq!(j.payload, "");
}

#[test]
fn handover_payload_of_unassociated_device() {
    let mut c = E2LCrypto::new("gw-1".to_string());
    c.add_unassigned_device(NewUnassociatedDevice {
        dev_eui: "eui-2".to_string(),
        dev_addr: "0A0B0C0D".to_string(),
        assigned_gw: "gw-2".to_string(),
    });
    let p = packet();
    let j = c
        .get_unassociated_json_mqtt_payload("0A0B0C0D".to_string(), 9, &[0x40, 0xff], &p, "mac".to_string())
        .unwrap();
    assert_eq!(j.dev_eui, "eui-2");
    assert_eq!(j.gw_id, "gw-2");
    assert_eq!(j.gwmac, "mac");
    assert_eq!(j.fcnt, 9);
    assert_eq!(j.tmst, 42);
    assert_eq!(j.chan, Some(3));
    assert_eq!(j.rssi, Some(-57));
    assert_eq!(j.size, 26);
    assert_eq!(j.data, "QP8=");
    assert!(c
        .get_unassociated_json_mqtt_payload("01020304".to_string(), 9, &[1], &p, "mac".to_string())
        .is_none());
}
