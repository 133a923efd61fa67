use e2l_parser::crypto::E2LCrypto;
use e2l_parser::lora::{
    dev_addr_string, extract_dev_addr_array, gateway_mac, handle_data_payload, packet_name,
    uplink_route, FrameClass, Publication, PushDataState, RxpkContent, UplinkRoute,
};
use e2l_parser::mqtt_client::NewUnassociatedDevice;
use e2l_parser::rpc::Device;
use e2l_parser::stats::FrameCounters;

fn packet() -> RxpkContent {
    RxpkContent {
        time: None,
        tmst: 7,
        freq_bits: 868.3f32.to_bits(),
        chan: Some(0),
        stat: Some(1),
        modu: "LORA".to_string(),
        datr: "SF7BW125".to_string(),
        codr: "4/5".to_string(),
        rssi: Some(-40),
        lsnr_bits: Some(10.0f32.to_bits()),
        size: 30,
        data: "QAQDAgGAAQAE".to_string(),
    }
}

fn gateway() -> E2LCrypto {
    let mut c = E2LCrypto::new("gw-1".to_string());
    c.add_devices(vec![Device {
        dev_eui: "eui-1".to_string(),
        dev_addr: "01020304".to_string(),
        edge_s_enc_key: vec![0; 16],
        edge_s_int_key: vec![0; 16],
        assigned_gw: "gw-1".to_string(),
    }]);
    c.add_unassigned_device(NewUnassociatedDevice {
        dev_eui: "eui-2".to_string(),
        dev_addr: "0A0B0C0D".to_string(),
        assigned_gw: "gw-2".to_string(),
    });
    c
}

const ADDR_1: [u8; 4] = [0x04, 0x03, 0x02, 0x01];
const ADDR_2: [u8; 4] = [0x0d, 0x0c, 0x0b, 0x0a];

#[test]
fn packet_names() {
    assert_eq!(packet_name(0), Some("PUSH_DATA"));
    assert_eq!(packet_name(3), Some("PULL_RESP"));
    assert_eq!(packet_name(5), Some("TX_ACK"));
    assert_eq!(packet_name(6), None);
}

#[test]
fn gateway_mac_is_lower_case_hex_of_bytes_4_to_11() {
    let datagram = [2u8, 0x12, 0x34, 0, 0xAA, 0xBB, 0xCC, 0xDD, 0x01, 0x02, 0x03, 0xEF, b'{'];
    assert_eq!(gateway_mac(&datagram), "aabbccdd010203ef");
}

#[test]
fn device_address_is_reversed_upper_hex() {
    assert_eq!(dev_addr_string(&ADDR_1), "01020304");
    assert_eq!(dev_addr_string(&[0xab, 0x00]), "00AB");
    assert_eq!(extract_dev_addr_array(vec![1, 2, 3, 4]), [1, 2, 3, 4]);
    assert_eq!(extract_dev_addr_array(vec![1, 2, 3]), [0, 0, 0, 0]);
}

#[test]
fn routes() {
    let mut c = gateway();
    assert!(uplink_route(&c, &"01020304".to_string(), 4) == UplinkRoute::Inactive);
    c.set_active(true);
    assert!(uplink_route(&c, &"01020304".to_string(), 4) == UplinkRoute::Edge);
    assert!(uplink_route(&c, &"0A0B0C0D".to_string(), 4) == UplinkRoute::Handover);
    assert!(uplink_route(&c, &"01020304".to_string(), 2) == UplinkRoute::NetworkServer);
    assert!(uplink_route(&c, &"01020304".to_string(), 1) == UplinkRoute::Ignored);
    c.remove_assigned_device("01020304".to_string());
    assert!(uplink_route(&c, &"01020304".to_string(), 4) == UplinkRoute::Handover);
}

#[test]
fn inactive_gateway_drops_frames() {
    let c = gateway();
    let mut counters = FrameCounters::default();
    let r = handle_data_payload(&c, &mut counters, &ADDR_1, 1, 4, Some(vec![1]), &[0x40], &packet(), "m".to_string());
    assert_eq!(r.will_send, None);
    assert!(matches!(r.publication, Publication::Nothing));
    assert_eq!(counters.proc_frames, 0);
}

#[test]
fn edge_frame_is_published_for_processing() {
    let mut c = gateway();
    c.set_active(true);
    let mut counters = FrameCounters::default();
    let r = handle_data_payload(&c, &mut counters, &ADDR_1, 11, 4, Some(vec![0xff]), &[0x40], &packet(), "m".to_string());
    assert_eq!(r.will_send, Some(false));
    assert_eq!(counters.proc_frames, 1);
    match r.publication {
        Publication::Process(j) => {
            assert_eq!(j.dev_eui, "eui-1");
            assert_eq!(j.fcnt, 11);
            assert_eq!(j.payload, "/w==");
        }
        _ => panic!("expected a processing message"),
    }
    let r = handle_data_payload(&c, &mut counters, &ADDR_1, 12, 4, None, &[0x40], &packet(), "m".to_string());
    assert_eq!(r.will_send, None);
    assert_eq!(counters.proc_frames, 1);
}

#[test]
fn handover_and_forwarding() {
    let mut c = gateway();
    c.set_active(true);
    let mut counters = FrameCounters::default();
    let r = handle_data_payload(&c, &mut counters, &ADDR_2, 3, 4, None, &[1, 2, 3], &packet(), "mac".to_string());
    assert_eq!(r.will_send, Some(false));
    match r.publication {
        Publication::Handover(gw, j) => {
            assert_eq!(gw, "gw-2");
            assert_eq!(j.data, "AQID");
            assert_eq!(j.gwmac, "mac");
        }
        _ => panic!("expected a handover message"),
    }
    assert_eq!(counters.tx_ho_frames, 1);
    assert_eq!(counters.proc_frames, 0);
    let r = handle_data_payload(&c, &mut counters, &[9, 9, 9, 9], 3, 4, None, &[1], &packet(), "m".to_string());
    assert_eq!(r.will_send, Some(false));
    assert!(matches!(r.publication, Publication::Nothing));
    assert_eq!(counters.tx_ho_frames, 1);
    let r = handle_data_payload(&c, &mut counters, &ADDR_1, 3, 2, None, &[1], &packet(), "m".to_string());
    assert_eq!(r.will_send, Some(true));
    assert_eq!(counters.fw_frames, 1);
    let r = handle_data_payload(&c, &mut counters, &ADDR_1, 3, 9, None, &[1], &packet(), "m".to_string());
    assert_eq!(r.will_send, Some(false));
    assert_eq!(counters.fw_frames, 1);
}

#[test]
fn push_data_walk() {
    let mut counters = FrameCounters::default();
    let mut state = PushDataState::new();
    assert!(state.will_send && !state.stopped);
    assert!(!state.accept_packet(&mut counters, &packet(), 10, FrameClass::EncryptedData));
    assert!(state.packets.is_empty());
    assert!(!state.accept_packet(&mut counters, &packet(), 26, FrameClass::JoinRequest));
    assert!(state.will_send);
    assert!(state.accept_packet(&mut counters, &packet(), 30, FrameClass::EncryptedData));
    assert_eq!(counters.rx_frames, 1);
    state.data_outcome(Some(false));
    assert!(!state.will_send && !state.stopped);
    assert_eq!(state.packets.len(), 2);
    state.data_outcome(None);
    assert!(state.stopped);

    let mut state = PushDataState::new();
    assert!(!state.accept_packet(&mut counters, &packet(), 40, FrameClass::Unparsable));
    assert!(!state.will_send && state.stopped);
    assert_eq!(counters.rx_frames, 1);
}

#[test]
fn handover_payload_is_standard_base64() {
    let mut c = gateway();
    c.set_active(true);
    let mut counters = FrameCounters::default();
    for (phy, text) in [(vec![1u8], "AQ=="), (vec![0xfb, 0xff], "+/8="), (vec![0x4d, 0x61, 0x6e, 0x4d], "TWFuTQ==")] {
        let r = handle_data_payload(&c, &mut counters, &ADDR_2, 1, 4, None, &phy, &packet(), "m".to_string());
        match r.publication {
            Publication::Handover(_, j) => assert_eq!(j.data, text),
            _ => panic!("expected a handover message"),
        }
    }
    assert_eq!(counters.tx_ho_frames, 3);
}
