use e2l_parser::devices::{collect_packets_for_devices, parse_datr};
use e2l_parser::lora::RxpkContent;

fn packet(data: &str, chan: Option<u32>, datr: &str, freq: f32) -> RxpkContent {
    RxpkContent {
        time: None,
        tmst: 0,
        freq_bits: freq.to_bits(),
        chan,
        stat: None,
        modu: "LORA".to_string(),
        datr: datr.to_string(),
        codr: "4/5".to_string(),
        rssi: None,
        lsnr_bits: None,
        size: 20,
        data: data.to_string(),
    }
}

#[test]
fn parse_datr_reads_spreading_factor_and_bandwidth() {
    assert_eq!(parse_datr("SF7BW125"), Some(("SF7".to_string(), 125)));
    assert_eq!(parse_datr("SF12BW500"), Some(("SF12".to_string(), 500)));
    assert_eq!(parse_datr("SFBW125"), None);
    assert_eq!(parse_datr("SF7BW"), None);
    assert_eq!(parse_datr("SF7BW+1"), None);
    assert_eq!(parse_datr("SF7BW12x"), None);
    assert_eq!(parse_datr("FSK"), None);
}

#[test]
fn packets_grouped_by_device() {
    let a1 = packet("AAAAAAAABBBBrest", Some(1), "SF7BW125", 868.1);
    let a2 = packet("ZZZZZZZZBBBBmore", Some(2), "SF9BW125", 868.3);
    let b1 = packet("AAAAAAAACCCCrest", None, "bad", 868.1);
    let groups = collect_packets_for_devices(vec![a1.clone(), b1, a2]);
    assert_eq!(groups.len(), 2);
    let key_a = hex::encode("BBBB");
    let key_b = hex::encode("CCCC");
    let (_, a) = groups.iter().find(|(k, _)| *k == key_a).unwrap();
    assert_eq!(a.dev_eui, hex::encode("AAAAAAAA"));
    assert_eq!(a.dev_addr, key_a);
    assert_eq!(a.rxpk.len(), 2);
    assert_eq!(a.rxpk[0].data, a1.data);
    assert_eq!(a.freq_set.len(), 2);
    assert_eq!(a.chan_set.len(), 2);
    assert_eq!(a.sf_set.len(), 2);
    assert_eq!(a.bw_set, vec![125]);
    let (_, b) = groups.iter().find(|(k, _)| *k == key_b).unwrap();
    assert_eq!(b.rxpk.len(), 1);
    assert!(b.chan_set.is_empty());
    assert!(b.sf_set.is_empty() && b.bw_set.is_empty());
    assert_eq!(b.modu_set, vec!["LORA".to_string()]);
}

#[test]
fn no_packets_no_groups() {
    assert!(collect_packets_for_devices(vec![]).is_empty());
}

#[test]
fn packets_grouped_by_bytes_of_non_ascii_data() {
    // Four two-byte characters make up bytes 0 to 7; bytes 8 to 11 are "KEY1".
    let data = "éééé".to_string() + "KEY1" + "ü";
    let p = packet(&data, Some(3), "SF7BW125", 868.5);
    let groups = collect_packets_for_devices(vec![p]);
    assert_eq!(groups.len(), 1);
    let (key, g) = &groups[0];
    assert_eq!(*key, hex::encode("KEY1"));
    assert_eq!(g.dev_addr, "4b455931");
    assert_eq!(g.dev_eui, hex::encode("éééé"));
    assert_eq!(g.dev_eui, "c3a9c3a9c3a9c3a9");
}
