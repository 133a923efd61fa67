use e2l_parser::lora::RxpkContent;
use e2l_parser::stats::{
    network_kilobits, swap_percentage, CombinedStats, DeviceAverages, DeviceStats, FrameCounters,
    FrameKind, GwStats,
};

fn packet(freq: f32, chan: u32, datr: &str) -> RxpkContent {
    RxpkContent {
        time: None,
        tmst: 1,
        freq_bits: freq.to_bits(),
        chan: Some(chan),
        stat: None,
        modu: "LORA".to_string(),
        datr: datr.to_string(),
        codr: "4/5".to_string(),
        rssi: Some(-60),
        lsnr_bits: Some(7.0f32.to_bits()),
        size: 30,
        data: String::new(),
    }
}

fn averages(size: f64) -> DeviceAverages {
    DeviceAverages {
        avg_payload_size_bits: size.to_bits(),
        avg_rssi_bits: (-60.0f64).to_bits(),
        avg_snr_bits: 7.0f64.to_bits(),
    }
}

#[test]
fn counters_start_at_zero_and_count_one_kind() {
    let mut c = FrameCounters::default();
    assert_eq!(c.rx_frames + c.fw_frames + c.tx_ho_frames + c.rx_ho_frames + c.proc_frames, 0);
    c.count(FrameKind::Processed);
    c.count(FrameKind::Processed);
    c.count(FrameKind::HandoverSent);
    assert_eq!(c.proc_frames, 2);
    assert_eq!(c.tx_ho_frames, 1);
    assert_eq!(c.rx_frames, 0);
    let g = GwStats::new();
    assert_eq!(g.mem_usage, 0);
    assert_eq!(g.cpu_usage_bits, 0.0f32.to_bits());
    assert_eq!(GwStats::default().frame.fw_frames, 0);
}

#[test]
fn record_frames_per_gateway_and_device() {
    let mut s = CombinedStats::new();
    s.record_fw_frame("A".to_string());
    s.record_fw_frame("A".to_string());
    s.record_proc_frame("B".to_string());
    s.record_tx_ho_frame("B".to_string());
    s.record_rx_ho_frame("C".to_string());
    assert_eq!(s.gw_stats.frame.fw_frames, 2);
    assert_eq!(s.gw_stats.frame.proc_frames, 1);
    assert_eq!(s.gw_stats.frame.tx_ho_frames, 1);
    assert_eq!(s.gw_stats.frame.rx_ho_frames, 1);
    assert_eq!(s.device_stats("A").unwrap().frames.fw_frames, 2);
    assert_eq!(s.device_stats("B").unwrap().frames.proc_frames, 1);
    assert_eq!(s.device_stats("B").unwrap().frames.tx_ho_frames, 1);
    assert_eq!(s.device_stats("C").unwrap().frames.rx_ho_frames, 1);
    assert_eq!(s.devices_stats().len(), 3);
    s.reset();
    assert_eq!(s.gw_stats.frame.fw_frames, 0);
    assert!(s.device_stats("A").is_none());
    assert_eq!(CombinedStats::default().devices_stats().len(), 0);
}

#[test]
fn record_rx_frame_collects_radio_settings() {
    let mut s = CombinedStats::new();
    s.record_rx_frame("A".to_string(), packet(868.1, 1, "SF7BW125"), averages(30.0));
    s.record_rx_frame("A".to_string(), packet(868.1, 2, "SF10BW125"), averages(31.0));
    s.record_rx_frame("A".to_string(), packet(0.0, 2, "SF9BW+50"), averages(32.0));
    s.record_rx_frame("A".to_string(), packet(-0.0, 2, "SF9BW500"), averages(33.0));
    let d = s.device_stats("A").unwrap();
    assert_eq!(d.frames.rx_frames, 4);
    assert_eq!(s.gw_stats.frame.rx_frames, 4);
    assert_eq!(f64::from_bits(d.avg_payload_size_bits), 33.0);
    assert_eq!(d.modu, vec!["LORA".to_string()]);
    // 868.1 once, and 0.0 and -0.0 are one frequency.
    assert_eq!(d.freq.len(), 2);
    let mut chans = d.chan.clone();
    chans.sort();
    assert_eq!(chans, vec![1, 2]);
    let mut sf = d.sf.clone();
    sf.sort();
    assert_eq!(sf, vec!["SF1".to_string(), "SF7".to_string(), "SF9".to_string()]);
    // "SF10BW125"[5..] is "W125", which does not read as a number.
    let mut bw = d.bw.clone();
    bw.sort();
    assert_eq!(bw, vec![0, 50, 125, 500]);
}

#[test]
fn nan_frequencies_are_one() {
    let mut s = CombinedStats::new();
    s.record_rx_frame("A".to_string(), packet(f32::NAN, 1, "SF7BW125"), averages(1.0));
    s.record_rx_frame("A".to_string(), packet(-f32::NAN, 1, "SF7BW125"), averages(1.0));
    assert_eq!(s.device_stats("A").unwrap().freq.len(), 1);
}

#[test]
fn new_device_stats_are_empty() {
    let d = DeviceStats::new();
    assert_eq!(d.fcnt, 0);
    assert!(d.modu.is_empty() && d.freq.is_empty() && d.chan.is_empty());
    assert!(DeviceStats::default().bw.is_empty());
}

#[test]
fn network_kilobits_sums_and_divides() {
    assert_eq!(network_kilobits(&vec![]), Some(0));
    assert_eq!(network_kilobits(&vec![128, 256, 1]), Some(3));
    assert_eq!(network_kilobits(&vec![(1u64 << 32) + 256]), Some(2));
    assert_eq!(network_kilobits(&vec![0xffff_ff00]), Some(-2));
    assert_eq!(network_kilobits(&vec![i32::MAX as u64, 1]), None);
}

#[test]
fn swap_percentage_of_total() {
    assert_eq!(swap_percentage(50, 200), Some(25));
    assert_eq!(swap_percentage(1, 3), Some(33));
    assert_eq!(swap_percentage(1, 0), None);
    assert_eq!(swap_percentage(u64::MAX, 10), None);
}

#[test]
fn data_rate_is_cut_by_bytes() {
    // "SFX" is bytes 0 to 2, "é" bytes 3 and 4, "125" from byte 5 on.
    let mut s = CombinedStats::new();
    s.record_rx_frame("A".to_string(), packet(868.1, 1, "SFXé125"), averages(30.0));
    let d = s.device_stats("A").unwrap();
    assert_eq!(d.sf, vec!["SFX".to_string()]);
    assert_eq!(d.bw, vec![125]);
}

#[test]
fn received_frames_accumulate_among_other_records() {
    let mut s = CombinedStats::new();
    s.record_rx_frame("A".to_string(), packet(868.1, 1, "SF7BW125"), averages(30.0));
    s.record_fw_frame("A".to_string());
    s.record_rx_frame("B".to_string(), packet(868.3, 4, "SF8BW250"), averages(10.0));
    s.record_proc_frame("A".to_string());
    s.record_rx_frame("A".to_string(), packet(868.5, 2, "SF9BW500"), averages(20.0));
    assert_eq!(s.gw_stats.frame.rx_frames, 3);
    let a = s.device_stats("A").unwrap();
    assert_eq!(a.frames.rx_frames, 2);
    assert_eq!(a.frames.fw_frames, 1);
    assert_eq!(a.frames.proc_frames, 1);
    let mut chans = a.chan.clone();
    chans.sort();
    assert_eq!(chans, vec![1, 2]);
    let mut sf = a.sf.clone();
    sf.sort();
    assert_eq!(sf, vec!["SF7".to_string(), "SF9".to_string()]);
    let b = s.device_stats("B").unwrap();
    assert_eq!(b.frames.rx_frames, 1);
    assert_eq!(b.chan, vec![4]);
}
