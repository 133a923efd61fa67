//! Frame statistics of the gateway: counters of received, forwarded, handed
//! over and processed frames, gateway-wide and per device, with the radio
//! settings seen for each device. Floating-point values are held as the bit
//! patterns of their `f32`/`f64` values.

use vstd::prelude::*;
use crate::keyed::{
    entries_map, find_key, keyed, keys_distinct, lemma_entries_map, put_entry, take_entry,
};
use crate::lora::RxpkContent;
use crate::text::{
    byte_range_ok, byte_range_text, parse_u32, parse_u32_spec, text_byte_range, text_bytes,
};

verus! {

/// Frame counters: frames received from end devices, forwarded to the network
/// server, sent to and received from other gateways by handover, and processed
/// locally.
#[derive(Clone, Copy)]
pub struct FrameCounters {
    pub rx_frames: u32,
    pub fw_frames: u32,
    pub tx_ho_frames: u32,
    pub rx_ho_frames: u32,
    pub proc_frames: u32,
}

/// All counters at zero.
pub open spec fn zero_counters() -> FrameCounters {
    FrameCounters { rx_frames: 0, fw_frames: 0, tx_ho_frames: 0, rx_ho_frames: 0, proc_frames: 0 }
}

impl Default for FrameCounters {
    fn default() -> (r: Self)
        ensures
            r == zero_counters(),
    {
        FrameCounters { rx_frames: 0, fw_frames: 0, tx_ho_frames: 0, rx_ho_frames: 0, proc_frames: 0 }
    }
}

/// Which counter a frame goes to.
#[derive(Clone, Copy)]
pub enum FrameKind {
    Received,
    Forwarded,
    HandoverSent,
    HandoverReceived,
    Processed,
}

/// The value of one counter.
pub open spec fn frame_count(c: FrameCounters, kind: FrameKind) -> u32 {
    match kind {
        FrameKind::Received => c.rx_frames,
        FrameKind::Forwarded => c.fw_frames,
        FrameKind::HandoverSent => c.tx_ho_frames,
        FrameKind::HandoverReceived => c.rx_ho_frames,
        FrameKind::Processed => c.proc_frames,
    }
}

/// The counters with one more frame of the given kind.
pub open spec fn counted(c: FrameCounters, kind: FrameKind) -> FrameCounters {
    match kind {
        FrameKind::Received => FrameCounters { rx_frames: (c.rx_frames + 1) as u32, ..c },
        FrameKind::Forwarded => FrameCounters { fw_frames: (c.fw_frames + 1) as u32, ..c },
        FrameKind::HandoverSent => FrameCounters { tx_ho_frames: (c.tx_ho_frames + 1) as u32, ..c },
        FrameKind::HandoverReceived => FrameCounters {
            rx_ho_frames: (c.rx_ho_frames + 1) as u32,
            ..c
        },
        FrameKind::Processed => FrameCounters { proc_frames: (c.proc_frames + 1) as u32, ..c },
    }
}

impl FrameCounters {
    /// Counts one more frame of the given kind.
    pub fn count(&mut self, kind: FrameKind)
        requires
            frame_count(*old(self), kind) < u32::MAX,
        ensures
            *final(self) == counted(*old(self), kind),
    {
        match kind {
            FrameKind::Received => self.rx_frames = self.rx_frames + 1,
            FrameKind::Forwarded => self.fw_frames = self.fw_frames + 1,
            FrameKind::HandoverSent => self.tx_ho_frames = self.tx_ho_frames + 1,
            FrameKind::HandoverReceived => self.rx_ho_frames = self.rx_ho_frames + 1,
            FrameKind::Processed => self.proc_frames = self.proc_frames + 1,
        }
    }
}

/// Statistics of the gateway host: frame counters, memory, swap, network and
/// CPU use (the two CPU figures as `f32` bit patterns).
#[derive(Clone, Copy)]
pub struct GwStats {
    pub frame: FrameCounters,
    pub mem_available: u64,
    pub mem_usage: u64,
    pub mem_usage_percentage: u64,
    pub swp_usage_percentage: u64,
    pub ntwk_down: i32,
    pub ntwk_up: i32,
    pub cpu_usage_bits: u32,
    pub cpu_usage_percentage_bits: u32,
}

/// Gateway statistics with every figure at zero.
pub open spec fn zero_gw_stats() -> GwStats {
    GwStats {
        frame: zero_counters(),
        mem_available: 0,
        mem_usage: 0,
        mem_usage_percentage: 0,
        swp_usage_percentage: 0,
        ntwk_down: 0,
        ntwk_up: 0,
        cpu_usage_bits: 0,
        cpu_usage_percentage_bits: 0,
    }
}

impl GwStats {
    /// Every figure at zero.
    pub fn new() -> (r: Self)
        ensures
            r == zero_gw_stats(),
    {
        GwStats {
            frame: FrameCounters::default(),
            mem_available: 0,
            mem_usage: 0,
            mem_usage_percentage: 0,
            swp_usage_percentage: 0,
            ntwk_down: 0,
            ntwk_up: 0,
            cpu_usage_bits: 0,
            cpu_usage_percentage_bits: 0,
        }
    }
}

impl Default for GwStats {
    fn default() -> (r: Self)
        ensures
            r == zero_gw_stats(),
    {
        Self::new()
    }
}

/// Whether an `f32` bit pattern is a NaN.
pub open spec fn f32_bits_is_nan(b: u32) -> bool {
    (b & 0x7f80_0000u32) == 0x7f80_0000u32 && (b & 0x007f_ffffu32) != 0
}

/// Equality of `ordered_float::OrderedFloat<f32>` on bit patterns: all NaNs are
/// equal to each other, and otherwise the floats compare equal (so the two
/// zeros are equal).
pub open spec fn ordered_float_eq_bits(a: u32, b: u32) -> bool {
    if f32_bits_is_nan(a) {
        f32_bits_is_nan(b)
    } else {
        !f32_bits_is_nan(b) && (a == b || ((a & 0x7fff_ffffu32) == 0 && (b & 0x7fff_ffffu32) == 0))
    }
}

fn ordered_float_eq(a: u32, b: u32) -> (r: bool)
    ensures
        r == ordered_float_eq_bits(a, b),
{
    let a_nan = (a & 0x7f80_0000u32) == 0x7f80_0000u32 && (a & 0x007f_ffffu32) != 0;
    let b_nan = (b & 0x7f80_0000u32) == 0x7f80_0000u32 && (b & 0x007f_ffffu32) != 0;
    if a_nan {
        b_nan
    } else {
        !b_nan && (a == b || ((a & 0x7fff_ffffu32) == 0 && (b & 0x7fff_ffffu32) == 0))
    }
}

/// A set of frequencies (as `HashSet<OrderedFloat<f32>>` keeps them) after
/// inserting one: unchanged when an equal frequency is already there.
pub open spec fn frequency_insert(set: Set<u32>, bits: u32) -> Set<u32> {
    if exists|e: u32| set.contains(e) && ordered_float_eq_bits(e, bits) {
        set
    } else {
        set.insert(bits)
    }
}

/// The spreading factor part of a data-rate text such as `SF7BW125`: its first
/// three bytes.
pub open spec fn datr_spreading_factor(datr: Seq<char>) -> Seq<char> {
    byte_range_text(datr, 0, 3)
}

/// The bandwidth part of a data-rate text: what follows its fifth byte, read as
/// a decimal number, or 0 when it does not read as one.
pub open spec fn datr_bandwidth(datr: Seq<char>) -> u32 {
    match parse_u32_spec(byte_range_text(datr, 5, text_bytes(datr).len() as int)) {
        Some(v) => v,
        None => 0,
    }
}

/// Statistics of one device: its frame counters, the averages of its packets
/// (as `f64` bit patterns) and the radio settings its packets used.
pub struct DeviceStats {
    pub frames: FrameCounters,
    pub fcnt: u16,
    pub avg_rssi_bits: u64,
    pub avg_snr_bits: u64,
    pub avg_payload_size_bits: u64,
    pub modu: Vec<String>,
    pub freq: Vec<u32>,
    pub chan: Vec<u32>,
    pub sf: Vec<String>,
    pub bw: Vec<u32>,
}

/// The value of a [`DeviceStats`], its collections taken as sets.
pub struct DeviceStatsView {
    pub frames: FrameCounters,
    pub fcnt: u16,
    pub avg_rssi_bits: u64,
    pub avg_snr_bits: u64,
    pub avg_payload_size_bits: u64,
    pub modu: Set<Seq<char>>,
    pub freq: Set<u32>,
    pub chan: Set<u32>,
    pub sf: Set<Seq<char>>,
    pub bw: Set<u32>,
}

/// The set of texts held in a vector of strings.
pub open spec fn text_set(v: Seq<String>) -> Set<Seq<char>> {
    v.map_values(|s: String| s@).to_set()
}

impl View for DeviceStats {
    type V = DeviceStatsView;

    open spec fn view(&self) -> DeviceStatsView {
        DeviceStatsView {
            frames: self.frames,
            fcnt: self.fcnt,
            avg_rssi_bits: self.avg_rssi_bits,
            avg_snr_bits: self.avg_snr_bits,
            avg_payload_size_bits: self.avg_payload_size_bits,
            modu: text_set(self.modu@),
            freq: self.freq@.to_set(),
            chan: self.chan@.to_set(),
            sf: text_set(self.sf@),
            bw: self.bw@.to_set(),
        }
    }
}

/// Device statistics with every figure at zero and no radio settings.
pub open spec fn empty_device_stats() -> DeviceStatsView {
    DeviceStatsView {
        frames: zero_counters(),
        fcnt: 0,
        avg_rssi_bits: 0,
        avg_snr_bits: 0,
        avg_payload_size_bits: 0,
        modu: Set::empty(),
        freq: Set::empty(),
        chan: Set::empty(),
        sf: Set::empty(),
        bw: Set::empty(),
    }
}

/// Adds a text to a vector of distinct strings unless it is there already.
pub(crate) fn insert_text(set: &mut Vec<String>, s: String)
    ensures
        text_set(final(set)@) == text_set(old(set)@).insert(s@),
{
    let ghost old_seq = set@;
    let mut i: usize = 0;
    while i < set.len()
        invariant
            i <= set@.len(),
            set@ == old_seq,
            forall|j: int| 0 <= j < i ==> set@[j]@ != s@,
        decreases set.len() - i,
    {
        if set[i] == s {
            assert(old_seq.map_values(|s: String| s@)[i as int] == s@);
            assert(text_set(old_seq).contains(s@));
            assert(text_set(old_seq).insert(s@) =~= text_set(old_seq));
            return;
        }
        i = i + 1;
    }
    let ghost sv = s@;
    set.push(s);
    let ghost m_old = old_seq.map_values(|s: String| s@);
    let ghost m_new = set@.map_values(|s: String| s@);
    assert(m_new =~= m_old.push(sv));
    assert forall|t: Seq<char>| text_set(set@).contains(t) <==> text_set(old_seq).insert(sv).contains(t) by {
        if m_new.contains(t) {
            let j = choose|j: int| 0 <= j < m_new.len() && m_new[j] == t;
            if j < m_old.len() {
                assert(m_old[j] == t);
            }
        }
        if m_old.contains(t) {
            let j = choose|j: int| 0 <= j < m_old.len() && m_old[j] == t;
            assert(m_new[j] == t);
        }
        if t == sv {
            assert(m_new[m_old.len() as int] == t);
        }
    }
    assert(text_set(set@) =~= text_set(old_seq).insert(sv));
}

/// Adds a number to a vector of distinct numbers unless it is there already.
pub(crate) fn insert_number(set: &mut Vec<u32>, x: u32)
    ensures
        final(set)@.to_set() == old(set)@.to_set().insert(x),
{
    let ghost old_seq = set@;
    let mut i: usize = 0;
    while i < set.len()
        invariant
            i <= set@.len(),
            set@ == old_seq,
            forall|j: int| 0 <= j < i ==> set@[j] != x,
        decreases set.len() - i,
    {
        if set[i] == x {
            assert(old_seq.to_set().contains(x));
            assert(old_seq.to_set().insert(x) =~= old_seq.to_set());
            return;
        }
        i = i + 1;
    }
    set.push(x);
    assert forall|t: u32| set@.to_set().contains(t) <==> old_seq.to_set().insert(x).contains(t) by {
        if set@.contains(t) {
            let j = choose|j: int| 0 <= j < set@.len() && set@[j] == t;
            if j < old_seq.len() {
                assert(old_seq[j] == t);
            }
        }
        if old_seq.contains(t) {
            let j = choose|j: int| 0 <= j < old_seq.len() && old_seq[j] == t;
            assert(set@[j] == t);
        }
        if t == x {
            assert(set@[old_seq.len() as int] == t);
        }
    }
    assert(set@.to_set() =~= old_seq.to_set().insert(x));
}

/// Adds a frequency unless an equal one (as `OrderedFloat` compares) is there.
pub(crate) fn insert_frequency(set: &mut Vec<u32>, bits: u32)
    ensures
        final(set)@.to_set() == frequency_insert(old(set)@.to_set(), bits),
{
    let ghost old_seq = set@;
    let mut i: usize = 0;
    while i < set.len()
        invariant
            i <= set@.len(),
            set@ == old_seq,
            forall|j: int| 0 <= j < i ==> !ordered_float_eq_bits(#[trigger] set@[j], bits),
        decreases set.len() - i,
    {
        if ordered_float_eq(set[i], bits) {
            assert(old_seq.to_set().contains(old_seq[i as int]));
            return;
        }
        i = i + 1;
    }
    assert(!(exists|e: u32| old_seq.to_set().contains(e) && ordered_float_eq_bits(e, bits))) by {
        if exists|e: u32| old_seq.to_set().contains(e) && ordered_float_eq_bits(e, bits) {
            let e = choose|e: u32| old_seq.to_set().contains(e) && ordered_float_eq_bits(e, bits);
            let j = choose|j: int| 0 <= j < old_seq.len() && old_seq[j] == e;
            assert(!ordered_float_eq_bits(old_seq[j], bits));
        }
    }
    insert_number(set, bits);
}

impl DeviceStats {
    /// Every figure at zero, no radio settings.
    pub fn new() -> (r: Self)
        ensures
            r@ == empty_device_stats(),
    {
        let r = DeviceStats {
            frames: FrameCounters::default(),
            fcnt: 0,
            avg_rssi_bits: 0,
            avg_snr_bits: 0,
            avg_payload_size_bits: 0,
            modu: Vec::new(),
            freq: Vec::new(),
            chan: Vec::new(),
            sf: Vec::new(),
            bw: Vec::new(),
        };
        assert(text_set(r.modu@) =~= Set::empty());
        assert(text_set(r.sf@) =~= Set::empty());
        assert(r.freq@.to_set() =~= Set::empty());
        assert(r.chan@.to_set() =~= Set::empty());
        assert(r.bw@.to_set() =~= Set::empty());
        r
    }
}

impl Default for DeviceStats {
    fn default() -> (r: Self)
        ensures
            r@ == empty_device_stats(),
    {
        Self::new()
    }
}

/// The running averages of a device after a received frame (payload size,
/// RSSI, SNR), as `f64` bit patterns. They are floating-point results, worked
/// out by the caller from the previous averages and the frame.
#[derive(Clone, Copy)]
pub struct DeviceAverages {
    pub avg_payload_size_bits: u64,
    pub avg_rssi_bits: u64,
    pub avg_snr_bits: u64,
}

/// A device's statistics after a frame received from it: one more received
/// frame, the new averages, and the packet's modulation, frequency, channel,
/// spreading factor and bandwidth added to the settings seen.
pub open spec fn rx_frame_update(
    d: DeviceStatsView,
    packet: RxpkContent,
    averages: DeviceAverages,
) -> DeviceStatsView {
    DeviceStatsView {
        frames: counted(d.frames, FrameKind::Received),
        fcnt: d.fcnt,
        avg_rssi_bits: averages.avg_rssi_bits,
        avg_snr_bits: averages.avg_snr_bits,
        avg_payload_size_bits: averages.avg_payload_size_bits,
        modu: d.modu.insert(packet.modu@),
        freq: frequency_insert(d.freq, packet.freq_bits),
        chan: d.chan.insert(packet.chan->0),
        sf: d.sf.insert(datr_spreading_factor(packet.datr@)),
        bw: d.bw.insert(datr_bandwidth(packet.datr@)),
    }
}

/// A device's statistics after one more frame of a kind other than reception.
pub open spec fn frame_update(d: DeviceStatsView, kind: FrameKind) -> DeviceStatsView {
    DeviceStatsView { frames: counted(d.frames, kind), ..d }
}

/// What is recorded of an address: its statistics, or empty ones.
pub open spec fn device_or_empty(m: Map<Seq<char>, DeviceStatsView>, k: Seq<char>) -> DeviceStatsView {
    if m.contains_key(k) {
        m[k]
    } else {
        empty_device_stats()
    }
}

/// A frame of the given kind can still be counted for the gateway and for the
/// device at `dev_addr`.
pub open spec fn can_count(v: CombinedStatsView, dev_addr: Seq<char>, kind: FrameKind) -> bool {
    &&& frame_count(v.gw_stats.frame, kind) < u32::MAX
    &&& v.devices.contains_key(dev_addr) ==> frame_count(v.devices[dev_addr].frames, kind) < u32::MAX
}

/// The packet has what `record_rx_frame` reads: RSSI, SNR and channel, and a
/// data-rate text of at least five bytes that can be cut after its third and
/// after its fifth byte (both fall on character boundaries).
pub open spec fn rx_packet_complete(packet: RxpkContent) -> bool {
    &&& packet.rssi is Some
    &&& packet.lsnr_bits is Some
    &&& packet.chan is Some
    &&& byte_range_ok(packet.datr@, 0, 3)
    &&& byte_range_ok(packet.datr@, 5, text_bytes(packet.datr@).len() as int)
}

/// The value of a [`CombinedStats`].
pub struct CombinedStatsView {
    pub gw_stats: GwStats,
    pub devices: Map<Seq<char>, DeviceStatsView>,
}

/// The statistics after a frame received from the device at `dev_addr`
/// (`record_rx_frame`): one more received frame for the gateway, and the
/// device's statistics updated by `rx_frame_update`, starting from empty ones
/// for a new device.
pub open spec fn spec_record_rx_frame(
    v: CombinedStatsView,
    dev_addr: Seq<char>,
    packet: RxpkContent,
    averages: DeviceAverages,
) -> CombinedStatsView {
    CombinedStatsView {
        gw_stats: GwStats { frame: counted(v.gw_stats.frame, FrameKind::Received), ..v.gw_stats },
        devices: v.devices.insert(
            dev_addr,
            rx_frame_update(device_or_empty(v.devices, dev_addr), packet, averages),
        ),
    }
}

/// The statistics after one more frame of the given kind for the device at
/// `dev_addr`, for the gateway and for the device (recorded with empty
/// statistics if it is new).
pub open spec fn spec_record_frame(v: CombinedStatsView, dev_addr: Seq<char>, kind: FrameKind) -> CombinedStatsView {
    CombinedStatsView {
        gw_stats: GwStats { frame: counted(v.gw_stats.frame, kind), ..v.gw_stats },
        devices: v.devices.insert(dev_addr, frame_update(device_or_empty(v.devices, dev_addr), kind)),
    }
}

/// Gateway statistics together with the statistics of each device, keyed by
/// device address.
pub struct CombinedStats {
    pub gw_stats: GwStats,
    devices_stats: Vec<(String, DeviceStats)>,
}

impl View for CombinedStats {
    type V = CombinedStatsView;

    closed spec fn view(&self) -> CombinedStatsView {
        CombinedStatsView { gw_stats: self.gw_stats, devices: entries_map(keyed(self.devices_stats@)) }
    }
}

impl CombinedStats {
    /// At most one entry per device address.
    pub closed spec fn wf(&self) -> bool {
        keys_distinct(keyed(self.devices_stats@))
    }

    /// Gateway statistics at zero and no devices.
    pub fn new() -> (r: Self)
        ensures
            r.wf(),
            r@.gw_stats == zero_gw_stats(),
            r@.devices == Map::<Seq<char>, DeviceStatsView>::empty(),
    {
        let r = CombinedStats { gw_stats: GwStats::default(), devices_stats: Vec::new() };
        assert(keyed(r.devices_stats@) =~= Seq::empty());
        assert(r@.devices =~= Map::empty());
        r
    }

    /// The per-device entries, one per address.
    pub fn devices_stats(&self) -> (r: &Vec<(String, DeviceStats)>)
        requires
            self.wf(),
        ensures
            keys_distinct(keyed(r@)),
            entries_map(keyed(r@)) == self@.devices,
    {
        &self.devices_stats
    }

    /// The statistics recorded for `dev_addr`, if any.
    pub fn device_stats(&self, dev_addr: &str) -> (r: Option<&DeviceStats>)
        requires
            self.wf(),
        ensures
            r is Some <==> self@.devices.contains_key(dev_addr@),
            r matches Some(d) ==> d@ == self@.devices[dev_addr@],
    {
        proof {
            lemma_entries_map(keyed(self.devices_stats@));
        }
        let key = dev_addr.to_owned();
        match find_key(&self.devices_stats, &key) {
            Some(i) => {
                assert(self@.devices[keyed(self.devices_stats@)[i as int].0] == keyed(self.devices_stats@)[i as int].1);
                Some(&self.devices_stats[i].1)
            },
            None => None,
        }
    }

    /// Moves the statistics of `dev_addr` out (empty ones when none are
    /// recorded), leaving no entry for the address.
    fn take_device(&mut self, key: &String) -> (d: DeviceStats)
        requires
            old(self).wf(),
        ensures
            final(self).wf(),
            d@ == device_or_empty(old(self)@.devices, key@),
            final(self)@.devices == old(self)@.devices.remove(key@),
            final(self)@.gw_stats == old(self)@.gw_stats,
    {
        match take_entry(&mut self.devices_stats, key) {
            Some(d) => d,
            None => DeviceStats::new(),
        }
    }

    /// Records statistics for an address that has none.
    fn put_device(&mut self, key: String, d: DeviceStats)
        requires
            old(self).wf(),
            !old(self)@.devices.contains_key(key@),
        ensures
            final(self).wf(),
            final(self)@.devices == old(self)@.devices.insert(key@, d@),
            final(self)@.gw_stats == old(self)@.gw_stats,
    {
        put_entry(&mut self.devices_stats, key, d);
    }

    /// Counts a frame of the given kind for the gateway and for the device at
    /// `dev_addr`, recording the device (with empty statistics) if it is new.
    fn record_frame(&mut self, dev_addr: String, kind: FrameKind)
        requires
            old(self).wf(),
            can_count(old(self)@, dev_addr@, kind),
        ensures
            final(self).wf(),
            final(self)@ == spec_record_frame(old(self)@, dev_addr@, kind),
    {
        let ghost old_devices = self@.devices;
        self.gw_stats.frame.count(kind);
        let mut d = self.take_device(&dev_addr);
        d.frames.count(kind);
        self.put_device(dev_addr, d);
        assert(self@.devices =~= old_devices.insert(
            dev_addr@,
            frame_update(device_or_empty(old_devices, dev_addr@), kind),
        ));
    }

    /// Records a frame received from the device at `dev_addr`: the gateway's
    /// received-frame counter and the device's statistics (see
    /// `rx_frame_update`), starting from empty statistics for a new device.
    pub fn record_rx_frame(&mut self, dev_addr: String, packet: RxpkContent, averages: DeviceAverages)
        requires
            old(self).wf(),
            can_count(old(self)@, dev_addr@, FrameKind::Received),
            rx_packet_complete(packet),
        ensures
            final(self).wf(),
            final(self)@ == spec_record_rx_frame(old(self)@, dev_addr@, packet, averages),
            final(self)@.devices.contains_key(dev_addr@),
            final(self)@.devices[dev_addr@].avg_rssi_bits == averages.avg_rssi_bits,
            final(self)@.devices[dev_addr@].avg_snr_bits == averages.avg_snr_bits,
            final(self)@.devices[dev_addr@].avg_payload_size_bits == averages.avg_payload_size_bits,
    {
        let ghost old_devices = self@.devices;
        let ghost p = packet;
        self.gw_stats.frame.count(FrameKind::Received);
        let mut d = self.take_device(&dev_addr);
        let ghost before = d@;
        d.avg_payload_size_bits = averages.avg_payload_size_bits;
        d.avg_rssi_bits = averages.avg_rssi_bits;
        d.avg_snr_bits = averages.avg_snr_bits;
        let datr = packet.datr.as_str();
        let sf = text_byte_range(datr, 0, 3).to_owned();
        let bw = match parse_u32(text_byte_range(datr, 5, datr.as_bytes().len())) {
            Some(v) => v,
            None => 0,
        };
        assert(sf@ == datr_spreading_factor(p.datr@));
        assert(bw == datr_bandwidth(p.datr@));
        insert_text(&mut d.modu, packet.modu);
        insert_frequency(&mut d.freq, packet.freq_bits);
        insert_number(&mut d.chan, packet.chan.unwrap());
        insert_text(&mut d.sf, sf);
        insert_number(&mut d.bw, bw);
        d.frames.count(FrameKind::Received);
        assert(d@ == rx_frame_update(before, p, averages));
        self.put_device(dev_addr, d);
        assert(self@.devices =~= old_devices.insert(
            dev_addr@,
            rx_frame_update(device_or_empty(old_devices, dev_addr@), p, averages),
        ));
    }

    /// Records a frame received from another gateway by handover for the device
    /// at `dev_addr`.
    pub fn record_rx_ho_frame(&mut self, dev_addr: String)
        requires
            old(self).wf(),
            can_count(old(self)@, dev_addr@, FrameKind::HandoverReceived),
        ensures
            final(self).wf(),
            final(self)@ == spec_record_frame(old(self)@, dev_addr@, FrameKind::HandoverReceived),
    {
        self.record_frame(dev_addr, FrameKind::HandoverReceived);
    }

    /// Records a frame of the device at `dev_addr` forwarded to the network server.
    pub fn record_fw_frame(&mut self, dev_addr: String)
        requires
            old(self).wf(),
            can_count(old(self)@, dev_addr@, FrameKind::Forwarded),
        ensures
            final(self).wf(),
            final(self)@ == spec_record_frame(old(self)@, dev_addr@, FrameKind::Forwarded),
    {
        self.record_frame(dev_addr, FrameKind::Forwarded);
    }

    /// Records a frame of the device at `dev_addr` processed locally.
    pub fn record_proc_frame(&mut self, dev_addr: String)
        requires
            old(self).wf(),
            can_count(old(self)@, dev_addr@, FrameKind::Processed),
        ensures
            final(self).wf(),
            final(self)@ == spec_record_frame(old(self)@, dev_addr@, FrameKind::Processed),
    {
        self.record_frame(dev_addr, FrameKind::Processed);
    }

    /// Records a frame of the device at `dev_addr` handed over to another gateway.
    pub fn record_tx_ho_frame(&mut self, dev_addr: String)
        requires
            old(self).wf(),
            can_count(old(self)@, dev_addr@, FrameKind::HandoverSent),
        ensures
            final(self).wf(),
            final(self)@ == spec_record_frame(old(self)@, dev_addr@, FrameKind::HandoverSent),
    {
        self.record_frame(dev_addr, FrameKind::HandoverSent);
    }

    /// Clears every statistic.
    pub fn reset(&mut self)
        ensures
            final(self).wf(),
            final(self)@.gw_stats == zero_gw_stats(),
            final(self)@.devices == Map::<Seq<char>, DeviceStatsView>::empty(),
    {
        self.gw_stats = GwStats::default();
        self.devices_stats = Vec::new();
        assert(keyed(self.devices_stats@) =~= Seq::empty());
        assert(self@.devices =~= Map::empty());
    }
}

impl Default for CombinedStats {
    fn default() -> (r: Self)
        ensures
            r.wf(),
            r@.gw_stats == zero_gw_stats(),
            r@.devices == Map::<Seq<char>, DeviceStatsView>::empty(),
    {
        Self::new()
    }
}

/// The sum of byte counters, each first truncated to an `i32` as `as i32`
/// does.
pub open spec fn truncated_sum(counts: Seq<u64>) -> int
    decreases counts.len(),
{
    if counts.len() == 0 {
        0
    } else {
        truncated_sum(counts.drop_last()) + (counts.last() as i32) as int
    }
}

/// Integer division rounding toward zero, as Rust's `/` does.
pub open spec fn div_toward_zero(a: int, b: int) -> int {
    if a >= 0 {
        a / b
    } else {
        -((-a) / b)
    }
}

/// Network use in kilobits from per-interface byte counters: the sum of the
/// counters taken as `i32`, divided by 128 (rounding toward zero); `None` when
/// a partial sum leaves the `i32` range.
pub fn network_kilobits(counts: &Vec<u64>) -> (r: Option<i32>)
    ensures
        r matches Some(v) ==> v as int == div_toward_zero(truncated_sum(counts@), 128),
        r is Some <==> forall|k: int|
            0 <= k <= counts@.len() ==> i32::MIN <= #[trigger] truncated_sum(counts@.take(k)) <= i32::MAX,
{
    let mut sum: i32 = 0;
    let mut i: usize = 0;
    assert(counts@.take(0) =~= Seq::<u64>::empty());
    while i < counts.len()
        invariant
            i <= counts@.len(),
            sum as int == truncated_sum(counts@.take(i as int)),
            forall|k: int| 0 <= k <= i ==> i32::MIN <= #[trigger] truncated_sum(counts@.take(k)) <= i32::MAX,
        decreases counts.len() - i,
    {
        let c = counts[i] as i32;
        let ghost t = counts@.take(i + 1);
        assert(t.drop_last() =~= counts@.take(i as int));
        assert(t.last() == counts@[i as int]);
        assert(truncated_sum(t) == sum + c);
        match sum.checked_add(c) {
            Some(s) => {
                sum = s;
            },
            None => {
                assert(!(i32::MIN <= truncated_sum(counts@.take(i + 1)) <= i32::MAX));
                return None;
            },
        }
        i = i + 1;
    }
    assert(counts@.take(i as int) =~= counts@);
    Some(sum / 128)
}

/// Used swap as a percentage of the total: `used * 100 / total`, `None` when
/// there is no swap or the product does not fit in a `u64`.
pub fn swap_percentage(used: u64, total: u64) -> (r: Option<u64>)
    ensures
        r is Some <==> total > 0 && used * 100 <= u64::MAX,
        r matches Some(p) ==> p == (used * 100) / (total as int),
{
    if total == 0 {
        return None;
    }
    match used.checked_mul(100) {
        Some(scaled) => Some(scaled / total),
        None => None,
    }
}

} // verus!
