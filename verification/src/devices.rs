//! Grouping of the packets of a datagram by end device, with the radio settings
//! each device used.

use vstd::prelude::*;
use crate::keyed::{entries_map, keyed, keys_distinct, put_entry, take_entry};
use crate::lora::RxpkContent;
use crate::stats::{frequency_insert, insert_frequency, insert_number, insert_text, text_set};
use crate::text::{
    byte_range_ok, hex_encode, hex_lower, is_decimal_digit, parse_u32, parse_u32_spec, text_bytes,
};

verus! {

/// The end of the run of decimal digits that starts at position `i`.
pub open spec fn digit_run_end(d: Seq<char>, i: int) -> int
    decreases d.len() - i,
{
    if 0 <= i < d.len() && is_decimal_digit(d[i]) {
        digit_run_end(d, i + 1)
    } else {
        i
    }
}

/// The spreading factor and bandwidth of a data-rate text of the form
/// `SF<digits>BW<digits>` (such as `SF7BW125`): the text up to `BW` and the
/// bandwidth number; `None` for any other text or a bandwidth that does not fit
/// in a `u32`.
pub open spec fn parse_datr_spec(d: Seq<char>) -> Option<(Seq<char>, u32)> {
    let k = digit_run_end(d, 2);
    if d.len() >= 2 && d[0] == 'S' && d[1] == 'F' && k > 2 && k + 2 < d.len() && d[k] == 'B'
        && d[k + 1] == 'W' && d[k + 2] != '+' && parse_u32_spec(d.skip(k + 2)) is Some {
        Some((d.take(k), parse_u32_spec(d.skip(k + 2))->0))
    } else {
        None
    }
}

/// The packets of one device and the radio settings they used.
pub struct DevicePks {
    pub dev_eui: String,
    pub dev_addr: String,
    pub rxpk: Vec<RxpkContent>,
    pub modu_set: Vec<String>,
    pub freq_set: Vec<u32>,
    pub chan_set: Vec<u32>,
    pub sf_set: Vec<String>,
    pub bw_set: Vec<u32>,
}

/// The value of a [`DevicePks`], its collections of settings taken as sets.
pub struct DevicePksView {
    pub dev_eui: Seq<char>,
    pub dev_addr: Seq<char>,
    pub rxpk: Seq<RxpkContent>,
    pub modu_set: Set<Seq<char>>,
    pub freq_set: Set<u32>,
    pub chan_set: Set<u32>,
    pub sf_set: Set<Seq<char>>,
    pub bw_set: Set<u32>,
}

impl View for DevicePks {
    type V = DevicePksView;

    open spec fn view(&self) -> DevicePksView {
        DevicePksView {
            dev_eui: self.dev_eui@,
            dev_addr: self.dev_addr@,
            rxpk: self.rxpk@,
            modu_set: text_set(self.modu_set@),
            freq_set: self.freq_set@.to_set(),
            chan_set: self.chan_set@.to_set(),
            sf_set: text_set(self.sf_set@),
            bw_set: self.bw_set@.to_set(),
        }
    }
}

/// The identifier under which a packet's device is grouped: the hexadecimal
/// text of bytes 8 to 11 of the packet's `data` text.
pub open spec fn packet_dev_addr(p: RxpkContent) -> Seq<char> {
    hex_lower(text_bytes(p.data@).subrange(8, 12))
}

/// The device identifier recorded with a new group: the hexadecimal text of
/// bytes 0 to 7 of the packet's `data` text.
pub open spec fn packet_dev_eui(p: RxpkContent) -> Seq<char> {
    hex_lower(text_bytes(p.data@).subrange(0, 8))
}

/// A group with no packets yet, for the device of `p`.
pub open spec fn new_group(p: RxpkContent) -> DevicePksView {
    DevicePksView {
        dev_eui: packet_dev_eui(p),
        dev_addr: packet_dev_addr(p),
        rxpk: Seq::empty(),
        modu_set: Set::empty(),
        freq_set: Set::empty(),
        chan_set: Set::empty(),
        sf_set: Set::empty(),
        bw_set: Set::empty(),
    }
}

/// A group after one more packet: the packet is appended and its modulation,
/// frequency, channel (if reported) and data-rate parts (if the data rate reads)
/// are added to the settings seen.
pub open spec fn group_add_packet(g: DevicePksView, p: RxpkContent) -> DevicePksView {
    DevicePksView {
        dev_eui: g.dev_eui,
        dev_addr: g.dev_addr,
        rxpk: g.rxpk.push(p),
        modu_set: g.modu_set.insert(p.modu@),
        freq_set: frequency_insert(g.freq_set, p.freq_bits),
        chan_set: match p.chan {
            Some(c) => g.chan_set.insert(c),
            None => g.chan_set,
        },
        sf_set: match parse_datr_spec(p.datr@) {
            Some(parts) => g.sf_set.insert(parts.0),
            None => g.sf_set,
        },
        bw_set: match parse_datr_spec(p.datr@) {
            Some(parts) => g.bw_set.insert(parts.1),
            None => g.bw_set,
        },
    }
}

/// The packets grouped by device, in order of arrival.
pub open spec fn group_packets(packets: Seq<RxpkContent>) -> Map<Seq<char>, DevicePksView>
    decreases packets.len(),
{
    if packets.len() == 0 {
        Map::empty()
    } else {
        let m = group_packets(packets.drop_last());
        let p = packets.last();
        let k = packet_dev_addr(p);
        let g = if m.contains_key(k) {
            m[k]
        } else {
            new_group(p)
        };
        m.insert(k, group_add_packet(g, p))
    }
}

/// Every packet's `data` text can be cut at bytes 8 and 12: it is at least 12
/// bytes long and both positions fall on character boundaries.
pub open spec fn packets_groupable(packets: Seq<RxpkContent>) -> bool {
    forall|i: int|
        #![trigger packets[i]]
        0 <= i < packets.len() ==> byte_range_ok(packets[i].data@, 0, 8) && byte_range_ok(
            packets[i].data@,
            8,
            12,
        )
}

/// Reads the spreading factor and bandwidth of a data-rate text.
pub fn parse_datr(datr: &str) -> (r: Option<(String, u32)>)
    ensures
        match r {
            Some(parts) => parse_datr_spec(datr@) == Some((parts.0@, parts.1)),
            None => parse_datr_spec(datr@) is None,
        },
{
    let n = datr.unicode_len();
    if n < 2 || datr.get_char(0) != 'S' || datr.get_char(1) != 'F' {
        return None;
    }
    let mut k: usize = 2;
    while k < n && is_digit(datr.get_char(k))
        invariant
            2 <= k <= n,
            n == datr@.len(),
            digit_run_end(datr@, k as int) == digit_run_end(datr@, 2),
        decreases n - k,
    {
        k = k + 1;
    }
    assert(digit_run_end(datr@, k as int) == k);
    if k == 2 || k >= n || n - k <= 2 || datr.get_char(k) != 'B' || datr.get_char(k + 1) != 'W'
        || datr.get_char(k + 2) == '+' {
        return None;
    }
    let rest = datr.substring_char(k + 2, n);
    assert(rest@ =~= datr@.skip(k + 2));
    match parse_u32(rest) {
        Some(bw) => {
            let sf = datr.substring_char(0, k).to_owned();
            assert(sf@ =~= datr@.take(k as int));
            Some((sf, bw))
        },
        None => None,
    }
}

fn is_digit(c: char) -> (r: bool)
    ensures
        r == is_decimal_digit(c),
{
    '0' <= c && c <= '9'
}

impl DevicePks {
    /// Adds a packet of this device to the group.
    fn add_packet(&mut self, packet: &RxpkContent)
        ensures
            final(self)@ == group_add_packet(old(self)@, *packet),
    {
        self.rxpk.push(packet.clone());
        insert_text(&mut self.modu_set, packet.modu.clone());
        insert_frequency(&mut self.freq_set, packet.freq_bits);
        match packet.chan {
            Some(chan) => insert_number(&mut self.chan_set, chan),
            None => {},
        }
        match parse_datr(packet.datr.as_str()) {
            Some((sf, bw)) => {
                insert_text(&mut self.sf_set, sf);
                insert_number(&mut self.bw_set, bw);
            },
            None => {},
        }
    }
}

/// Groups the packets by device (see `group_packets`).
pub fn collect_packets_for_devices(all_packets: Vec<RxpkContent>) -> (r: Vec<(String, DevicePks)>)
    requires
        packets_groupable(all_packets@),
    ensures
        keys_distinct(keyed(r@)),
        entries_map(keyed(r@)) == group_packets(all_packets@),
{
    let mut device_map: Vec<(String, DevicePks)> = Vec::new();
    assert(keyed(device_map@) =~= Seq::empty());
    assert(entries_map(keyed(device_map@)) =~= group_packets(all_packets@.take(0)));
    let mut i: usize = 0;
    while i < all_packets.len()
        invariant
            i <= all_packets@.len(),
            packets_groupable(all_packets@),
            keys_distinct(keyed(device_map@)),
            entries_map(keyed(device_map@)) == group_packets(all_packets@.take(i as int)),
        decreases all_packets.len() - i,
    {
        let rxpk = &all_packets[i];
        let data = rxpk.data.as_str().as_bytes();
        assert(packets_groupable(all_packets@) ==> byte_range_ok(all_packets@[i as int].data@, 8, 12));
        let dev_eui = hex_encode(vstd::slice::slice_subrange(data, 0, 8));
        let dev_addr = hex_encode(vstd::slice::slice_subrange(data, 8, 12));
        assert(dev_addr@ == packet_dev_addr(*rxpk));
        assert(dev_eui@ == packet_dev_eui(*rxpk));
        let ghost before = entries_map(keyed(device_map@));
        let mut group = match take_entry(&mut device_map, &dev_addr) {
            Some(g) => g,
            None => {
                let g = DevicePks {
                    dev_eui,
                    dev_addr: dev_addr.clone(),
                    rxpk: Vec::new(),
                    modu_set: Vec::new(),
                    freq_set: Vec::new(),
                    chan_set: Vec::new(),
                    sf_set: Vec::new(),
                    bw_set: Vec::new(),
                };
                assert(g.rxpk@ =~= Seq::empty());
                assert(text_set(g.modu_set@) =~= Set::empty());
                assert(text_set(g.sf_set@) =~= Set::empty());
                assert(g.freq_set@.to_set() =~= Set::empty());
                assert(g.chan_set@.to_set() =~= Set::empty());
                assert(g.bw_set@.to_set() =~= Set::empty());
                assert(g@ == new_group(*rxpk));
                g
            },
        };
        group.add_packet(rxpk);
        put_entry(&mut device_map, dev_addr, group);
        proof {
            let t = all_packets@.take(i + 1);
            assert(t.drop_last() =~= all_packets@.take(i as int));
            assert(t.last() == all_packets@[i as int]);
            assert(entries_map(keyed(device_map@)) =~= group_packets(t));
        }
        i = i + 1;
    }
    assert(all_packets@.take(i as int) =~= all_packets@);
    device_map
}

} // verus!
