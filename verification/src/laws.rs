//! Properties of the library that relate several of its operations.

use vstd::prelude::*;
use crate::crypto::{edge_message, handover_message, spec_add_device, spec_add_devices, CryptoView};
use crate::ecc::base64_standard;
use crate::mqtt_structs::{MqttJson, UnassociatedMqttJson};
use crate::devices::{
    group_add_packet, group_packets, new_group, packet_dev_addr, packet_dev_eui, parse_datr_spec,
    DevicePksView,
};
use crate::rpc::Device;
use crate::directory::{
    associated_view, entries_keyed_by_address, recorded_fcnts, spec_add_associated, spec_add_fcnt, spec_add_unassociated,
    spec_get_associated, spec_get_unassociated, spec_remove_associated, spec_remove_unassociated,
    DirectoryView, UnassociatedDevView,
};
use crate::lora::{spec_uplink_route, RxpkContent, UplinkRoute, DEFAULT_E2L_APP_PORT};
use crate::mqtt_client::{control_command_spec, topic_join, ControlCommand};
use crate::stats::{
    datr_bandwidth, datr_spreading_factor, device_or_empty, ordered_float_eq_bits, spec_record_frame,
    spec_record_rx_frame, zero_gw_stats, CombinedStatsView, DeviceAverages, DeviceStatsView, FrameKind,
};
use crate::text::last_segment;

verus! {

/// Reading an unassociated device back after recording it gives what was
/// recorded.
pub proof fn law_get_after_add_unassociated(
    d: DirectoryView,
    dev_eui: Seq<char>,
    dev_addr: Seq<char>,
    e2gw_id: Seq<char>,
)
    ensures
        spec_get_unassociated(spec_add_unassociated(d, dev_eui, dev_addr, e2gw_id), dev_addr)
            == Some(UnassociatedDevView { dev_eui, dev_addr, e2gw_id }),
{
}

/// Reading an associated device back after recording it gives what was
/// recorded, with the frame counters recorded before for that address.
pub proof fn law_get_after_add_associated(
    d: DirectoryView,
    dev_eui: Seq<char>,
    dev_addr: Seq<char>,
    dev_public_key: Seq<u8>,
    edge_s_enc_key: Seq<u8>,
    edge_s_int_key: Seq<u8>,
)
    ensures
        spec_get_associated(
            spec_add_associated(d, dev_eui, dev_addr, dev_public_key, edge_s_enc_key, edge_s_int_key),
            dev_addr,
        ) == Some(
            associated_view(
                dev_eui,
                dev_addr,
                dev_public_key,
                edge_s_enc_key,
                edge_s_int_key,
                recorded_fcnts(d, dev_addr),
            ),
        ),
{
}

/// Associating a device again keeps the frame counters recorded for it.
pub proof fn law_reassociation_keeps_fcnts(
    d: DirectoryView,
    dev_eui: Seq<char>,
    dev_addr: Seq<char>,
    dev_public_key: Seq<u8>,
    edge_s_enc_key: Seq<u8>,
    edge_s_int_key: Seq<u8>,
)
    ensures
        recorded_fcnts(
            spec_add_associated(d, dev_eui, dev_addr, dev_public_key, edge_s_enc_key, edge_s_int_key),
            dev_addr,
        ) == recorded_fcnts(d, dev_addr),
{
}

/// A frame counter is appended to the counters of a known device; for an
/// unknown device nothing changes.
pub proof fn law_add_fcnt_appends(d: DirectoryView, dev_addr: Seq<char>, fcnt: u16)
    ensures
        d.associated.contains_key(dev_addr) ==> recorded_fcnts(spec_add_fcnt(d, dev_addr, fcnt), dev_addr)
            == recorded_fcnts(d, dev_addr).push(fcnt),
        !d.associated.contains_key(dev_addr) ==> spec_add_fcnt(d, dev_addr, fcnt) == d,
{
}

/// After a device is removed, reading it gives nothing.
pub proof fn law_get_after_remove(d: DirectoryView, dev_addr: Seq<char>)
    ensures
        spec_get_associated(spec_remove_associated(d, dev_addr), dev_addr) is None,
        spec_get_unassociated(spec_remove_unassociated(d, dev_addr), dev_addr) is None,
{
}

/// Recording or removing one address leaves what is recorded under every other
/// address, in both tables, unchanged.
pub proof fn law_other_addresses_unchanged(
    d: DirectoryView,
    dev_eui: Seq<char>,
    dev_addr: Seq<char>,
    other: Seq<char>,
    dev_public_key: Seq<u8>,
    edge_s_enc_key: Seq<u8>,
    edge_s_int_key: Seq<u8>,
    e2gw_id: Seq<char>,
    fcnt: u16,
)
    requires
        other != dev_addr,
    ensures
        spec_get_associated(
            spec_add_associated(d, dev_eui, dev_addr, dev_public_key, edge_s_enc_key, edge_s_int_key),
            other,
        ) == spec_get_associated(d, other),
        spec_get_unassociated(spec_add_unassociated(d, dev_eui, dev_addr, e2gw_id), other)
            == spec_get_unassociated(d, other),
        spec_get_associated(spec_remove_associated(d, dev_addr), other) == spec_get_associated(d, other),
        spec_get_unassociated(spec_remove_unassociated(d, dev_addr), other) == spec_get_unassociated(
            d,
            other,
        ),
        spec_get_associated(spec_add_fcnt(d, dev_addr, fcnt), other) == spec_get_associated(d, other),
{
}

/// Operations on one table leave the other table unchanged.
pub proof fn law_tables_independent(
    d: DirectoryView,
    dev_eui: Seq<char>,
    dev_addr: Seq<char>,
    dev_public_key: Seq<u8>,
    edge_s_enc_key: Seq<u8>,
    edge_s_int_key: Seq<u8>,
    e2gw_id: Seq<char>,
    fcnt: u16,
)
    ensures
        spec_add_unassociated(d, dev_eui, dev_addr, e2gw_id).associated == d.associated,
        spec_remove_unassociated(d, dev_addr).associated == d.associated,
        spec_add_associated(d, dev_eui, dev_addr, dev_public_key, edge_s_enc_key, edge_s_int_key).unassociated
            == d.unassociated,
        spec_remove_associated(d, dev_addr).unassociated == d.unassociated,
        spec_add_fcnt(d, dev_addr, fcnt).unassociated == d.unassociated,
{
}

/// The last level of `a/b` is the last level of `b`.
proof fn lemma_last_segment_join(a: Seq<char>, b: Seq<char>)
    ensures
        last_segment(topic_join(a, b)) == last_segment(b),
    decreases b.len(),
{
    reveal_strlit("/");
    let j = topic_join(a, b);
    if b.len() == 0 {
        assert(j =~= a.push('/'));
        assert(j.last() == '/');
    } else {
        lemma_last_segment_join(a, b.drop_last());
        assert(j.drop_last() =~= topic_join(a, b.drop_last()));
        assert(j.last() == b.last());
    }
}

/// A command text without `/`.
pub open spec fn is_topic_level(c: Seq<char>) -> bool {
    forall|i: int| 0 <= i < c.len() ==> c[i] != '/'
}

/// The last level of a text without `/` is the whole text.
proof fn lemma_last_segment_level(c: Seq<char>)
    requires
        is_topic_level(c),
    ensures
        last_segment(c) == c,
    decreases c.len(),
{
    if c.len() > 0 {
        lemma_last_segment_level(c.drop_last());
        assert(last_segment(c.drop_last()).push(c.last()) =~= c);
    }
}

/// A control message published on the topic `control_topic(base, command)`
/// is read back as that command, whatever the base topic.
pub proof fn law_control_topic_round_trip(base: Seq<char>, command: Seq<char>)
    requires
        is_topic_level(command),
    ensures
        last_segment(topic_join(base, command)) == command,
        command == "add_assigned_device"@ ==> control_command_spec(topic_join(base, command))
            == ControlCommand::AddAssignedDevice,
        command == "add_unassigned_device"@ ==> control_command_spec(topic_join(base, command))
            == ControlCommand::AddUnassignedDevice,
        command == "remove_assigned_device"@ ==> control_command_spec(topic_join(base, command))
            == ControlCommand::RemoveAssignedDevice,
        command == "remove_unassigned_device"@ ==> control_command_spec(topic_join(base, command))
            == ControlCommand::RemoveUnassignedDevice,
{
    lemma_last_segment_join(base, command);
    lemma_last_segment_level(command);
    reveal_strlit("add_assigned_device");
    reveal_strlit("add_unassigned_device");
    reveal_strlit("remove_assigned_device");
    reveal_strlit("remove_unassigned_device");
}

/// Every packet of a datagram ends up in the group of its device.
pub proof fn law_every_packet_grouped(packets: Seq<RxpkContent>, i: int)
    requires
        0 <= i < packets.len(),
    ensures
        group_packets(packets).contains_key(packet_dev_addr(packets[i])),
        group_packets(packets)[packet_dev_addr(packets[i])].rxpk.contains(packets[i]),
    decreases packets.len(),
{
    let m = group_packets(packets.drop_last());
    let p = packets.last();
    let k = packet_dev_addr(p);
    if i == packets.len() - 1 {
        let g = group_packets(packets)[k];
        assert(g.rxpk[g.rxpk.len() - 1] == p);
    } else {
        law_every_packet_grouped(packets.drop_last(), i);
        assert(packets.drop_last()[i] == packets[i]);
        let ki = packet_dev_addr(packets[i]);
        if ki == k {
            let old_rxpk = m[k].rxpk;
            let j = choose|j: int| 0 <= j < old_rxpk.len() && old_rxpk[j] == packets[i];
            assert(group_packets(packets)[k].rxpk[j] == packets[i]);
        }
    }
}

/// A device of an `add_devices` request assigned to this gateway becomes
/// associated (edge mode enabled) with the session keys of the request; one
/// assigned to another gateway becomes unassociated, pointing at that gateway.
pub proof fn law_add_device_routes(
    d: DirectoryView,
    gw_id: Seq<char>,
    device: Device,
    placeholder_public_key: Seq<u8>,
)
    ensures
        device.assigned_gw@ == gw_id ==> {
            let e = spec_add_device(d, gw_id, device, placeholder_public_key);
            &&& e.associated.contains_key(device.dev_addr@)
            &&& e.associated[device.dev_addr@].dev_eui == device.dev_eui@
            &&& e.associated[device.dev_addr@].dev_addr == device.dev_addr@
            &&& e.associated[device.dev_addr@].dev_public_key == placeholder_public_key
            &&& e.associated[device.dev_addr@].edge_s_enc_key == device.edge_s_enc_key@
            &&& e.associated[device.dev_addr@].edge_s_int_key == device.edge_s_int_key@
            &&& e.associated[device.dev_addr@].fcnts == recorded_fcnts(d, device.dev_addr@)
            &&& e.unassociated == d.unassociated
        },
        device.assigned_gw@ != gw_id ==> {
            let e = spec_add_device(d, gw_id, device, placeholder_public_key);
            &&& e.unassociated.contains_key(device.dev_addr@)
            &&& e.unassociated[device.dev_addr@].dev_eui == device.dev_eui@
            &&& e.unassociated[device.dev_addr@].dev_addr == device.dev_addr@
            &&& e.unassociated[device.dev_addr@].e2gw_id == device.assigned_gw@
            &&& e.associated == d.associated
        },
        forall|other: Seq<char>|
            #![trigger spec_get_associated(spec_add_device(d, gw_id, device, placeholder_public_key), other)]
            #![trigger spec_get_unassociated(spec_add_device(d, gw_id, device, placeholder_public_key), other)]
            other != device.dev_addr@ ==> {
                &&& spec_get_associated(spec_add_device(d, gw_id, device, placeholder_public_key), other)
                    == spec_get_associated(d, other)
                &&& spec_get_unassociated(spec_add_device(d, gw_id, device, placeholder_public_key), other)
                    == spec_get_unassociated(d, other)
            },
{
}

/// After an `add_devices` request, each device that no later device of the
/// request overrides (by the same address) is recorded as the request gives it:
/// as unassociated with its own EUI and serving gateway when another gateway
/// serves it, otherwise as associated with its own EUI, session keys and
/// placeholder public key.
pub proof fn law_add_devices_records_each(
    d: DirectoryView,
    gw_id: Seq<char>,
    devices: Seq<Device>,
    placeholders: Seq<Seq<u8>>,
    i: int,
)
    requires
        placeholders.len() == devices.len(),
        0 <= i < devices.len(),
        forall|j: int| i < j < devices.len() ==> (#[trigger] devices[j]).dev_addr@ != devices[i].dev_addr@,
    ensures
        ({
            let e = spec_add_devices(d, gw_id, devices, placeholders);
            let dv = devices[i];
            let a = dv.dev_addr@;
            &&& dv.assigned_gw@ != gw_id ==> e.unassociated.contains_key(a) && e.unassociated[a]
                == (UnassociatedDevView { dev_eui: dv.dev_eui@, dev_addr: a, e2gw_id: dv.assigned_gw@ })
            &&& dv.assigned_gw@ == gw_id ==> {
                &&& e.associated.contains_key(a)
                &&& e.associated[a].dev_eui == dv.dev_eui@
                &&& e.associated[a].dev_addr == a
                &&& e.associated[a].dev_public_key == placeholders[i]
                &&& e.associated[a].edge_s_enc_key == dv.edge_s_enc_key@
                &&& e.associated[a].edge_s_int_key == dv.edge_s_int_key@
            }
        }),
    decreases devices.len(),
{
    let n = devices.len() - 1;
    let last = devices[n];
    let prev_d = spec_add_devices(d, gw_id, devices.drop_last(), placeholders.drop_last());
    law_add_device_routes(prev_d, gw_id, last, placeholders[n]);
    if i < n {
        assert forall|j: int| i < j < devices.drop_last().len() implies (#[trigger] devices.drop_last()[j]).dev_addr@
            != devices.drop_last()[i].dev_addr@ by {
            assert(devices.drop_last()[j] == devices[j]);
        }
        law_add_devices_records_each(d, gw_id, devices.drop_last(), placeholders.drop_last(), i);
        assert(devices.drop_last()[i] == devices[i]);
        assert(placeholders.drop_last()[i] == placeholders[i]);
        assert(devices[n].dev_addr@ != devices[i].dev_addr@);
    }
}

/// Once a device is associated (after its key exchange), the frames it sends
/// on the Edge2LoRa port are processed at the edge by an active gateway; once
/// it is removed again, they no longer are.
pub proof fn law_association_routes_edge_traffic(
    c: CryptoView,
    dev_eui: Seq<char>,
    dev_addr: Seq<char>,
    dev_public_key: Seq<u8>,
    edge_s_enc_key: Seq<u8>,
    edge_s_int_key: Seq<u8>,
)
    requires
        c.is_active,
    ensures
        spec_uplink_route(
            CryptoView {
                directory: spec_add_associated(
                    c.directory,
                    dev_eui,
                    dev_addr,
                    dev_public_key,
                    edge_s_enc_key,
                    edge_s_int_key,
                ),
                ..c
            },
            dev_addr,
            DEFAULT_E2L_APP_PORT,
        ) == UplinkRoute::Edge,
        spec_uplink_route(
            CryptoView { directory: spec_remove_associated(c.directory, dev_addr), ..c },
            dev_addr,
            DEFAULT_E2L_APP_PORT,
        ) == UplinkRoute::Handover,
{
}

/// An inactive gateway drops every data frame, whatever its device and port.
pub proof fn law_inactive_gateway_drops(c: CryptoView, dev_addr: Seq<char>, f_port: u8)
    requires
        !c.is_active,
    ensures
        spec_uplink_route(c, dev_addr, f_port) == UplinkRoute::Inactive,
{
}

/// Every operation on a directory keeps each entry under its own device
/// address; so a read by address gives an entry of that very address.
pub proof fn law_entries_stay_keyed_by_address(
    d: DirectoryView,
    dev_eui: Seq<char>,
    dev_addr: Seq<char>,
    dev_public_key: Seq<u8>,
    edge_s_enc_key: Seq<u8>,
    edge_s_int_key: Seq<u8>,
    e2gw_id: Seq<char>,
    fcnt: u16,
    a: Seq<char>,
)
    requires
        entries_keyed_by_address(d),
    ensures
        entries_keyed_by_address(spec_add_unassociated(d, dev_eui, dev_addr, e2gw_id)),
        entries_keyed_by_address(
            spec_add_associated(d, dev_eui, dev_addr, dev_public_key, edge_s_enc_key, edge_s_int_key),
        ),
        entries_keyed_by_address(spec_remove_unassociated(d, dev_addr)),
        entries_keyed_by_address(spec_remove_associated(d, dev_addr)),
        entries_keyed_by_address(spec_add_fcnt(d, dev_addr, fcnt)),
        spec_get_unassociated(d, a) matches Some(info) ==> info.dev_addr == a,
        spec_get_associated(d, a) matches Some(info) ==> info.dev_addr == a,
{
}

/// One call of a recorder of `CombinedStats`: a frame received from a device
/// (`record_rx_frame`), or a frame of another kind (`record_fw_frame`,
/// `record_proc_frame`, `record_tx_ho_frame`, `record_rx_ho_frame`).
pub enum StatsEvent {
    Received(Seq<char>, RxpkContent, DeviceAverages),
    Counted(Seq<char>, FrameKind),
}

/// The statistics after one recorder call.
pub open spec fn apply_stats_event(v: CombinedStatsView, e: StatsEvent) -> CombinedStatsView {
    match e {
        StatsEvent::Received(a, p, averages) => spec_record_rx_frame(v, a, p, averages),
        StatsEvent::Counted(a, kind) => spec_record_frame(v, a, kind),
    }
}

/// The statistics after a sequence of recorder calls, in order.
pub open spec fn apply_stats_events(v: CombinedStatsView, events: Seq<StatsEvent>) -> CombinedStatsView
    decreases events.len(),
{
    if events.len() == 0 {
        v
    } else {
        apply_stats_event(apply_stats_events(v, events.drop_last()), events.last())
    }
}

/// The statistics as `CombinedStats::new` makes them.
pub open spec fn fresh_stats() -> CombinedStatsView {
    CombinedStatsView { gw_stats: zero_gw_stats(), devices: Map::empty() }
}

/// A recorder call other than `record_rx_frame` counts a kind other than
/// reception.
pub open spec fn event_kind_ok(e: StatsEvent) -> bool {
    match e {
        StatsEvent::Counted(_, kind) => !(kind is Received),
        StatsEvent::Received(_, _, _) => true,
    }
}

/// The number of received frames among the calls.
pub open spec fn received_total(events: Seq<StatsEvent>) -> nat
    decreases events.len(),
{
    if events.len() == 0 {
        0
    } else {
        received_total(events.drop_last()) + match events.last() {
            StatsEvent::Received(_, _, _) => 1nat,
            StatsEvent::Counted(_, _) => 0nat,
        }
    }
}

/// The packets received from the device at `a` among the calls, in order.
pub open spec fn received_packets(events: Seq<StatsEvent>, a: Seq<char>) -> Seq<RxpkContent>
    decreases events.len(),
{
    if events.len() == 0 {
        Seq::empty()
    } else {
        let prev = received_packets(events.drop_last(), a);
        match events.last() {
            StatsEvent::Received(addr, p, _) => if addr == a {
                prev.push(p)
            } else {
                prev
            },
            StatsEvent::Counted(_, _) => prev,
        }
    }
}

/// The averages handed in with the last frame received from the device at `a`
/// among the calls, if any.
pub open spec fn last_received_averages(events: Seq<StatsEvent>, a: Seq<char>) -> Option<DeviceAverages>
    decreases events.len(),
{
    if events.len() == 0 {
        None
    } else {
        match events.last() {
            StatsEvent::Received(addr, _, averages) => if addr == a {
                Some(averages)
            } else {
                last_received_averages(events.drop_last(), a)
            },
            StatsEvent::Counted(_, _) => last_received_averages(events.drop_last(), a),
        }
    }
}

/// A device's averages are those handed in with the last frame received from
/// it, each in its own field, or zero when none was received.
pub open spec fn averages_match(d: DeviceStatsView, last: Option<DeviceAverages>) -> bool {
    match last {
        Some(av) => {
            &&& d.avg_rssi_bits == av.avg_rssi_bits
            &&& d.avg_snr_bits == av.avg_snr_bits
            &&& d.avg_payload_size_bits == av.avg_payload_size_bits
        },
        None => d.avg_rssi_bits == 0 && d.avg_snr_bits == 0 && d.avg_payload_size_bits == 0,
    }
}

/// The statistics of a device after frames received from it: as many
/// received frames as packets, and the modulations, channels, spreading
/// factors and bandwidths of the packets.
pub open spec fn received_summary(d: DeviceStatsView, packets: Seq<RxpkContent>) -> bool {
    &&& d.frames.rx_frames == packets.len()
    &&& d.modu == packets.map_values(|p: RxpkContent| p.modu@).to_set()
    &&& d.chan == packets.map_values(|p: RxpkContent| p.chan->0).to_set()
    &&& d.sf == packets.map_values(|p: RxpkContent| datr_spreading_factor(p.datr@)).to_set()
    &&& d.bw == packets.map_values(|p: RxpkContent| datr_bandwidth(p.datr@)).to_set()
}

/// The set of a sequence with one more element is the set with that element.
proof fn lemma_push_to_set<T>(s: Seq<T>, x: T)
    ensures
        s.push(x).to_set() == s.to_set().insert(x),
{
    assert forall|y: T| s.push(x).to_set().contains(y) <==> s.to_set().insert(x).contains(y) by {
        if s.push(x).contains(y) && y != x {
            let j = choose|j: int| 0 <= j < s.push(x).len() && s.push(x)[j] == y;
            assert(s[j] == y);
        }
        if s.contains(y) {
            let j = choose|j: int| 0 <= j < s.len() && s[j] == y;
            assert(s.push(x)[j] == y);
        }
        if y == x {
            assert(s.push(x)[s.len() as int] == x);
        }
    }
    assert(s.push(x).to_set() =~= s.to_set().insert(x));
}

/// Starting from fresh statistics, whatever other frames are recorded in
/// between: the gateway counts every received frame, and the statistics of a
/// device count the frames received from it and hold exactly the modulations,
/// channels, spreading factors and bandwidths of their packets, and its average
/// RSSI, SNR and payload size are those handed in with the last frame received
/// from it; a device from which a frame was received is recorded. (The
/// averages are floating-point values worked out by the caller.)
pub proof fn law_received_frames_accumulate(events: Seq<StatsEvent>, a: Seq<char>)
    requires
        forall|i: int| 0 <= i < events.len() ==> event_kind_ok(#[trigger] events[i]),
        received_total(events) <= u32::MAX,
    ensures
        apply_stats_events(fresh_stats(), events).gw_stats.frame.rx_frames == received_total(events),
        received_summary(
            device_or_empty(apply_stats_events(fresh_stats(), events).devices, a),
            received_packets(events, a),
        ),
        received_packets(events, a).len() > 0 ==> apply_stats_events(
            fresh_stats(),
            events,
        ).devices.contains_key(a),
        received_packets(events, a).len() <= received_total(events),
        averages_match(
            device_or_empty(apply_stats_events(fresh_stats(), events).devices, a),
            last_received_averages(events, a),
        ),
    decreases events.len(),
{
    if events.len() > 0 {
        let prev = events.drop_last();
        assert forall|i: int| 0 <= i < prev.len() implies event_kind_ok(#[trigger] prev[i]) by {
            assert(prev[i] == events[i]);
        }
        law_received_frames_accumulate(prev, a);
        assert(event_kind_ok(events[events.len() - 1]));
        let ps = received_packets(prev, a);
        match events.last() {
            StatsEvent::Received(addr, p, _) => {
                if addr == a {
                    lemma_push_to_set(ps.map_values(|q: RxpkContent| q.modu@), p.modu@);
                    assert(ps.push(p).map_values(|q: RxpkContent| q.modu@) =~= ps.map_values(
                        |q: RxpkContent| q.modu@,
                    ).push(p.modu@));
                    lemma_push_to_set(ps.map_values(|q: RxpkContent| q.chan->0), p.chan->0);
                    assert(ps.push(p).map_values(|q: RxpkContent| q.chan->0) =~= ps.map_values(
                        |q: RxpkContent| q.chan->0,
                    ).push(p.chan->0));
                    lemma_push_to_set(
                        ps.map_values(|q: RxpkContent| datr_spreading_factor(q.datr@)),
                        datr_spreading_factor(p.datr@),
                    );
                    assert(ps.push(p).map_values(|q: RxpkContent| datr_spreading_factor(q.datr@))
                        =~= ps.map_values(|q: RxpkContent| datr_spreading_factor(q.datr@)).push(
                        datr_spreading_factor(p.datr@),
                    ));
                    lemma_push_to_set(
                        ps.map_values(|q: RxpkContent| datr_bandwidth(q.datr@)),
                        datr_bandwidth(p.datr@),
                    );
                    assert(ps.push(p).map_values(|q: RxpkContent| datr_bandwidth(q.datr@))
                        =~= ps.map_values(|q: RxpkContent| datr_bandwidth(q.datr@)).push(
                        datr_bandwidth(p.datr@),
                    ));
                }
            },
            StatsEvent::Counted(_, _) => {},
        }
    } else {
        assert(received_packets(events, a).map_values(|p: RxpkContent| p.modu@).to_set() =~= Set::empty());
        assert(received_packets(events, a).map_values(|p: RxpkContent| p.chan->0).to_set() =~= Set::empty());
        assert(received_packets(events, a).map_values(|p: RxpkContent| datr_spreading_factor(p.datr@)).to_set()
            =~= Set::empty());
        assert(received_packets(events, a).map_values(|p: RxpkContent| datr_bandwidth(p.datr@)).to_set()
            =~= Set::empty());
    }
}

/// A handover message for a frame of the device recorded as unassociated under
/// `a` is addressed to that device's serving gateway and carries the device's
/// address `a` and recorded EUI, the frame counter, the receiving gateway's
/// MAC, the packet's radio metadata unchanged (its own data rate in `datr`, its
/// own coding rate in `codr`) and the PHY payload in Base64.
pub proof fn law_handover_message_content(
    d: DirectoryView,
    a: Seq<char>,
    j: UnassociatedMqttJson,
    fcnt: u16,
    phy: Seq<u8>,
    packet: RxpkContent,
    gwmac: Seq<char>,
)
    requires
        entries_keyed_by_address(d),
        d.unassociated.contains_key(a),
        handover_message(j, d.unassociated[a], fcnt, phy, packet, gwmac),
    ensures
        j.dev_addr@ == a,
        j.dev_eui@ == d.unassociated[a].dev_eui,
        j.gw_id@ == d.unassociated[a].e2gw_id,
        j.gwmac@ == gwmac,
        j.fcnt == fcnt,
        j.time == packet.time,
        j.tmst == packet.tmst,
        j.freq_bits == packet.freq_bits,
        j.chan == packet.chan,
        j.stat == packet.stat,
        j.modu@ == packet.modu@,
        j.datr@ == packet.datr@,
        j.codr@ == packet.codr@,
        j.rssi == packet.rssi,
        j.lsnr_bits == packet.lsnr_bits,
        j.size == packet.size,
        j.data@ == base64_standard(phy),
{
}

/// A processing message for a frame of the device recorded as associated under
/// `a` carries the device's address `a` and recorded EUI, the frame counter,
/// the receiving gateway's MAC, the packet's data rate, coding rate, frequency,
/// channel, RSSI and SNR unchanged, and the decrypted application data in
/// Base64.
pub proof fn law_edge_message_content(
    d: DirectoryView,
    a: Seq<char>,
    j: MqttJson,
    fcnt: u16,
    frame: Seq<u8>,
    packet: RxpkContent,
    gwmac: Seq<char>,
)
    requires
        entries_keyed_by_address(d),
        d.associated.contains_key(a),
        edge_message(j, d.associated[a], fcnt, frame, packet, gwmac),
    ensures
        j.dev_addr@ == a,
        j.dev_eui@ == d.associated[a].dev_eui,
        j.fcnt == fcnt,
        j.gtw_id@ == gwmac,
        j.frequency_bits == packet.freq_bits,
        j.data_rate@ == packet.datr@,
        j.coding_rate@ == packet.codr@,
        Some(j.gtw_channel) == packet.chan,
        Some(j.gtw_rssi) == packet.rssi,
        Some(j.gtw_snr_bits) == packet.lsnr_bits,
        j.payload@ == base64_standard(frame),
{
}

/// Recording a frame received from the device at `a`: the gateway and the
/// device each count one more received frame and nothing else; the device's
/// average RSSI, SNR and payload size become the ones handed in, each in its
/// own field; its frame counter is kept; the packet's modulation, channel,
/// spreading factor and bandwidth are added to what was seen, and its
/// frequency is then among the frequencies seen (up to `OrderedFloat`
/// equality); the statistics of every other device are unchanged.
pub proof fn law_record_rx_frame_updates_device(
    v: CombinedStatsView,
    a: Seq<char>,
    packet: RxpkContent,
    averages: DeviceAverages,
    other: Seq<char>,
)
    requires
        v.gw_stats.frame.rx_frames < u32::MAX,
        device_or_empty(v.devices, a).frames.rx_frames < u32::MAX,
    ensures
        ({
            let e = spec_record_rx_frame(v, a, packet, averages);
            let before = device_or_empty(v.devices, a);
            let after = e.devices[a];
            &&& e.devices.contains_key(a)
            &&& e.gw_stats.frame.rx_frames == v.gw_stats.frame.rx_frames + 1
            &&& e.gw_stats.frame.fw_frames == v.gw_stats.frame.fw_frames
            &&& e.gw_stats.frame.tx_ho_frames == v.gw_stats.frame.tx_ho_frames
            &&& e.gw_stats.frame.rx_ho_frames == v.gw_stats.frame.rx_ho_frames
            &&& e.gw_stats.frame.proc_frames == v.gw_stats.frame.proc_frames
            &&& e.gw_stats.mem_usage == v.gw_stats.mem_usage
            &&& after.frames.rx_frames == before.frames.rx_frames + 1
            &&& after.frames.fw_frames == before.frames.fw_frames
            &&& after.frames.tx_ho_frames == before.frames.tx_ho_frames
            &&& after.frames.rx_ho_frames == before.frames.rx_ho_frames
            &&& after.frames.proc_frames == before.frames.proc_frames
            &&& after.fcnt == before.fcnt
            &&& after.avg_rssi_bits == averages.avg_rssi_bits
            &&& after.avg_snr_bits == averages.avg_snr_bits
            &&& after.avg_payload_size_bits == averages.avg_payload_size_bits
            &&& after.modu == before.modu.insert(packet.modu@)
            &&& after.chan == before.chan.insert(packet.chan->0)
            &&& after.sf == before.sf.insert(datr_spreading_factor(packet.datr@))
            &&& after.bw == before.bw.insert(datr_bandwidth(packet.datr@))
            &&& before.freq.subset_of(after.freq)
            &&& exists|f: u32| after.freq.contains(f) && ordered_float_eq_bits(f, packet.freq_bits)
            &&& other != a ==> device_or_empty(e.devices, other) == device_or_empty(v.devices, other)
        }),
{
    let e = spec_record_rx_frame(v, a, packet, averages);
    let before = device_or_empty(v.devices, a);
    let after = e.devices[a];
    if !(exists|f: u32| before.freq.contains(f) && ordered_float_eq_bits(f, packet.freq_bits)) {
        assert(after.freq.contains(packet.freq_bits));
        assert(ordered_float_eq_bits(packet.freq_bits, packet.freq_bits));
    }
}

/// The spreading-factor part of a packet's data rate, when it reads.
pub open spec fn datr_sf(p: RxpkContent) -> Option<Seq<char>> {
    match parse_datr_spec(p.datr@) {
        Some(parts) => Some(parts.0),
        None => None,
    }
}

/// The bandwidth part of a packet's data rate, when it reads.
pub open spec fn datr_bw(p: RxpkContent) -> Option<u32> {
    match parse_datr_spec(p.datr@) {
        Some(parts) => Some(parts.1),
        None => None,
    }
}

/// The settings recorded for a group are exactly those of its packets: the
/// spreading factors and bandwidths read from their data rates, their
/// modulations, the channels they report, and their frequencies (one per
/// class of `OrderedFloat` equality, each the frequency of one of them).
pub open spec fn settings_match_packets(g: DevicePksView) -> bool {
    &&& forall|s: Seq<char>|
        #[trigger] g.sf_set.contains(s) <==> exists|i: int|
            0 <= i < g.rxpk.len() && datr_sf(#[trigger] g.rxpk[i]) == Some(s)
    &&& forall|b: u32|
        #[trigger] g.bw_set.contains(b) <==> exists|i: int|
            0 <= i < g.rxpk.len() && datr_bw(#[trigger] g.rxpk[i]) == Some(b)
    &&& forall|m: Seq<char>|
        #[trigger] g.modu_set.contains(m) <==> exists|i: int|
            0 <= i < g.rxpk.len() && (#[trigger] g.rxpk[i]).modu@ == m
    &&& forall|c: u32|
        #[trigger] g.chan_set.contains(c) <==> exists|i: int|
            0 <= i < g.rxpk.len() && (#[trigger] g.rxpk[i]).chan == Some(c)
    &&& forall|f: u32|
        #[trigger] g.freq_set.contains(f) ==> exists|i: int|
            0 <= i < g.rxpk.len() && (#[trigger] g.rxpk[i]).freq_bits == f
    &&& forall|i: int|
        0 <= i < g.rxpk.len() ==> exists|f: u32|
            #[trigger] g.freq_set.contains(f) && ordered_float_eq_bits(f, (#[trigger] g.rxpk[i]).freq_bits)
}

/// Adding a packet to a group whose settings are those of its packets keeps
/// them so.
proof fn lemma_add_packet_keeps_settings(g: DevicePksView, p: RxpkContent)
    requires
        settings_match_packets(g),
    ensures
        settings_match_packets(group_add_packet(g, p)),
{
    let h = group_add_packet(g, p);
    let n = g.rxpk.len() as int;
    assert(h.rxpk[n] == p);
    assert forall|i: int| 0 <= i < n implies #[trigger] h.rxpk[i] == g.rxpk[i] by {}
    assert forall|s: Seq<char>|
        #[trigger] h.sf_set.contains(s) <==> exists|i: int|
            0 <= i < h.rxpk.len() && datr_sf(#[trigger] h.rxpk[i]) == Some(s) by {
        if h.sf_set.contains(s) && g.sf_set.contains(s) {
            let i = choose|i: int| 0 <= i < g.rxpk.len() && datr_sf(#[trigger] g.rxpk[i]) == Some(s);
            assert(h.rxpk[i] == g.rxpk[i]);
        }
        if exists|i: int| 0 <= i < h.rxpk.len() && datr_sf(#[trigger] h.rxpk[i]) == Some(s) {
            let i = choose|i: int| 0 <= i < h.rxpk.len() && datr_sf(#[trigger] h.rxpk[i]) == Some(s);
            if i < n {
                assert(h.rxpk[i] == g.rxpk[i]);
            }
        }
    }
    assert forall|b: u32|
        #[trigger] h.bw_set.contains(b) <==> exists|i: int|
            0 <= i < h.rxpk.len() && datr_bw(#[trigger] h.rxpk[i]) == Some(b) by {
        if h.bw_set.contains(b) && g.bw_set.contains(b) {
            let i = choose|i: int| 0 <= i < g.rxpk.len() && datr_bw(#[trigger] g.rxpk[i]) == Some(b);
            assert(h.rxpk[i] == g.rxpk[i]);
        }
        if exists|i: int| 0 <= i < h.rxpk.len() && datr_bw(#[trigger] h.rxpk[i]) == Some(b) {
            let i = choose|i: int| 0 <= i < h.rxpk.len() && datr_bw(#[trigger] h.rxpk[i]) == Some(b);
            if i < n {
                assert(h.rxpk[i] == g.rxpk[i]);
            }
        }
    }
    assert forall|m: Seq<char>|
        #[trigger] h.modu_set.contains(m) <==> exists|i: int|
            0 <= i < h.rxpk.len() && (#[trigger] h.rxpk[i]).modu@ == m by {
        if h.modu_set.contains(m) && g.modu_set.contains(m) {
            let i = choose|i: int| 0 <= i < g.rxpk.len() && (#[trigger] g.rxpk[i]).modu@ == m;
            assert(h.rxpk[i] == g.rxpk[i]);
        }
        if exists|i: int| 0 <= i < h.rxpk.len() && (#[trigger] h.rxpk[i]).modu@ == m {
            let i = choose|i: int| 0 <= i < h.rxpk.len() && (#[trigger] h.rxpk[i]).modu@ == m;
            if i < n {
                assert(h.rxpk[i] == g.rxpk[i]);
            }
        }
    }
    assert forall|c: u32|
        #[trigger] h.chan_set.contains(c) <==> exists|i: int|
            0 <= i < h.rxpk.len() && (#[trigger] h.rxpk[i]).chan == Some(c) by {
        if h.chan_set.contains(c) && g.chan_set.contains(c) {
            let i = choose|i: int| 0 <= i < g.rxpk.len() && (#[trigger] g.rxpk[i]).chan == Some(c);
            assert(h.rxpk[i] == g.rxpk[i]);
        }
        if exists|i: int| 0 <= i < h.rxpk.len() && (#[trigger] h.rxpk[i]).chan == Some(c) {
            let i = choose|i: int| 0 <= i < h.rxpk.len() && (#[trigger] h.rxpk[i]).chan == Some(c);
            if i < n {
                assert(h.rxpk[i] == g.rxpk[i]);
            }
        }
    }
    assert forall|f: u32| #[trigger] h.freq_set.contains(f) implies exists|i: int|
        0 <= i < h.rxpk.len() && (#[trigger] h.rxpk[i]).freq_bits == f by {
        if g.freq_set.contains(f) {
            let i = choose|i: int| 0 <= i < g.rxpk.len() && (#[trigger] g.rxpk[i]).freq_bits == f;
            assert(h.rxpk[i] == g.rxpk[i]);
        }
    }
    assert forall|i: int| 0 <= i < h.rxpk.len() implies exists|f: u32|
        #[trigger] h.freq_set.contains(f) && ordered_float_eq_bits(f, (#[trigger] h.rxpk[i]).freq_bits) by {
        if i < n {
            assert(h.rxpk[i] == g.rxpk[i]);
            let f = choose|f: u32| #[trigger] g.freq_set.contains(f) && ordered_float_eq_bits(f, g.rxpk[i].freq_bits);
            assert(h.freq_set.contains(f));
        } else {
            if exists|e: u32| g.freq_set.contains(e) && ordered_float_eq_bits(e, p.freq_bits) {
                let e = choose|e: u32| g.freq_set.contains(e) && ordered_float_eq_bits(e, p.freq_bits);
                assert(h.freq_set.contains(e));
            } else {
                assert(h.freq_set.contains(p.freq_bits));
                assert(ordered_float_eq_bits(p.freq_bits, p.freq_bits));
            }
        }
    }
}

/// Each group of `group_packets` belongs to its key: it holds at least one
/// packet, all of its packets carry that device address, it records that
/// address and the EUI of its first packet; and the settings it records are
/// exactly those of its packets (see `settings_match_packets`): for instance
/// its spreading factors are the spreading-factor parts read from their data
/// rates, not the data-rate texts themselves.
pub proof fn law_group_settings(packets: Seq<RxpkContent>, a: Seq<char>)
    requires
        group_packets(packets).contains_key(a),
    ensures
        group_packets(packets)[a].dev_addr == a,
        group_packets(packets)[a].rxpk.len() > 0,
        group_packets(packets)[a].dev_eui == packet_dev_eui(group_packets(packets)[a].rxpk[0]),
        forall|i: int|
            0 <= i < group_packets(packets)[a].rxpk.len() ==> packet_dev_addr(
                #[trigger] group_packets(packets)[a].rxpk[i],
            ) == a,
        settings_match_packets(group_packets(packets)[a]),
    decreases packets.len(),
{
    let prev = packets.drop_last();
    let m = group_packets(prev);
    let p = packets.last();
    let k = packet_dev_addr(p);
    if k != a {
        law_group_settings(prev, a);
    } else if m.contains_key(a) {
        law_group_settings(prev, a);
        lemma_add_packet_keeps_settings(m[a], p);
        let g = group_packets(packets)[a];
        assert(g.rxpk[0] == m[a].rxpk[0]);
        assert forall|i: int| 0 <= i < g.rxpk.len() implies packet_dev_addr(#[trigger] g.rxpk[i]) == a by {
            if i < m[a].rxpk.len() {
                assert(g.rxpk[i] == m[a].rxpk[i]);
            }
        }
    } else {
        let g0 = new_group(p);
        assert(settings_match_packets(g0));
        lemma_add_packet_keeps_settings(g0, p);
        let g = group_packets(packets)[a];
        assert(g.rxpk[0] == p);
    }
}

} // verus!
