//! The active directory of a gateway: which end devices run their edge session
//! here (associated, with their session keys and received frame counters) and
//! which are served by another gateway (unassociated), keyed by device address.

use vstd::prelude::*;
use crate::keyed::{
    entries_map, find_key, keyed, keys_distinct, lemma_entries_map,
    lemma_entries_push, lemma_entries_remove, lemma_entries_update,
};

verus! {

/// A device whose edge session is handled by another gateway.
pub struct UnassociatedDevInfo {
    pub dev_eui: String,
    pub dev_addr: String,
    pub e2gw_id: String,
}

/// The value of an [`UnassociatedDevInfo`].
pub struct UnassociatedDevView {
    pub dev_eui: Seq<char>,
    pub dev_addr: Seq<char>,
    pub e2gw_id: Seq<char>,
}

impl View for UnassociatedDevInfo {
    type V = UnassociatedDevView;

    open spec fn view(&self) -> UnassociatedDevView {
        UnassociatedDevView { dev_eui: self.dev_eui@, dev_addr: self.dev_addr@, e2gw_id: self.e2gw_id@ }
    }
}

impl Clone for UnassociatedDevInfo {
    fn clone(&self) -> (r: Self)
        ensures
            r@ == self@,
    {
        UnassociatedDevInfo {
            dev_eui: self.dev_eui.clone(),
            dev_addr: self.dev_addr.clone(),
            e2gw_id: self.e2gw_id.clone(),
        }
    }
}

/// A device whose edge session runs on this gateway. The device public key is
/// held as its SEC1 encoding; the two edge session keys are AES-128 keys.
pub struct AssociatedDevInfo {
    pub dev_eui: String,
    pub dev_addr: String,
    pub dev_public_key: Vec<u8>,
    pub edge_s_enc_key: Vec<u8>,
    pub edge_s_int_key: Vec<u8>,
    pub fcnts: Vec<u16>,
}

/// The value of an [`AssociatedDevInfo`].
pub struct AssociatedDevView {
    pub dev_eui: Seq<char>,
    pub dev_addr: Seq<char>,
    pub dev_public_key: Seq<u8>,
    pub edge_s_enc_key: Seq<u8>,
    pub edge_s_int_key: Seq<u8>,
    pub fcnts: Seq<u16>,
}

impl View for AssociatedDevInfo {
    type V = AssociatedDevView;

    open spec fn view(&self) -> AssociatedDevView {
        AssociatedDevView {
            dev_eui: self.dev_eui@,
            dev_addr: self.dev_addr@,
            dev_public_key: self.dev_public_key@,
            edge_s_enc_key: self.edge_s_enc_key@,
            edge_s_int_key: self.edge_s_int_key@,
            fcnts: self.fcnts@,
        }
    }
}

impl Clone for AssociatedDevInfo {
    fn clone(&self) -> (r: Self)
        ensures
            r@ == self@,
    {
        let r = AssociatedDevInfo {
            dev_eui: self.dev_eui.clone(),
            dev_addr: self.dev_addr.clone(),
            dev_public_key: self.dev_public_key.clone(),
            edge_s_enc_key: self.edge_s_enc_key.clone(),
            edge_s_int_key: self.edge_s_int_key.clone(),
            fcnts: self.fcnts.clone(),
        };
        assert(r.dev_public_key@ =~= self.dev_public_key@);
        assert(r.edge_s_enc_key@ =~= self.edge_s_enc_key@);
        assert(r.edge_s_int_key@ =~= self.edge_s_int_key@);
        assert(r.fcnts@ =~= self.fcnts@);
        r
    }
}

/// The contents of a directory: both tables, keyed by device address.
pub struct DirectoryView {
    pub unassociated: Map<Seq<char>, UnassociatedDevView>,
    pub associated: Map<Seq<char>, AssociatedDevView>,
}

/// The directory of end devices known to the gateway.
pub struct E2LActiveDirectory {
    unassociated_dev_info: Vec<(String, UnassociatedDevInfo)>,
    associated_dev_info: Vec<(String, AssociatedDevInfo)>,
}

impl View for E2LActiveDirectory {
    type V = DirectoryView;

    closed spec fn view(&self) -> DirectoryView {
        DirectoryView {
            unassociated: entries_map(keyed(self.unassociated_dev_info@)),
            associated: entries_map(keyed(self.associated_dev_info@)),
        }
    }
}

/// An associated device as it is first recorded, before its frame counters.
pub open spec fn associated_view(
    dev_eui: Seq<char>,
    dev_addr: Seq<char>,
    dev_public_key: Seq<u8>,
    edge_s_enc_key: Seq<u8>,
    edge_s_int_key: Seq<u8>,
    fcnts: Seq<u16>,
) -> AssociatedDevView {
    AssociatedDevView { dev_eui, dev_addr, dev_public_key, edge_s_enc_key, edge_s_int_key, fcnts }
}

/// The frame counters recorded for `dev_addr`, empty for an unknown address.
pub open spec fn recorded_fcnts(d: DirectoryView, dev_addr: Seq<char>) -> Seq<u16> {
    if d.associated.contains_key(dev_addr) {
        d.associated[dev_addr].fcnts
    } else {
        Seq::empty()
    }
}

/// The directory after `add_unassociated_dev`.
pub open spec fn spec_add_unassociated(
    d: DirectoryView,
    dev_eui: Seq<char>,
    dev_addr: Seq<char>,
    e2gw_id: Seq<char>,
) -> DirectoryView {
    DirectoryView {
        unassociated: d.unassociated.insert(
            dev_addr,
            UnassociatedDevView { dev_eui, dev_addr, e2gw_id },
        ),
        associated: d.associated,
    }
}

/// The directory after `add_associated_dev`: the entry is replaced, and the frame
/// counters already recorded for the address are kept.
pub open spec fn spec_add_associated(
    d: DirectoryView,
    dev_eui: Seq<char>,
    dev_addr: Seq<char>,
    dev_public_key: Seq<u8>,
    edge_s_enc_key: Seq<u8>,
    edge_s_int_key: Seq<u8>,
) -> DirectoryView {
    DirectoryView {
        unassociated: d.unassociated,
        associated: d.associated.insert(
            dev_addr,
            associated_view(
                dev_eui,
                dev_addr,
                dev_public_key,
                edge_s_enc_key,
                edge_s_int_key,
                recorded_fcnts(d, dev_addr),
            ),
        ),
    }
}

/// The directory after `remove_unassociated_dev`.
pub open spec fn spec_remove_unassociated(d: DirectoryView, dev_addr: Seq<char>) -> DirectoryView {
    DirectoryView { unassociated: d.unassociated.remove(dev_addr), associated: d.associated }
}

/// The directory after `remove_associated_dev`.
pub open spec fn spec_remove_associated(d: DirectoryView, dev_addr: Seq<char>) -> DirectoryView {
    DirectoryView { unassociated: d.unassociated, associated: d.associated.remove(dev_addr) }
}

/// The directory after `add_fcnt`: the counter is appended for a known address,
/// nothing changes for an unknown one.
pub open spec fn spec_add_fcnt(d: DirectoryView, dev_addr: Seq<char>, fcnt: u16) -> DirectoryView {
    if d.associated.contains_key(dev_addr) {
        let e = d.associated[dev_addr];
        DirectoryView {
            unassociated: d.unassociated,
            associated: d.associated.insert(
                dev_addr,
                associated_view(
                    e.dev_eui,
                    e.dev_addr,
                    e.dev_public_key,
                    e.edge_s_enc_key,
                    e.edge_s_int_key,
                    e.fcnts.push(fcnt),
                ),
            ),
        }
    } else {
        d
    }
}

/// What `get_unassociated_dev` returns.
pub open spec fn spec_get_unassociated(d: DirectoryView, dev_addr: Seq<char>) -> Option<
    UnassociatedDevView,
> {
    if d.unassociated.contains_key(dev_addr) {
        Some(d.unassociated[dev_addr])
    } else {
        None
    }
}

/// What `get_associated_dev` returns.
pub open spec fn spec_get_associated(d: DirectoryView, dev_addr: Seq<char>) -> Option<
    AssociatedDevView,
> {
    if d.associated.contains_key(dev_addr) {
        Some(d.associated[dev_addr])
    } else {
        None
    }
}

/// An optional value taken by its view.
pub open spec fn opt_view<T: View>(o: Option<T>) -> Option<T::V> {
    match o {
        Some(t) => Some(t@),
        None => None,
    }
}

/// Every recorded associated device has AES-128 session keys.
pub open spec fn session_keys_sized(d: DirectoryView) -> bool {
    forall|k: Seq<char>|
        #![trigger d.associated[k]]
        d.associated.contains_key(k) ==> d.associated[k].edge_s_enc_key.len() == 16
            && d.associated[k].edge_s_int_key.len() == 16
}

/// Every entry of both tables is recorded under its own device address.
pub open spec fn entries_keyed_by_address(d: DirectoryView) -> bool {
    &&& forall|k: Seq<char>|
        #![trigger d.unassociated[k]]
        d.unassociated.contains_key(k) ==> d.unassociated[k].dev_addr == k
    &&& forall|k: Seq<char>|
        #![trigger d.associated[k]]
        d.associated.contains_key(k) ==> d.associated[k].dev_addr == k
}

impl E2LActiveDirectory {
    /// Each table has at most one entry per address, every entry is recorded
    /// under its own device address, and every associated device has AES-128
    /// session keys.
    pub closed spec fn wf(&self) -> bool {
        &&& keys_distinct(keyed(self.unassociated_dev_info@))
        &&& keys_distinct(keyed(self.associated_dev_info@))
        &&& entries_keyed_by_address(self@)
        &&& session_keys_sized(self@)
    }

    /// An empty directory.
    pub fn new() -> (d: Self)
        ensures
            d.wf(),
            d@.unassociated == Map::<Seq<char>, UnassociatedDevView>::empty(),
            d@.associated == Map::<Seq<char>, AssociatedDevView>::empty(),
    {
        let d = E2LActiveDirectory { unassociated_dev_info: Vec::new(), associated_dev_info: Vec::new() };
        assert(keyed(d.associated_dev_info@) =~= Seq::empty());
        assert(keyed(d.unassociated_dev_info@) =~= Seq::empty());
        assert(d@.associated =~= Map::empty());
        d
    }

    /// Records (or replaces) a device served by gateway `e2gw_id`.
    pub fn add_unassociated_dev(&mut self, dev_eui: String, dev_addr: String, e2gw_id: String)
        requires
            old(self).wf(),
        ensures
            final(self).wf(),
            final(self)@ == spec_add_unassociated(old(self)@, dev_eui@, dev_addr@, e2gw_id@),
    {
        let key = dev_addr.clone();
        let info = UnassociatedDevInfo { dev_eui, dev_addr, e2gw_id };
        let ghost s = keyed(self.unassociated_dev_info@);
        let pos = find_key(&self.unassociated_dev_info, &key);
        let mut entries = Vec::new();
        std::mem::swap(&mut entries, &mut self.unassociated_dev_info);
        match pos {
            Some(i) => {
                proof {
                    lemma_entries_update(s, i as int, info@);
                }
                entries.set(i, (key, info));
                assert(keyed(entries@) =~= s.update(i as int, (s[i as int].0, info@)));
            },
            None => {
                proof {
                    lemma_entries_push(s, key@, info@);
                }
                entries.push((key, info));
                assert(keyed(entries@) =~= s.push((key@, info@)));
            },
        }
        self.unassociated_dev_info = entries;
        assert(self@.unassociated =~= spec_add_unassociated(old(self)@, dev_eui@, dev_addr@, e2gw_id@).unassociated);
    }

    /// The session keys of every recorded associated device are AES-128 keys.
    pub proof fn lemma_session_keys_sized(&self)
        requires
            self.wf(),
        ensures
            session_keys_sized(self@),
    {
    }

    /// Every entry of a directory is recorded under its own device address.
    pub proof fn lemma_entries_keyed_by_address(&self)
        requires
            self.wf(),
        ensures
            entries_keyed_by_address(self@),
    {
    }

    /// Records (or replaces) a device whose edge session runs on this gateway,
    /// keeping the frame counters already recorded for its address.
    pub fn add_associated_dev(
        &mut self,
        dev_eui: String,
        dev_addr: String,
        dev_public_key: Vec<u8>,
        edge_s_enc_key: Vec<u8>,
        edge_s_int_key: Vec<u8>,
    )
        requires
            old(self).wf(),
            edge_s_enc_key@.len() == 16,
            edge_s_int_key@.len() == 16,
        ensures
            final(self).wf(),
            final(self)@ == spec_add_associated(
                old(self)@,
                dev_eui@,
                dev_addr@,
                dev_public_key@,
                edge_s_enc_key@,
                edge_s_int_key@,
            ),
    {
        let ghost d = self@;
        let ghost s = keyed(self.associated_dev_info@);
        proof {
            lemma_entries_map(s);
        }
        let key = dev_addr.clone();
        let pos = find_key(&self.associated_dev_info, &key);
        let fcnts: Vec<u16> = match pos {
            Some(i) => {
                let f = self.associated_dev_info[i].1.fcnts.clone();
                assert(f@ =~= s[i as int].1.fcnts);
                f
            },
            None => Vec::new(),
        };
        assert(fcnts@ =~= recorded_fcnts(d, dev_addr@));
        let info = AssociatedDevInfo {
            dev_eui,
            dev_addr,
            dev_public_key,
            edge_s_enc_key,
            edge_s_int_key,
            fcnts,
        };
        match pos {
            Some(i) => {
                proof {
                    lemma_entries_update(s, i as int, info@);
                }
                self.associated_dev_info.set(i, (key, info));
                assert(keyed(self.associated_dev_info@) =~= s.update(i as int, (s[i as int].0, info@)));
            },
            None => {
                proof {
                    lemma_entries_push(s, key@, info@);
                }
                self.associated_dev_info.push((key, info));
                assert(keyed(self.associated_dev_info@) =~= s.push((key@, info@)));
            },
        }
        assert(self@.associated =~= spec_add_associated(d, dev_eui@, dev_addr@, dev_public_key@, edge_s_enc_key@, edge_s_int_key@).associated);
    }

    /// The unassociated device recorded under `dev_addr`, if any.
    pub fn get_unassociated_dev(&self, dev_addr: &str) -> (r: Option<UnassociatedDevInfo>)
        requires
            self.wf(),
        ensures
            opt_view(r) == spec_get_unassociated(self@, dev_addr@),
            r matches Some(info) ==> info.dev_addr@ == dev_addr@,
    {
        let ghost s = keyed(self.unassociated_dev_info@);
        proof {
            lemma_entries_map(s);
        }
        let key = dev_addr.to_owned();
        match find_key(&self.unassociated_dev_info, &key) {
            Some(i) => Some(self.unassociated_dev_info[i].1.clone()),
            None => None,
        }
    }

    /// The associated device recorded under `dev_addr`, if any.
    pub fn get_associated_dev(&self, dev_addr: &str) -> (r: Option<AssociatedDevInfo>)
        requires
            self.wf(),
        ensures
            opt_view(r) == spec_get_associated(self@, dev_addr@),
            r matches Some(info) ==> info.dev_addr@ == dev_addr@,
            r matches Some(info) ==> info.edge_s_enc_key@.len() == 16
                && info.edge_s_int_key@.len() == 16,
    {
        let ghost s = keyed(self.associated_dev_info@);
        proof {
            lemma_entries_map(s);
        }
        let key = dev_addr.to_owned();
        match find_key(&self.associated_dev_info, &key) {
            Some(i) => {
                assert(self@.associated[s[i as int].0] == s[i as int].1);
                Some(self.associated_dev_info[i].1.clone())
            },
            None => None,
        }
    }

    /// Forgets the unassociated device recorded under `dev_addr`.
    pub fn remove_unassociated_dev(&mut self, dev_addr: &str)
        requires
            old(self).wf(),
        ensures
            final(self).wf(),
            final(self)@ == spec_remove_unassociated(old(self)@, dev_addr@),
    {
        let ghost d = self@;
        let ghost s = keyed(self.unassociated_dev_info@);
        proof {
            lemma_entries_map(s);
        }
        let key = dev_addr.to_owned();
        match find_key(&self.unassociated_dev_info, &key) {
            Some(i) => {
                proof {
                    lemma_entries_remove(s, i as int);
                }
                let _ = self.unassociated_dev_info.remove(i);
                assert(keyed(self.unassociated_dev_info@) =~= s.remove(i as int));
            },
            None => {},
        }
        assert(self@.unassociated =~= d.unassociated.remove(dev_addr@));
        assert(self@.associated == d.associated);
    }

    /// Forgets the associated device recorded under `dev_addr`.
    pub fn remove_associated_dev(&mut self, dev_addr: &str)
        requires
            old(self).wf(),
        ensures
            final(self).wf(),
            final(self)@ == spec_remove_associated(old(self)@, dev_addr@),
    {
        let ghost d = self@;
        let ghost s = keyed(self.associated_dev_info@);
        proof {
            lemma_entries_map(s);
        }
        let key = dev_addr.to_owned();
        match find_key(&self.associated_dev_info, &key) {
            Some(i) => {
                proof {
                    lemma_entries_remove(s, i as int);
                }
                let _ = self.associated_dev_info.remove(i);
                assert(keyed(self.associated_dev_info@) =~= s.remove(i as int));
            },
            None => {},
        }
        assert(self@.associated =~= d.associated.remove(dev_addr@));
        assert(self@.unassociated == d.unassociated);
    }

    /// Whether an associated device is recorded under `dev_addr`.
    pub fn is_associated_dev(&self, dev_addr: &str) -> (r: bool)
        requires
            self.wf(),
        ensures
            r == self@.associated.contains_key(dev_addr@),
    {
        let ghost s = keyed(self.associated_dev_info@);
        proof {
            lemma_entries_map(s);
        }
        let key = dev_addr.to_owned();
        find_key(&self.associated_dev_info, &key).is_some()
    }

    /// Appends a frame counter to the associated device recorded under
    /// `dev_addr`; does nothing for an unknown address.
    pub fn add_fcnt(&mut self, dev_addr: &str, fcnt: u16)
        requires
            old(self).wf(),
        ensures
            final(self).wf(),
            final(self)@ == spec_add_fcnt(old(self)@, dev_addr@, fcnt),
    {
        let ghost d = self@;
        let ghost s = keyed(self.associated_dev_info@);
        proof {
            lemma_entries_map(s);
        }
        let key = dev_addr.to_owned();
        match find_key(&self.associated_dev_info, &key) {
            Some(i) => {
                let mut info = self.associated_dev_info[i].1.clone();
                info.fcnts.push(fcnt);
                let k = self.associated_dev_info[i].0.clone();
                assert(self@.associated[s[i as int].0] == s[i as int].1);
                proof {
                    lemma_entries_update(s, i as int, info@);
                }
                self.associated_dev_info.set(i, (k, info));
                assert(keyed(self.associated_dev_info@) =~= s.update(i as int, (s[i as int].0, info@)));
                assert(self@.associated =~= spec_add_fcnt(d, dev_addr@, fcnt).associated);
            },
            None => {},
        }
    }

    /// Empties both tables.
    fn _clear(&mut self)
        ensures
            final(self).wf(),
            final(self)@.unassociated == Map::<Seq<char>, UnassociatedDevView>::empty(),
            final(self)@.associated == Map::<Seq<char>, AssociatedDevView>::empty(),
    {
        self.unassociated_dev_info.clear();
        self.associated_dev_info.clear();
        assert(keyed(self.associated_dev_info@) =~= Seq::empty());
        assert(keyed(self.unassociated_dev_info@) =~= Seq::empty());
        assert(self@.associated =~= Map::empty());
        assert(self@.unassociated =~= Map::empty());
    }
}

impl Default for E2LActiveDirectory {
    fn default() -> (d: Self)
        ensures
            d.wf(),
            d@.unassociated == Map::<Seq<char>, UnassociatedDevView>::empty(),
            d@.associated == Map::<Seq<char>, AssociatedDevView>::empty(),
    {
        Self::new()
    }
}

} // verus!
