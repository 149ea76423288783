//! The shared live-channel catalog — an insertion-ordered map of channel id
//! to channel metadata, backed by `indexmap` — and the per-channel
//! "now playing" assembly built on top of it.
//!
//! The catalog itself is loaded once per run (through the single-flight
//! cache) from the channel directory backend; consumers read it as an
//! ordered snapshot. The map operations of `indexmap` are trusted at the
//! boundary below, with their contracts stated over the named entry
//! sequence [`map_entries`]; everything built on them is verified.

use vstd::prelude::*;

use crate::zapp::{ChannelId, ChannelInfo};

verus! {

/// The entries a channel map holds, in insertion order: the key's
/// characters and the stored metadata.
pub uninterp spec fn map_entries(
    m: indexmap::IndexMap<String, ChannelInfo>,
) -> Seq<(Seq<char>, ChannelInfo)>;

#[verifier::external_type_specification]
#[verifier::external_body]
#[verifier::reject_recursive_types(K)]
#[verifier::reject_recursive_types(V)]
#[verifier::reject_recursive_types(S)]
pub struct ExIndexMap<K, V, S>(indexmap::IndexMap<K, V, S>);

/// No two entries share a key — the invariant `indexmap` maintains.
pub open spec fn distinct_keys(es: Seq<(Seq<char>, ChannelInfo)>) -> bool {
    forall|i: int, j: int| 0 <= i < j < es.len() ==> es[i].0 != es[j].0
}

/// Whether some entry has the key `k`.
pub open spec fn has_key(es: Seq<(Seq<char>, ChannelInfo)>, k: Seq<char>) -> bool {
    exists|i: int| 0 <= i < es.len() && es[i].0 == k
}

/// The index of the entry with key `k` (unique under [`distinct_keys`]).
pub open spec fn index_of_key(es: Seq<(Seq<char>, ChannelInfo)>, k: Seq<char>) -> int {
    choose|i: int| 0 <= i < es.len() && es[i].0 == k
}

/// Relies on indexmap::IndexMap::new: the new map is empty.
#[verifier::external_body]
fn map_new() -> (m: indexmap::IndexMap<String, ChannelInfo>)
    ensures
        map_entries(m) == Seq::<(Seq<char>, ChannelInfo)>::empty(),
{
    indexmap::IndexMap::new()
}

/// Relies on indexmap::IndexMap::insert: a new key is appended last in
/// order and `None` comes back; an existing key keeps its place, its value
/// is replaced, and the older value comes back.
#[verifier::external_body]
fn map_insert(
    m: &mut indexmap::IndexMap<String, ChannelInfo>,
    key: String,
    value: ChannelInfo,
) -> (prev: Option<ChannelInfo>)
    ensures
        !has_key(map_entries(*old(m)), key@) ==> map_entries(*final(m)) == map_entries(
            *old(m),
        ).push((key@, value)) && prev is None,
        forall|i: int|
            0 <= i < map_entries(*old(m)).len() && map_entries(*old(m))[i].0 == key@
                && distinct_keys(map_entries(*old(m))) ==> map_entries(*final(m)) == map_entries(
                *old(m),
            ).update(i, (key@, value)) && prev == Some(map_entries(*old(m))[i].1),
{
    m.insert(key, value)
}

/// Relies on indexmap::IndexMap::get: the stored value for the key, if an
/// entry with that key is present, else `None`.
#[verifier::external_body]
fn map_get<'a>(m: &'a indexmap::IndexMap<String, ChannelInfo>, key: &str) -> (r: Option<
    &'a ChannelInfo,
>)
    ensures
        match r {
            Some(v) => exists|i: int|
                0 <= i < map_entries(*m).len() && map_entries(*m)[i] == (key@, *v),
            None => !has_key(map_entries(*m), key@),
        },
{
    m.get(key)
}

/// Relies on indexmap::IndexMap::len: the number of entries.
#[verifier::external_body]
fn map_len(m: &indexmap::IndexMap<String, ChannelInfo>) -> (r: usize)
    ensures
        r == map_entries(*m).len(),
{
    m.len()
}

/// Relies on indexmap::IndexMap::get_index: the key-value pair at an index,
/// in insertion order.
#[verifier::external_body]
fn map_get_index<'a>(
    m: &'a indexmap::IndexMap<String, ChannelInfo>,
    index: usize,
) -> (r: Option<(&'a String, &'a ChannelInfo)>)
    ensures
        match r {
            Some(p) => index < map_entries(*m).len() && p.0@ == map_entries(*m)[index as int].0
                && *p.1 == map_entries(*m)[index as int].1,
            None => index >= map_entries(*m).len(),
        },
{
    m.get_index(index)
}

/// The entries after inserting `(k, v)`: an existing key keeps its place
/// and takes the new value, a new key goes last.
pub open spec fn inserted(
    es: Seq<(Seq<char>, ChannelInfo)>,
    k: Seq<char>,
    v: ChannelInfo,
) -> Seq<(Seq<char>, ChannelInfo)> {
    if has_key(es, k) {
        es.update(index_of_key(es, k), (k, v))
    } else {
        es.push((k, v))
    }
}

/// The process-wide catalog of live channels: an insertion-ordered map
/// from channel id to its display name and stream URL.
#[derive(Debug)]
pub struct ChannelCatalog {
    map: indexmap::IndexMap<String, ChannelInfo>,
}

impl View for ChannelCatalog {
    type V = Seq<(Seq<char>, ChannelInfo)>;

    closed spec fn view(&self) -> Seq<(Seq<char>, ChannelInfo)> {
        map_entries(self.map)
    }
}

impl ChannelCatalog {
    /// No two entries of a catalog share a channel id.
    pub open spec fn well_formed(&self) -> bool {
        distinct_keys(self@)
    }

    /// An empty catalog.
    pub fn new() -> (r: ChannelCatalog)
        ensures
            r@ == Seq::<(Seq<char>, ChannelInfo)>::empty(),
            r.well_formed(),
    {
        ChannelCatalog { map: map_new() }
    }

    /// Inserts one channel, per [`inserted`]: a repeated id keeps its
    /// place in the order and takes the new metadata.
    pub fn insert(&mut self, id: &ChannelId, info: ChannelInfo)
        requires
            old(self).well_formed(),
        ensures
            final(self)@ == inserted(old(self)@, id@, info),
            final(self).well_formed(),
    {
        let ghost es = self@;
        let key = String::from_str(id.as_ref());
        let _ = map_insert(&mut self.map, key, info);
        proof {
            if has_key(es, id@) {
                let i = index_of_key(es, id@);
                assert(0 <= i < es.len() && es[i].0 == id@);
                assert(self@ == es.update(i, (id@, info)));
                assert forall|p: int, q: int| 0 <= p < q < self@.len() implies self@[p].0
                    != self@[q].0 by {
                    assert(es[p].0 != es[q].0);
                }
            } else {
                assert(self@ == es.push((id@, info)));
                assert forall|p: int, q: int| 0 <= p < q < self@.len() implies self@[p].0
                    != self@[q].0 by {
                    if q < es.len() {
                        assert(es[p].0 != es[q].0);
                    } else {
                        assert(self@[q].0 == id@);
                        assert(!has_key(es, id@));
                        assert(es[p].0 != id@);
                    }
                }
            }
        }
    }

    /// The catalog built from a list of channels in document order, one
    /// [`ChannelCatalog::insert`] per entry.
    pub fn from_entries(entries: &Vec<(ChannelId, ChannelInfo)>) -> (r: ChannelCatalog)
        ensures
            r@ == built(entries@),
            r.well_formed(),
    {
        let mut catalog = ChannelCatalog::new();
        let n = entries.len();
        let mut i: usize = 0;
        while i < n
            invariant
                i <= n,
                n == entries@.len(),
                catalog@ == built(entries@.take(i as int)),
                catalog.well_formed(),
            decreases n - i,
        {
            proof {
                assert(entries@.take(i + 1).drop_last() =~= entries@.take(i as int));
                assert(entries@.take(i + 1).last() == entries@[i as int]);
            }
            let (id, info) = &entries[i];
            catalog.insert(id, info.clone());
            i += 1;
        }
        proof {
            assert(entries@.take(n as int) =~= entries@);
        }
        catalog
    }

    /// The metadata of the channel with the given id, if the catalog
    /// knows it.
    pub fn get(&self, id: &ChannelId) -> (r: Option<&ChannelInfo>)
        requires
            self.well_formed(),
        ensures
            has_key(self@, id@) ==> (r matches Some(v) && *v == self@[index_of_key(
                self@,
                id@,
            )].1),
            !has_key(self@, id@) ==> r is None,
    {
        let r = map_get(&self.map, id.as_ref());
        proof {
            if let Some(v) = r {
                let i = choose|i: int|
                    0 <= i < self@.len() && self@[i] == (id@, *v);
                assert(self@[i].0 == id@);
                let j = index_of_key(self@, id@);
                assert(0 <= j < self@.len() && self@[j].0 == id@);
                assert(i == j);
            }
        }
        r
    }

    /// How many channels the catalog holds.
    pub fn len(&self) -> (r: usize)
        ensures
            r == self@.len(),
    {
        map_len(&self.map)
    }

    /// The channel at an index, in insertion order, as an owned pair.
    pub fn entry_at(&self, index: usize) -> (r: Option<(ChannelId, ChannelInfo)>)
        ensures
            index < self@.len() ==> (r matches Some((id, info)) && id@ == self@[index as int].0
                && info == self@[index as int].1),
            index >= self@.len() ==> r is None,
    {
        match map_get_index(&self.map, index) {
            Some((k, v)) => Some((ChannelId::new(k.clone()), v.clone())),
            None => None,
        }
    }
}

/// The entries of a catalog built by inserting a list of channels in
/// order.
pub open spec fn built(entries: Seq<(ChannelId, ChannelInfo)>) -> Seq<(Seq<char>, ChannelInfo)>
    decreases entries.len(),
{
    if entries.len() == 0 {
        Seq::empty()
    } else {
        inserted(built(entries.drop_last()), entries.last().0@, entries.last().1)
    }
}

} // verus!
