//! The device cache: the devices of the account by identifier, kept current
//! by snapshots and by the event stream.

use crate::device::{last_written, lemma_merged_entry, merged, Device, DeviceModel};
use crate::event::{Decoded, Event, EventModel};
use crate::wire::devices_view;
use dashmap::DashMap;
use vstd::prelude::*;

verus! {

/// `dashmap::DashMap`. What a map of devices holds is named by [`cached`];
/// the functions below are the only ones that touch it, and those that
/// change it take it exclusively.
#[verifier::external_type_specification]
#[verifier::external_body]
#[verifier::reject_recursive_types(K)]
#[verifier::reject_recursive_types(V)]
#[verifier::reject_recursive_types(S)]
pub struct ExDashMap<K, V, S>(DashMap<K, V, S>);

/// What a map of devices holds: the devices by the characters of their
/// keys.
pub uninterp spec fn cached(store: DashMap<String, Device>) -> Map<Seq<char>, DeviceModel>;

/// A cache without devices.
pub open spec fn empty_cache() -> Map<Seq<char>, DeviceModel> {
    Map::empty()
}

/// `DashMap::new`: a map that holds nothing.
#[verifier::external_body]
fn map_new() -> (store: DashMap<String, Device>)
    ensures
        cached(store) == empty_cache(),
{
    DashMap::new()
}

/// `DashMap::insert`: afterwards the key holds the device, whether or not
/// it held one before, and every other key holds what it held.
#[verifier::external_body]
fn map_insert(store: &mut DashMap<String, Device>, key: String, device: Device)
    ensures
        cached(*final(store)) == cached(*old(store)).insert(key@, device@),
{
    store.insert(key, device);
}

/// `DashMap::get`, with a copy of the device found: the device under the
/// key, or `None` where the map has no such key.
#[verifier::external_body]
fn map_get(store: &DashMap<String, Device>, key: &str) -> (found: Option<Device>)
    ensures
        match found {
            Some(device) => cached(*store).contains_key(key@) && cached(*store)[key@] == device@,
            None => !cached(*store).contains_key(key@),
        },
{
    store.get(key).map(|entry| entry.value().clone())
}

/// `DashMap::iter`, with a copy of each key and device: every entry of the
/// map once, in an order that is left open.
#[verifier::external_body]
fn map_entries(store: &DashMap<String, Device>) -> (entries: Vec<(String, Device)>)
    ensures
        lists(cached(*store), entries@),
{
    store.iter().map(|entry| (entry.key().clone(), entry.value().clone())).collect()
}

/// The entries are those of the map, each once, in some order.
pub open spec fn lists(map: Map<Seq<char>, DeviceModel>, entries: Seq<(String, Device)>) -> bool {
    &&& forall|i: int|
        0 <= i < entries.len() ==> map.contains_key((#[trigger] entries[i]).0@) && map[entries[i].0@]
            == entries[i].1@
    &&& forall|i: int, j: int|
        0 <= i < j < entries.len() ==> (#[trigger] entries[i]).0@ != (#[trigger] entries[j]).0@
    &&& forall|key: Seq<char>| #[trigger]
        map.contains_key(key) ==> exists|i: int|
            0 <= i < entries.len() && (#[trigger] entries[i]).0@ == key
}

/// The devices are those of some entries that list the map: every device of
/// the map once, in some order.
pub open spec fn lists_devices(map: Map<Seq<char>, DeviceModel>, devices: Seq<Device>) -> bool {
    exists|entries: Seq<(String, Device)>|
        #![trigger lists(map, entries)]
        lists(map, entries) && entries.len() == devices.len() && forall|i: int|
            0 <= i < devices.len() ==> (#[trigger] devices[i])@ == entries[i].1@
}

/// The device after an event wrote to its attributes: the changes are
/// merged in their order, one name at a time; nothing else changes.
pub open spec fn updated(device: DeviceModel, changes: Seq<(Seq<char>, Seq<char>)>) -> DeviceModel {
    DeviceModel { attributes: merged(device.attributes, changes), ..device }
}

/// The cache after an event: the event's device with the changes merged
/// in. An event for a device that the cache does not hold is dropped.
pub open spec fn applied(cache: Map<Seq<char>, DeviceModel>, event: EventModel) -> Map<
    Seq<char>,
    DeviceModel,
> {
    match event {
        EventModel::DeviceAttributesChanged { device, attributes } => {
            if cache.contains_key(device) {
                cache.insert(device, updated(cache[device], attributes))
            } else {
                cache
            }
        },
    }
}

/// The cache after what a poll amounted to: only an event changes it.
pub open spec fn followed(cache: Map<Seq<char>, DeviceModel>, meaning: Decoded) -> Map<
    Seq<char>,
    DeviceModel,
> {
    match meaning {
        Decoded::Event(event) => applied(cache, event),
        _ => cache,
    }
}

/// The cache after a snapshot: each device under its identifier, a later
/// one over an earlier one of the same identifier.
pub open spec fn with_snapshot(cache: Map<Seq<char>, DeviceModel>, devices: Seq<DeviceModel>) -> Map<
    Seq<char>,
    DeviceModel,
>
    decreases devices.len(),
{
    if devices.len() == 0 {
        cache
    } else {
        with_snapshot(cache, devices.drop_last()).insert(devices.last().mac, devices.last())
    }
}

/// Every device is held under its own identifier.
pub open spec fn keyed_by_mac(cache: Map<Seq<char>, DeviceModel>) -> bool {
    forall|key: Seq<char>| #[trigger] cache.contains_key(key) ==> cache[key].mac == key
}

/// The devices of the account, by identifier.
#[derive(Debug)]
pub struct DeviceCache {
    devices: DashMap<String, Device>,
}

impl View for DeviceCache {
    type V = Map<Seq<char>, DeviceModel>;

    closed spec fn view(&self) -> Map<Seq<char>, DeviceModel> {
        cached(self.devices)
    }
}

impl DeviceCache {
    /// A cache that holds no device.
    pub fn new() -> (cache: DeviceCache)
        ensures
            cache@ == empty_cache(),
    {
        DeviceCache { devices: map_new() }
    }

    /// Puts a device under its identifier, over the one that was there.
    pub fn insert(&mut self, device: Device)
        ensures
            final(self)@ == old(self)@.insert(device@.mac, device@),
    {
        let key = device.mac.clone();
        map_insert(&mut self.devices, key, device);
    }

    /// Puts the devices of a snapshot under their identifiers, in order.
    pub fn insert_all(&mut self, devices: &[Device])
        ensures
            final(self)@ == with_snapshot(old(self)@, devices_view(devices@)),
    {
        let ghost all = devices_view(devices@);
        let mut i: usize = 0;
        while i < devices.len()
            invariant
                i <= devices@.len(),
                all == devices_view(devices@),
                self@ == with_snapshot(old(self)@, all.take(i as int)),
            decreases devices@.len() - i,
        {
            proof {
                assert(all.take(i + 1).drop_last() =~= all.take(i as int));
            }
            self.insert(devices[i].clone());
            i = i + 1;
        }
        assert(all.take(i as int) =~= all);
    }

    /// A copy of the device with the identifier `id`.
    pub fn get(&self, id: &str) -> (device: Option<Device>)
        ensures
            match device {
                Some(d) => self@.contains_key(id@) && self@[id@] == d@,
                None => !self@.contains_key(id@),
            },
    {
        map_get(&self.devices, id)
    }

    /// Copies of all devices, each once; the order is left open.
    pub fn devices(&self) -> (devices: Vec<Device>)
        ensures
            lists_devices(self@, devices@),
    {
        let mut entries = map_entries(&self.devices);
        let ghost listed = entries@;
        let mut devices: Vec<Device> = Vec::new();
        let mut i: usize = 0;
        while i < entries.len()
            invariant
                i <= entries@.len(),
                entries@ == listed,
                devices@.len() == i,
                forall|j: int| 0 <= j < i ==> (#[trigger] devices@[j])@ == listed[j].1@,
            decreases entries@.len() - i,
        {
            devices.push(entries[i].1.clone());
            i = i + 1;
        }
        assert(lists(self@, listed));
        devices
    }

    /// Follows an event: merges its changes into the device it names.
    pub fn apply(&mut self, event: &Event)
        ensures
            final(self)@ == applied(old(self)@, event@),
    {
        match event {
            Event::DeviceAttributesChanged { device, attributes } => {
                match map_get(&self.devices, device.as_str()) {
                    Some(found) => {
                        let mut found = found;
                        found.attributes.merge(attributes);
                        map_insert(&mut self.devices, device.clone(), found);
                    },
                    None => {},
                }
            },
        }
    }
}

/// An event changes the attributes of its device and nothing else: no
/// device comes or goes, every other device stays as it is, and the device
/// itself keeps its identifier, category and type.
pub proof fn lemma_event_touches_one_device(
    cache: Map<Seq<char>, DeviceModel>,
    event: EventModel,
    other: Seq<char>,
)
    ensures
        applied(cache, event).dom() == cache.dom(),
        other != event->device ==> applied(cache, event)[other] == cache[other],
        cache.contains_key(event->device) ==> applied(cache, event)[event->device] == updated(
            cache[event->device],
            event->attributes,
        ),
        keyed_by_mac(cache) ==> keyed_by_mac(applied(cache, event)),
{
    assert(applied(cache, event).dom() =~= cache.dom());
}

/// After an event each attribute of its device holds what the event wrote
/// to it last, and what it held before where the event did not write to it.
pub proof fn lemma_event_writes_last(
    cache: Map<Seq<char>, DeviceModel>,
    event: EventModel,
    name: Seq<char>,
)
    requires
        cache.contains_key(event->device),
    ensures
        ({
            let before = cache[event->device].attributes;
            let after = applied(cache, event)[event->device].attributes;
            let written = last_written(event->attributes, name);
            &&& after.contains_key(name) <==> written is Some || before.contains_key(name)
            &&& written matches Some(value) ==> after[name] == value
            &&& written is None ==> after[name] == before[name]
        }),
{
    lemma_merged_entry(cache[event->device].attributes, event->attributes, name);
}

/// A snapshot of devices leaves every device under its own identifier.
pub proof fn lemma_snapshot_is_keyed_by_mac(
    cache: Map<Seq<char>, DeviceModel>,
    devices: Seq<DeviceModel>,
)
    requires
        keyed_by_mac(cache),
    ensures
        keyed_by_mac(with_snapshot(cache, devices)),
    decreases devices.len(),
{
    if devices.len() > 0 {
        lemma_snapshot_is_keyed_by_mac(cache, devices.drop_last());
    }
}

} // verus!
