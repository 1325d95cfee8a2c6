//! The map from device identifier to device, and the list that owns it.
//!
//! The map keeps its devices in the order of first sighting, which is also
//! the order in which it is walked. No identifier occurs twice in it, and no
//! entry is ever removed.

use crate::device::{Device, DeviceInfo};
use crate::events::{Error, TransportError};
use vstd::prelude::*;

verus! {

/// No two entries share an identifier.
pub open spec fn distinct_ids(entries: Seq<DeviceInfo>) -> bool {
    forall|i: int, j: int|
        0 <= i < j < entries.len() ==> (#[trigger] entries[i]).id != (#[trigger] entries[j]).id
}

/// Some entry has the identifier `id`.
pub open spec fn knows(entries: Seq<DeviceInfo>, id: u64) -> bool {
    exists|i: int| 0 <= i < entries.len() && (#[trigger] entries[i]).id == id
}

/// The place of an entry with the identifier `id`, where there is one.
pub open spec fn index_of(entries: Seq<DeviceInfo>, id: u64) -> int {
    choose|i: int| 0 <= i < entries.len() && (#[trigger] entries[i]).id == id
}

/// The entries after a sighting of `info`: a known device is updated where it
/// stands, a new one is added at the end.
pub open spec fn recorded(entries: Seq<DeviceInfo>, info: DeviceInfo) -> Seq<DeviceInfo> {
    if knows(entries, info.id) {
        entries.update(index_of(entries, info.id), info)
    } else {
        entries.push(info)
    }
}

/// The entries after the sightings `items`, taken in order.
pub open spec fn recorded_all(entries: Seq<DeviceInfo>, items: Seq<DeviceInfo>) -> Seq<DeviceInfo>
    decreases items.len(),
{
    if items.len() == 0 {
        entries
    } else {
        recorded(recorded_all(entries, items.drop_last()), items.last())
    }
}

/// A sighting keeps the identifiers distinct.
pub proof fn lemma_recorded_distinct(entries: Seq<DeviceInfo>, info: DeviceInfo)
    requires
        distinct_ids(entries),
    ensures
        distinct_ids(recorded(entries, info)),
        knows(recorded(entries, info), info.id),
{
    let after = recorded(entries, info);
    if knows(entries, info.id) {
        let k = index_of(entries, info.id);
        assert(after[k].id == info.id);
    } else {
        assert(after[entries.len() as int].id == info.id);
    }
}

/// Devices by identifier, in the order of first sighting.
#[derive(Clone, Debug)]
pub struct DeviceMap {
    devices: Vec<Device>,
}

impl View for DeviceMap {
    type V = Seq<DeviceInfo>;

    closed spec fn view(&self) -> Seq<DeviceInfo> {
        self.devices@.map_values(|d: Device| d@)
    }
}

impl DeviceMap {
    /// The map's invariant: its identifiers are distinct.
    pub open spec fn wf(&self) -> bool {
        distinct_ids(self@)
    }

    pub fn new() -> (map: DeviceMap)
        ensures
            map.wf(),
            map@ == Seq::<DeviceInfo>::empty(),
    {
        let map = DeviceMap { devices: Vec::new() };
        assert(map@ =~= Seq::<DeviceInfo>::empty());
        map
    }

    pub fn len(&self) -> (n: usize)
        ensures
            n == self@.len(),
    {
        self.devices.len()
    }

    /// Where the device `id` stands, if the map knows it.
    pub fn position(&self, id: u64) -> (place: Option<usize>)
        requires
            self.wf(),
        ensures
            place is Some <==> knows(self@, id),
            place is Some ==> place->0 as int == index_of(self@, id),
    {
        let mut i: usize = 0;
        while i < self.devices.len()
            invariant
                i <= self.devices.len(),
                self.wf(),
                forall|j: int| 0 <= j < i ==> (#[trigger] self@[j]).id != id,
            decreases self.devices.len() - i,
        {
            if self.devices[i].id() == id {
                proof {
                    let k = index_of(self@, id);
                    assert(self@[i as int].id == id);
                    assert(self@[k].id == id);
                    assert(k == i);
                }
                return Some(i);
            }
            i += 1;
        }
        None
    }

    /// The device `id`, if the map knows it.
    pub fn get(&self, id: u64) -> (device: Option<&Device>)
        requires
            self.wf(),
        ensures
            device is Some <==> knows(self@, id),
            device is Some ==> device->0@ == self@[index_of(self@, id)],
    {
        match self.position(id) {
            Some(i) => Some(&self.devices[i]),
            None => None,
        }
    }

    /// Records a sighting: updates the device where the map knows it, adds it
    /// at the end where it does not.
    pub fn record(&mut self, info: DeviceInfo)
        requires
            old(self).wf(),
        ensures
            final(self).wf(),
            final(self)@ == recorded(old(self)@, info),
    {
        proof {
            lemma_recorded_distinct(self@, info);
        }
        match self.position(info.id) {
            Some(i) => {
                let mut device = self.devices[i];
                device.apply_update(Some(info.local_status), Some(info.remote_status));
                self.devices.set(i, device);
                assert(self@ =~= recorded(old(self)@, info));
            },
            None => {
                self.devices.push(
                    Device::new(info.id, info.local_status, info.remote_status),
                );
                assert(self@ =~= recorded(old(self)@, info));
            },
        }
    }

    /// Records each sighting of `items`, in order.
    pub fn record_all(&mut self, items: &Vec<DeviceInfo>)
        requires
            old(self).wf(),
        ensures
            final(self).wf(),
            final(self)@ == recorded_all(old(self)@, items@),
    {
        let mut i: usize = 0;
        while i < items.len()
            invariant
                i <= items.len(),
                self.wf(),
                self@ == recorded_all(old(self)@, items@.take(i as int)),
            decreases items.len() - i,
        {
            self.record(items[i]);
            proof {
                assert(items@.take(i + 1).drop_last() =~= items@.take(i as int));
            }
            i += 1;
        }
        assert(items@.take(i as int) =~= items@);
    }

    /// A snapshot of every device, in the map's order.
    pub fn snapshot(&self) -> (infos: Vec<DeviceInfo>)
        ensures
            infos@ == self@,
    {
        let mut infos: Vec<DeviceInfo> = Vec::new();
        let mut i: usize = 0;
        while i < self.devices.len()
            invariant
                i <= self.devices.len(),
                infos@ == self@.take(i as int),
            decreases self.devices.len() - i,
        {
            infos.push(DeviceInfo::from_device(&self.devices[i]));
            assert(infos@ =~= self@.take(i + 1));
            i += 1;
        }
        assert(self@.take(i as int) =~= self@);
        infos
    }
}

/// The devices that a process knows. It owns exactly one map.
#[derive(Clone, Debug)]
pub struct DeviceList {
    devices: DeviceMap,
}

impl View for DeviceList {
    type V = Seq<DeviceInfo>;

    closed spec fn view(&self) -> Seq<DeviceInfo> {
        self.devices@
    }
}

impl DeviceList {
    pub open spec fn wf(&self) -> bool {
        distinct_ids(self@)
    }

    /// Builds the list from what the transport enumerated. It fails exactly
    /// when the transport did, and otherwise holds every reachable device.
    pub fn init(reachable: Result<Vec<DeviceInfo>, TransportError>) -> (built: Result<
        DeviceList,
        Error,
    >)
        ensures
            match reachable {
                Ok(found) => built is Ok && built->Ok_0.wf() && built->Ok_0@ == recorded_all(
                    Seq::empty(),
                    found@,
                ),
                Err(_) => built == Err::<DeviceList, Error>(Error::TransportUnavailable),
            },
    {
        match reachable {
            Ok(found) => {
                let mut devices = DeviceMap::new();
                devices.record_all(&found);
                Ok(DeviceList { devices })
            },
            Err(_) => Err(Error::TransportUnavailable),
        }
    }

    /// The map, for reading.
    pub fn get_device_map(&self) -> (map: &DeviceMap)
        ensures
            map@ == self@,
    {
        &self.devices
    }

    /// Records one scan update in the map.
    pub fn record(&mut self, info: DeviceInfo)
        requires
            old(self).wf(),
        ensures
            final(self).wf(),
            final(self)@ == recorded(old(self)@, info),
    {
        self.devices.record(info);
    }
}

} // verus!
