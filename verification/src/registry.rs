//! The registry: empty at first, filled at most once, never emptied again.

use crate::device::DeviceInfo;
use crate::device_list::{distinct_ids, recorded, DeviceList};
use crate::events::Error;
use vstd::prelude::*;

verus! {

/// Holds the device list once there is one.
#[derive(Clone, Debug)]
pub struct DeviceRegistry {
    devices: Option<DeviceList>,
}

impl View for DeviceRegistry {
    type V = Option<Seq<DeviceInfo>>;

    closed spec fn view(&self) -> Option<Seq<DeviceInfo>> {
        match self.devices {
            Some(list) => Some(list@),
            None => None,
        }
    }
}

/// The registry after an attempt to commit a list with the entries `built`:
/// an empty registry takes it, a filled one stays as it is.
pub open spec fn committed(registry: Option<Seq<DeviceInfo>>, built: Seq<DeviceInfo>) -> Option<
    Seq<DeviceInfo>,
> {
    match registry {
        Some(entries) => Some(entries),
        None => Some(built),
    }
}

/// The registry after a sighting of `info`: a filled one records it, an empty
/// one has nowhere to record it.
pub open spec fn sighted(registry: Option<Seq<DeviceInfo>>, info: DeviceInfo) -> Option<
    Seq<DeviceInfo>,
> {
    match registry {
        Some(entries) => Some(recorded(entries, info)),
        None => None,
    }
}

impl DeviceRegistry {
    /// The registry's invariant: the list it holds is well formed.
    pub open spec fn wf(&self) -> bool {
        self@ is Some ==> distinct_ids(self@->0)
    }

    /// The empty registry.
    pub fn new() -> (registry: DeviceRegistry)
        ensures
            registry.wf(),
            registry@ is None,
    {
        DeviceRegistry { devices: None }
    }

    /// The list, if the registry has been filled. It never waits.
    pub fn get(&self) -> (list: Option<&DeviceList>)
        ensures
            match list {
                Some(l) => self@ == Some(l@),
                None => self@ is None,
            },
    {
        self.devices.as_ref()
    }

    pub fn is_initialized(&self) -> (filled: bool)
        ensures
            filled == (self@ is Some),
    {
        self.devices.is_some()
    }

    /// Commits `built` if the registry is still empty. If it has been filled
    /// in the meantime, `built` is discarded, the registry is left as it is,
    /// and the call fails with `DuplicateInit`.
    pub fn initialize_once(&mut self, built: DeviceList) -> (committed: Result<(), Error>)
        requires
            old(self).wf(),
            built.wf(),
        ensures
            final(self).wf(),
            final(self)@ == self::committed(old(self)@, built@),
            committed == if old(self)@ is None {
                Ok::<(), Error>(())
            } else {
                Err::<(), Error>(Error::DuplicateInit)
            },
    {
        if self.devices.is_some() {
            return Err(Error::DuplicateInit);
        }
        self.devices = Some(built);
        Ok(())
    }

    /// Records one scan update in the list, if there is one, and says
    /// whether there was.
    pub fn record(&mut self, info: DeviceInfo) -> (stored: bool)
        requires
            old(self).wf(),
        ensures
            final(self).wf(),
            final(self)@ == sighted(old(self)@, info),
            stored == (old(self)@ is Some),
    {
        match &mut self.devices {
            Some(list) => {
                list.record(info);
                true
            },
            None => false,
        }
    }
}

} // verus!
