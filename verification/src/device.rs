//! One tracked device and the snapshot that is emitted for it.

use vstd::prelude::*;

verus! {

/// Status of a device as the host observes it.
#[derive(Clone, Copy, Debug, PartialEq, Eq, Structural)]
pub struct LocalStatus {
    pub code: u8,
}

/// Status of a device as the device itself reports it.
#[derive(Clone, Copy, Debug, PartialEq, Eq, Structural)]
pub struct RemoteStatus {
    pub code: u8,
}

/// A point-in-time snapshot of one device: its identifier and both statuses.
/// It is what a sink receives, and it is the mathematical model of a `Device`.
#[derive(Clone, Copy, Debug, PartialEq, Eq, Structural)]
pub struct DeviceInfo {
    pub id: u64,
    pub local_status: LocalStatus,
    pub remote_status: RemoteStatus,
}

/// A device with its last known statuses. The identifier never changes.
#[derive(Clone, Copy, Debug)]
pub struct Device {
    id: u64,
    last_local_status: LocalStatus,
    last_remote_status: RemoteStatus,
}

/// The snapshot `info` after an update that carries `local` and `remote`:
/// a status that the update carries replaces the old one, the other stays.
pub open spec fn updated(
    info: DeviceInfo,
    local: Option<LocalStatus>,
    remote: Option<RemoteStatus>,
) -> DeviceInfo {
    DeviceInfo {
        id: info.id,
        local_status: match local {
            Some(l) => l,
            None => info.local_status,
        },
        remote_status: match remote {
            Some(r) => r,
            None => info.remote_status,
        },
    }
}

impl View for Device {
    type V = DeviceInfo;

    closed spec fn view(&self) -> DeviceInfo {
        DeviceInfo {
            id: self.id,
            local_status: self.last_local_status,
            remote_status: self.last_remote_status,
        }
    }
}

impl Device {
    /// A device as first sighted.
    pub fn new(id: u64, local: LocalStatus, remote: RemoteStatus) -> (device: Device)
        ensures
            device@ == (DeviceInfo { id, local_status: local, remote_status: remote }),
    {
        Device { id, last_local_status: local, last_remote_status: remote }
    }

    pub fn id(&self) -> (id: u64)
        ensures
            id == self@.id,
    {
        self.id
    }

    /// Both statuses, read together from one state of the device.
    pub fn get_last_statuses(&self) -> (statuses: (LocalStatus, RemoteStatus))
        ensures
            statuses == (self@.local_status, self@.remote_status),
    {
        (self.last_local_status, self.last_remote_status)
    }

    /// Stores the statuses that an update carries and keeps the others.
    pub fn apply_update(&mut self, local: Option<LocalStatus>, remote: Option<RemoteStatus>)
        ensures
            final(self)@ == updated(old(self)@, local, remote),
    {
        if let Some(l) = local {
            self.last_local_status = l;
        }
        if let Some(r) = remote {
            self.last_remote_status = r;
        }
    }
}

impl DeviceInfo {
    /// The snapshot of `device` with the given statuses.
    pub fn from_device_statuses(device: &Device, local: LocalStatus, remote: RemoteStatus) -> (info:
        DeviceInfo)
        ensures
            info == (DeviceInfo { id: device@.id, local_status: local, remote_status: remote }),
    {
        DeviceInfo { id: device.id(), local_status: local, remote_status: remote }
    }

    /// The snapshot of `device` as it is now.
    pub fn from_device(device: &Device) -> (info: DeviceInfo)
        ensures
            info == device@,
    {
        let (local, remote) = device.get_last_statuses();
        DeviceInfo::from_device_statuses(device, local, remote)
    }
}

impl From<&Device> for DeviceInfo {
    /// The snapshot of `device` as it is now.
    fn from(device: &Device) -> (info: DeviceInfo) {
        DeviceInfo::from_device(device)
    }
}

impl vstd::std_specs::convert::FromSpecImpl<&Device> for DeviceInfo {
    open spec fn obeys_from_spec() -> bool {
        true
    }

    open spec fn from_spec(device: &Device) -> DeviceInfo {
        device@
    }
}

} // verus!
