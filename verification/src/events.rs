//! What a discovery session emits, and how it can fail.

use crate::device::DeviceInfo;
use vstd::prelude::*;

verus! {

/// How a discovery ends when it does not succeed.
#[derive(Clone, Copy, Debug, PartialEq, Eq, Structural)]
pub enum Error {
    /// No adapter or transport was usable when the devices were enumerated.
    TransportUnavailable,
    /// Another session filled the registry while this one was initializing.
    DuplicateInit,
}

/// The transport's own failure to enumerate devices.
#[derive(Clone, Copy, Debug, PartialEq, Eq, Structural)]
pub enum TransportError {
    NoAdapter,
}

/// Human-readable progress text.
#[derive(Clone, Debug, PartialEq, Eq)]
pub struct StatusPayload {
    pub message: String,
}

/// One event for the sink.
#[derive(Clone, Debug, PartialEq, Eq)]
pub enum Emitted {
    Status(StatusPayload),
    Device(DeviceInfo),
}

/// The model of an emitted event: a text or a device snapshot.
pub enum Signal {
    Status(Seq<char>),
    Device(DeviceInfo),
}

pub open spec fn no_adapter_text() -> Seq<char> {
    "No bluetooth adapter available!"@
}

pub open spec fn scanning_text() -> Seq<char> {
    "Scanning for lighthouses..."@
}

pub open spec fn done_text() -> Seq<char> {
    "Done scanning for devices!"@
}

pub open spec fn duplicate_text() -> Seq<char> {
    "Aborting potential duplicate scan!"@
}

impl View for StatusPayload {
    type V = Seq<char>;

    open spec fn view(&self) -> Seq<char> {
        self.message@
    }
}

impl View for Emitted {
    type V = Signal;

    open spec fn view(&self) -> Signal {
        match *self {
            Emitted::Status(payload) => Signal::Status(payload@),
            Emitted::Device(info) => Signal::Device(info),
        }
    }
}

/// The model of a run of emitted events, in order.
pub open spec fn trace(events: Seq<Emitted>) -> Seq<Signal> {
    events.map_values(|e: Emitted| e@)
}

/// One snapshot event for each entry, in the entries' order.
pub open spec fn snapshots(entries: Seq<DeviceInfo>) -> Seq<Signal> {
    entries.map_values(|info: DeviceInfo| Signal::Device(info))
}

impl StatusPayload {
    pub fn new(message: &str) -> (payload: StatusPayload)
        ensures
            payload@ == message@,
    {
        StatusPayload { message: message.to_owned() }
    }

    pub fn no_adapter() -> (payload: StatusPayload)
        ensures
            payload@ == no_adapter_text(),
    {
        StatusPayload::new("No bluetooth adapter available!")
    }

    pub fn scanning() -> (payload: StatusPayload)
        ensures
            payload@ == scanning_text(),
    {
        StatusPayload::new("Scanning for lighthouses...")
    }

    pub fn done() -> (payload: StatusPayload)
        ensures
            payload@ == done_text(),
    {
        StatusPayload::new("Done scanning for devices!")
    }
}

impl Error {
    /// The text that goes with the error.
    pub fn message(&self) -> (text: String)
        ensures
            text@ == match *self {
                Error::TransportUnavailable => no_adapter_text(),
                Error::DuplicateInit => duplicate_text(),
            },
    {
        match self {
            Error::TransportUnavailable => "No bluetooth adapter available!".to_owned(),
            Error::DuplicateInit => "Aborting potential duplicate scan!".to_owned(),
        }
    }
}

} // verus!
