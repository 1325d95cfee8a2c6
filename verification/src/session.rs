//! One discovery session as a state machine, and a whole discovery on the
//! outcomes of a transport.
//!
//! A session never waits. Each transition takes what the outside work
//! produced, changes the session and the registry, and returns the events to
//! deliver, in order, with the outside work to do next.

use crate::device::DeviceInfo;
use crate::device_list::{recorded_all, DeviceList};
use crate::events::{
    done_text, no_adapter_text, scanning_text, snapshots, trace, Emitted, Error, Signal,
    StatusPayload, TransportError,
};
use crate::registry::{committed, sighted, DeviceRegistry};
use vstd::prelude::*;

verus! {

/// Where a session stands.
#[derive(Clone, Copy, Debug, PartialEq, Eq, Structural)]
pub enum SessionState {
    /// Nothing has happened yet.
    Uninitialized,
    /// The registry was empty; the transport is enumerating devices.
    Initializing,
    /// Another session filled the registry first. Terminal.
    DuplicateAborted,
    /// The transport could not enumerate devices. Terminal.
    TransportFailed,
    /// The registry is filled; the scan has not been announced yet.
    Ready,
    /// The scan runs; its items are awaited one by one.
    Scanning,
    /// The scan's stream has closed. Terminal.
    Done,
}

/// The outside work that a transition asks for.
#[derive(Clone, Copy, Debug, PartialEq, Eq, Structural)]
pub enum Action {
    /// Enumerate the reachable devices, then call `init_finished`.
    Initialize,
    /// Nothing to wait for: call `begin_scan`.
    Proceed,
    /// Start a scan of this many seconds, then hand each item to `received`.
    StartScan(u64),
    /// Await the next item of the scan and hand it to `received`.
    Receive,
    /// The discovery has succeeded.
    Succeed,
    /// The discovery has failed with this error.
    Fail(Error),
}

/// What a transition returns: the events to deliver, in order, and the work
/// to do after delivering them.
#[derive(Clone, Debug)]
pub struct Step {
    pub emitted: Vec<Emitted>,
    pub action: Action,
}

/// What a whole discovery returns: every event, in order, and how it ended.
#[derive(Debug)]
pub struct Report {
    pub emitted: Vec<Emitted>,
    pub result: Result<(), Error>,
}

/// A transition over plain values: the state and the registry after it, the
/// events it emits and the work it asks for.
pub struct Transition {
    pub state: SessionState,
    pub registry: Option<Seq<DeviceInfo>>,
    pub emitted: Seq<Signal>,
    pub action: Action,
}

/// What the transport enumerated, or `None` where it was unavailable.
pub open spec fn enumerated(reachable: Result<Vec<DeviceInfo>, TransportError>) -> Option<
    Seq<DeviceInfo>,
> {
    match reachable {
        Ok(found) => Some(found@),
        Err(_) => None,
    }
}

/// The first transition. On an empty registry the session initializes; on a
/// filled one it is ready at once and emits a snapshot of each device.
pub open spec fn on_start(registry: Option<Seq<DeviceInfo>>) -> Transition {
    match registry {
        None => Transition {
            state: SessionState::Initializing,
            registry,
            emitted: Seq::empty(),
            action: Action::Initialize,
        },
        Some(entries) => Transition {
            state: SessionState::Ready,
            registry,
            emitted: snapshots(entries),
            action: Action::Proceed,
        },
    }
}

/// The transition at the end of the enumeration. A failed enumeration is
/// announced and ends the session. A successful one is committed if the
/// registry is still empty; if it is not, the session ends in silence.
pub open spec fn on_init_finished(
    registry: Option<Seq<DeviceInfo>>,
    reachable: Option<Seq<DeviceInfo>>,
) -> Transition {
    match reachable {
        None => Transition {
            state: SessionState::TransportFailed,
            registry,
            emitted: seq![Signal::Status(no_adapter_text())],
            action: Action::Fail(Error::TransportUnavailable),
        },
        Some(found) => if registry is Some {
            Transition {
                state: SessionState::DuplicateAborted,
                registry,
                emitted: Seq::empty(),
                action: Action::Fail(Error::DuplicateInit),
            }
        } else {
            Transition {
                state: SessionState::Ready,
                registry: committed(registry, recorded_all(Seq::empty(), found)),
                emitted: Seq::empty(),
                action: Action::Proceed,
            }
        },
    }
}

/// The transition on one item of the scan. An update is recorded and
/// forwarded as it came; the end of the stream is announced and ends the
/// session.
pub open spec fn on_received(registry: Option<Seq<DeviceInfo>>, item: Option<DeviceInfo>) ->
    Transition {
    match item {
        Some(info) => Transition {
            state: SessionState::Scanning,
            registry: sighted(registry, info),
            emitted: seq![Signal::Device(info)],
            action: Action::Receive,
        },
        None => Transition {
            state: SessionState::Done,
            registry,
            emitted: seq![Signal::Status(done_text())],
            action: Action::Succeed,
        },
    }
}

/// The events of a scan that yields `updates`: the announcement, each update
/// in the order of its arrival, and the closing text.
pub open spec fn scan_trace(updates: Seq<DeviceInfo>) -> Seq<Signal> {
    seq![Signal::Status(scanning_text())] + snapshots(updates) + seq![
        Signal::Status(done_text()),
    ]
}

/// Every event of a discovery, in order.
pub open spec fn discover_trace(
    registry: Option<Seq<DeviceInfo>>,
    reachable: Option<Seq<DeviceInfo>>,
    updates: Seq<DeviceInfo>,
) -> Seq<Signal> {
    match registry {
        Some(entries) => snapshots(entries) + scan_trace(updates),
        None => match reachable {
            Some(_) => scan_trace(updates),
            None => seq![Signal::Status(no_adapter_text())],
        },
    }
}

/// The registry after a discovery.
pub open spec fn discover_registry(
    registry: Option<Seq<DeviceInfo>>,
    reachable: Option<Seq<DeviceInfo>>,
    updates: Seq<DeviceInfo>,
) -> Option<Seq<DeviceInfo>> {
    match registry {
        Some(entries) => Some(recorded_all(entries, updates)),
        None => match reachable {
            Some(found) => Some(recorded_all(recorded_all(Seq::empty(), found), updates)),
            None => None,
        },
    }
}

/// How a discovery ends: it fails exactly when the registry is empty and the
/// transport is unavailable.
pub open spec fn discover_result(
    registry: Option<Seq<DeviceInfo>>,
    reachable: Option<Seq<DeviceInfo>>,
) -> Result<(), Error> {
    if registry is None && reachable is None {
        Err(Error::TransportUnavailable)
    } else {
        Ok(())
    }
}

/// The model of a run of events that is made of two runs.
pub proof fn lemma_trace_append(first: Seq<Emitted>, second: Seq<Emitted>)
    ensures
        trace(first + second) == trace(first) + trace(second),
{
    assert(trace(first + second) =~= trace(first) + trace(second));
}

/// One snapshot event for each of `infos`, in order.
pub fn snapshot_events(infos: &Vec<DeviceInfo>) -> (events: Vec<Emitted>)
    ensures
        trace(events@) == snapshots(infos@),
{
    let mut events: Vec<Emitted> = Vec::new();
    let mut i: usize = 0;
    while i < infos.len()
        invariant
            i <= infos.len(),
            events@.len() == i,
            forall|j: int| 0 <= j < i ==> (#[trigger] events@[j])@ == Signal::Device(infos@[j]),
        decreases infos.len() - i,
    {
        events.push(Emitted::Device(infos[i]));
        i += 1;
    }
    assert(trace(events@) =~= snapshots(infos@));
    events
}

/// One discovery session.
#[derive(Clone, Copy, Debug)]
pub struct ScanSession {
    state: SessionState,
    duration: u64,
}

impl ScanSession {
    pub closed spec fn spec_state(&self) -> SessionState {
        self.state
    }

    pub closed spec fn spec_duration(&self) -> u64 {
        self.duration
    }

    /// A session for a scan of `duration` seconds, before its first step.
    pub fn new(duration: u64) -> (session: ScanSession)
        ensures
            session.spec_state() == SessionState::Uninitialized,
            session.spec_duration() == duration,
    {
        ScanSession { state: SessionState::Uninitialized, duration }
    }

    pub fn state(&self) -> (state: SessionState)
        ensures
            state == self.spec_state(),
    {
        self.state
    }

    pub fn duration(&self) -> (duration: u64)
        ensures
            duration == self.spec_duration(),
    {
        self.duration
    }

    /// The first step of a session. Any other session is left as it is.
    pub fn start(&mut self, registry: &DeviceRegistry) -> (step: Option<Step>)
        ensures
            final(self).spec_duration() == old(self).spec_duration(),
            old(self).spec_state() != SessionState::Uninitialized ==> ({
                &&& step is None
                &&& final(self).spec_state() == old(self).spec_state()
            }),
            old(self).spec_state() == SessionState::Uninitialized ==> step is Some && ({
                let next = on_start(registry@);
                &&& final(self).spec_state() == next.state
                &&& trace(step->0.emitted@) == next.emitted
                &&& step->0.action == next.action
            }),
    {
        match self.state {
            SessionState::Uninitialized => {},
            _ => {
                return None;
            },
        }
        match registry.get() {
            None => {
                self.state = SessionState::Initializing;
                let emitted: Vec<Emitted> = Vec::new();
                assert(trace(emitted@) =~= Seq::<Signal>::empty());
                Some(Step { emitted, action: Action::Initialize })
            },
            Some(list) => {
                let infos = list.get_device_map().snapshot();
                let emitted = snapshot_events(&infos);
                self.state = SessionState::Ready;
                Some(Step { emitted, action: Action::Proceed })
            },
        }
    }

    /// The step at the end of the enumeration, for a session that is
    /// initializing. Any other session, and the registry, are left as they
    /// are.
    pub fn init_finished(
        &mut self,
        registry: &mut DeviceRegistry,
        reachable: Result<Vec<DeviceInfo>, TransportError>,
    ) -> (step: Option<Step>)
        requires
            old(registry).wf(),
        ensures
            final(registry).wf(),
            final(self).spec_duration() == old(self).spec_duration(),
            old(self).spec_state() != SessionState::Initializing ==> ({
                &&& step is None
                &&& final(self).spec_state() == old(self).spec_state()
                &&& final(registry)@ == old(registry)@
            }),
            old(self).spec_state() == SessionState::Initializing ==> step is Some && ({
                let next = on_init_finished(old(registry)@, enumerated(reachable));
                &&& final(self).spec_state() == next.state
                &&& final(registry)@ == next.registry
                &&& trace(step->0.emitted@) == next.emitted
                &&& step->0.action == next.action
            }),
    {
        match self.state {
            SessionState::Initializing => {},
            _ => {
                return None;
            },
        }
        match DeviceList::init(reachable) {
            Err(error) => {
                self.state = SessionState::TransportFailed;
                let mut emitted: Vec<Emitted> = Vec::new();
                emitted.push(Emitted::Status(StatusPayload::no_adapter()));
                assert(trace(emitted@) =~= seq![Signal::Status(no_adapter_text())]);
                Some(Step { emitted, action: Action::Fail(error) })
            },
            Ok(built) => {
                let emitted: Vec<Emitted> = Vec::new();
                assert(trace(emitted@) =~= Seq::<Signal>::empty());
                match registry.initialize_once(built) {
                    Err(error) => {
                        self.state = SessionState::DuplicateAborted;
                        Some(Step { emitted, action: Action::Fail(error) })
                    },
                    Ok(_) => {
                        self.state = SessionState::Ready;
                        Some(Step { emitted, action: Action::Proceed })
                    },
                }
            },
        }
    }

    /// The step that announces the scan, for a session that is ready. Any
    /// other session is left as it is.
    pub fn begin_scan(&mut self) -> (step: Option<Step>)
        ensures
            final(self).spec_duration() == old(self).spec_duration(),
            old(self).spec_state() != SessionState::Ready ==> ({
                &&& step is None
                &&& final(self).spec_state() == old(self).spec_state()
            }),
            old(self).spec_state() == SessionState::Ready ==> step is Some && ({
                &&& final(self).spec_state() == SessionState::Scanning
                &&& trace(step->0.emitted@) == seq![Signal::Status(scanning_text())]
                &&& step->0.action == Action::StartScan(old(self).spec_duration())
            }),
    {
        match self.state {
            SessionState::Ready => {},
            _ => {
                return None;
            },
        }
        self.state = SessionState::Scanning;
        let mut emitted: Vec<Emitted> = Vec::new();
        emitted.push(Emitted::Status(StatusPayload::scanning()));
        assert(trace(emitted@) =~= seq![Signal::Status(scanning_text())]);
        Some(Step { emitted, action: Action::StartScan(self.duration) })
    }

    /// The step on one item of the scan, for a session that is scanning:
    /// `None` is the end of the stream. Any other session, and the registry,
    /// are left as they are.
    pub fn received(&mut self, registry: &mut DeviceRegistry, item: Option<DeviceInfo>) -> (step:
        Option<Step>)
        requires
            old(registry).wf(),
        ensures
            final(registry).wf(),
            final(self).spec_duration() == old(self).spec_duration(),
            old(self).spec_state() != SessionState::Scanning ==> ({
                &&& step is None
                &&& final(self).spec_state() == old(self).spec_state()
                &&& final(registry)@ == old(registry)@
            }),
            old(self).spec_state() == SessionState::Scanning ==> step is Some && ({
                let next = on_received(old(registry)@, item);
                &&& final(self).spec_state() == next.state
                &&& final(registry)@ == next.registry
                &&& trace(step->0.emitted@) == next.emitted
                &&& step->0.action == next.action
            }),
    {
        match self.state {
            SessionState::Scanning => {},
            _ => {
                return None;
            },
        }
        let mut emitted: Vec<Emitted> = Vec::new();
        match item {
            Some(info) => {
                let _ = registry.record(info);
                emitted.push(Emitted::Device(info));
                assert(trace(emitted@) =~= seq![Signal::Device(info)]);
                Some(Step { emitted, action: Action::Receive })
            },
            None => {
                self.state = SessionState::Done;
                emitted.push(Emitted::Status(StatusPayload::done()));
                assert(trace(emitted@) =~= seq![Signal::Status(done_text())]);
                Some(Step { emitted, action: Action::Succeed })
            },
        }
    }
}

/// A whole discovery, on what the transport produced: `reachable` is the
/// outcome of its enumeration, which is looked at only where the registry is
/// empty, and `updates` are the items of its scan, in the order of arrival.
///
/// On a filled registry the discovery emits a snapshot of each known device
/// and then the scan. On an empty one it commits what was enumerated and
/// emits the scan, or, where the transport was unavailable, says so, leaves
/// the registry empty and fails.
pub fn discover(
    registry: &mut DeviceRegistry,
    duration: u64,
    reachable: Result<Vec<DeviceInfo>, TransportError>,
    updates: &Vec<DeviceInfo>,
) -> (report: Report)
    requires
        old(registry).wf(),
    ensures
        final(registry).wf(),
        final(registry)@ == discover_registry(old(registry)@, enumerated(reachable), updates@),
        trace(report.emitted@) == discover_trace(
            old(registry)@,
            enumerated(reachable),
            updates@,
        ),
        report.result == discover_result(old(registry)@, enumerated(reachable)),
{
    let mut session = ScanSession::new(duration);
    let mut emitted: Vec<Emitted> = Vec::new();
    let mut step = session.start(registry).unwrap();
    let ghost caught_up = trace(step.emitted@);
    proof {
        lemma_trace_append(emitted@, step.emitted@);
    }
    emitted.append(&mut step.emitted);
    match step.action {
        Action::Initialize => {
            let mut step = session.init_finished(registry, reachable).unwrap();
            proof {
                lemma_trace_append(emitted@, step.emitted@);
            }
            emitted.append(&mut step.emitted);
            match step.action {
                Action::Fail(error) => {
                    assert(trace(emitted@) =~= seq![Signal::Status(no_adapter_text())]);
                    return Report { emitted, result: Err(error) };
                },
                _ => {},
            }
        },
        _ => {},
    }
    let ghost base = registry@->0;
    let mut step = session.begin_scan().unwrap();
    proof {
        lemma_trace_append(emitted@, step.emitted@);
    }
    emitted.append(&mut step.emitted);
    let ghost head = caught_up + seq![Signal::Status(scanning_text())];
    assert(trace(emitted@) =~= head + snapshots(updates@.take(0)));
    let mut i: usize = 0;
    while i < updates.len()
        invariant
            i <= updates.len(),
            registry.wf(),
            session.spec_state() == SessionState::Scanning,
            registry@ == Some(recorded_all(base, updates@.take(i as int))),
            trace(emitted@) == head + snapshots(updates@.take(i as int)),
        decreases updates.len() - i,
    {
        let mut step = session.received(registry, Some(updates[i])).unwrap();
        proof {
            lemma_trace_append(emitted@, step.emitted@);
            assert(updates@.take(i + 1).drop_last() =~= updates@.take(i as int));
            assert(snapshots(updates@.take(i + 1)) =~= snapshots(updates@.take(i as int)) + seq![
                Signal::Device(updates@[i as int]),
            ]);
        }
        emitted.append(&mut step.emitted);
        i += 1;
    }
    assert(updates@.take(i as int) =~= updates@);
    let mut step = session.received(registry, None).unwrap();
    proof {
        lemma_trace_append(emitted@, step.emitted@);
    }
    emitted.append(&mut step.emitted);
    assert(trace(emitted@) =~= caught_up + scan_trace(updates@));
    Report { emitted, result: Ok(()) }
}

} // verus!
