use vrlh_discovery::device::{Device, DeviceInfo, LocalStatus, RemoteStatus};
use vrlh_discovery::device_list::{DeviceList, DeviceMap};
use vrlh_discovery::events::{Emitted, Error, StatusPayload, TransportError};
use vrlh_discovery::registry::DeviceRegistry;
use vrlh_discovery::session::{discover, snapshot_events, Action, ScanSession, SessionState};

fn info(id: u64, local: u8, remote: u8) -> DeviceInfo {
    DeviceInfo {
        id,
        local_status: LocalStatus { code: local },
        remote_status: RemoteStatus { code: remote },
    }
}

fn status(text: &str) -> Emitted {
    Emitted::Status(StatusPayload { message: text.to_string() })
}

fn filled(found: Vec<DeviceInfo>) -> DeviceRegistry {
    let mut registry = DeviceRegistry::new();
    let list = DeviceList::init(Ok(found)).unwrap();
    assert_eq!(registry.initialize_once(list), Ok(()));
    registry
}

fn entries(registry: &DeviceRegistry) -> Vec<DeviceInfo> {
    registry.get().unwrap().get_device_map().snapshot()
}

#[test]
fn scenario_empty_registry_three_updates() {
    let mut registry = DeviceRegistry::new();
    let updates = vec![info(7, 1, 0), info(9, 2, 2), info(7, 3, 1)];
    let report = discover(&mut registry, 5, Ok(vec![]), &updates);
    assert_eq!(report.result, Ok(()));
    assert_eq!(
        report.emitted,
        vec![
            status("Scanning for lighthouses..."),
            Emitted::Device(info(7, 1, 0)),
            Emitted::Device(info(9, 2, 2)),
            Emitted::Device(info(7, 3, 1)),
            status("Done scanning for devices!"),
        ]
    );
    assert_eq!(entries(&registry), vec![info(7, 3, 1), info(9, 2, 2)]);
}

#[test]
fn scenario_init_fails() {
    let mut registry = DeviceRegistry::new();
    let updates = vec![info(1, 1, 1)];
    let report = discover(&mut registry, 5, Err(TransportError::NoAdapter), &updates);
    assert_eq!(report.result, Err(Error::TransportUnavailable));
    assert_eq!(report.emitted, vec![status("No bluetooth adapter available!")]);
    assert!(!registry.is_initialized());
    assert!(registry.get().is_none());
}

#[test]
fn scenario_registry_has_two_devices() {
    let mut registry = filled(vec![info(1, 10, 11), info(2, 20, 21)]);
    let updates = vec![info(2, 5, 5), info(3, 6, 6), info(1, 7, 7)];
    let report = discover(&mut registry, 5, Ok(vec![info(99, 0, 0)]), &updates);
    assert_eq!(report.result, Ok(()));
    assert_eq!(
        report.emitted,
        vec![
            Emitted::Device(info(1, 10, 11)),
            Emitted::Device(info(2, 20, 21)),
            status("Scanning for lighthouses..."),
            Emitted::Device(info(2, 5, 5)),
            Emitted::Device(info(3, 6, 6)),
            Emitted::Device(info(1, 7, 7)),
            status("Done scanning for devices!"),
        ]
    );
    assert_eq!(entries(&registry), vec![info(1, 7, 7), info(2, 5, 5), info(3, 6, 6)]);
}

#[test]
fn discover_commits_what_was_enumerated() {
    let mut registry = DeviceRegistry::new();
    let report = discover(&mut registry, 1, Ok(vec![info(4, 1, 1), info(5, 2, 2), info(4, 3, 3)]), &vec![]);
    assert_eq!(report.result, Ok(()));
    assert_eq!(
        report.emitted,
        vec![status("Scanning for lighthouses..."), status("Done scanning for devices!")]
    );
    assert_eq!(entries(&registry), vec![info(4, 3, 3), info(5, 2, 2)]);
}

#[test]
fn second_discover_reuses_the_list() {
    let mut registry = DeviceRegistry::new();
    let first = discover(&mut registry, 5, Ok(vec![info(1, 1, 1)]), &vec![info(2, 2, 2)]);
    assert_eq!(first.result, Ok(()));
    let before = entries(&registry);
    assert_eq!(before, vec![info(1, 1, 1), info(2, 2, 2)]);
    // The second discovery never looks at its enumeration, not even a failed one.
    let second = discover(&mut registry, 5, Err(TransportError::NoAdapter), &vec![]);
    assert_eq!(second.result, Ok(()));
    assert_eq!(
        second.emitted,
        vec![
            Emitted::Device(info(1, 1, 1)),
            Emitted::Device(info(2, 2, 2)),
            status("Scanning for lighthouses..."),
            status("Done scanning for devices!"),
        ]
    );
    assert_eq!(entries(&registry), before);
    let third = discover(&mut registry, 5, Ok(vec![info(50, 0, 0)]), &vec![]);
    assert_eq!(third.result, Ok(()));
    assert_eq!(entries(&registry), before);
}

#[test]
fn catch_up_emits_one_snapshot_per_device() {
    let found: Vec<DeviceInfo> = (0..6u64).map(|i| info(100 + i, i as u8, 9)).collect();
    let mut registry = filled(found.clone());
    let report = discover(&mut registry, 3, Ok(vec![]), &vec![info(1, 1, 1)]);
    let at = report
        .emitted
        .iter()
        .position(|e| *e == status("Scanning for lighthouses..."))
        .unwrap();
    assert_eq!(at, 6);
    for i in 0..6 {
        assert_eq!(report.emitted[i], Emitted::Device(found[i]));
    }
    assert_eq!(report.emitted.len(), 6 + 1 + 1 + 1);
}

#[test]
fn scan_events_keep_the_order_of_arrival() {
    let mut registry = filled(vec![info(1, 0, 0)]);
    let updates = vec![info(3, 1, 1), info(2, 1, 1), info(3, 2, 2), info(1, 4, 4), info(2, 0, 0)];
    let report = discover(&mut registry, 8, Ok(vec![]), &updates);
    let live: Vec<Emitted> = report.emitted[2..7].to_vec();
    let expected: Vec<Emitted> = updates.iter().map(|u| Emitted::Device(*u)).collect();
    assert_eq!(live, expected);
    assert_eq!(report.emitted[1], status("Scanning for lighthouses..."));
    assert_eq!(report.emitted[7], status("Done scanning for devices!"));
    assert_eq!(report.emitted.len(), 8);
}

#[test]
fn session_walks_the_states_on_an_empty_registry() {
    let mut registry = DeviceRegistry::new();
    let mut session = ScanSession::new(5);
    assert_eq!(session.state(), SessionState::Uninitialized);
    assert_eq!(session.duration(), 5);

    let step = session.start(&registry).unwrap();
    assert_eq!(session.state(), SessionState::Initializing);
    assert_eq!(step.action, Action::Initialize);
    assert!(step.emitted.is_empty());

    let step = session.init_finished(&mut registry, Ok(vec![])).unwrap();
    assert_eq!(session.state(), SessionState::Ready);
    assert_eq!(step.action, Action::Proceed);
    assert!(step.emitted.is_empty());
    assert!(registry.is_initialized());

    let step = session.begin_scan().unwrap();
    assert_eq!(session.state(), SessionState::Scanning);
    assert_eq!(step.action, Action::StartScan(5));
    assert_eq!(step.emitted, vec![status("Scanning for lighthouses...")]);

    let step = session.received(&mut registry, Some(info(8, 1, 2))).unwrap();
    assert_eq!(session.state(), SessionState::Scanning);
    assert_eq!(step.action, Action::Receive);
    assert_eq!(step.emitted, vec![Emitted::Device(info(8, 1, 2))]);
    assert_eq!(entries(&registry), vec![info(8, 1, 2)]);

    let step = session.received(&mut registry, None).unwrap();
    assert_eq!(session.state(), SessionState::Done);
    assert_eq!(step.action, Action::Succeed);
    assert_eq!(step.emitted, vec![status("Done scanning for devices!")]);
    assert_eq!(entries(&registry), vec![info(8, 1, 2)]);
}

#[test]
fn session_on_a_filled_registry_is_ready_at_once() {
    let registry = filled(vec![info(1, 1, 1), info(2, 2, 2)]);
    let mut session = ScanSession::new(2);
    let step = session.start(&registry).unwrap();
    assert_eq!(session.state(), SessionState::Ready);
    assert_eq!(step.action, Action::Proceed);
    assert_eq!(
        step.emitted,
        vec![Emitted::Device(info(1, 1, 1)), Emitted::Device(info(2, 2, 2))]
    );
}

#[test]
fn session_transport_failure() {
    let mut registry = DeviceRegistry::new();
    let mut session = ScanSession::new(5);
    session.start(&registry).unwrap();
    let step = session
        .init_finished(&mut registry, Err(TransportError::NoAdapter))
        .unwrap();
    assert_eq!(session.state(), SessionState::TransportFailed);
    assert_eq!(step.action, Action::Fail(Error::TransportUnavailable));
    assert_eq!(step.emitted, vec![status("No bluetooth adapter available!")]);
    assert!(!registry.is_initialized());
    // A failed session takes no further step.
    assert!(session.begin_scan().is_none());
    assert!(session.received(&mut registry, None).is_none());
    assert_eq!(session.state(), SessionState::TransportFailed);
}

#[test]
fn racing_sessions_commit_once() {
    let mut registry = DeviceRegistry::new();
    let mut sessions = vec![ScanSession::new(5), ScanSession::new(6), ScanSession::new(7)];
    for s in sessions.iter_mut() {
        let step = s.start(&registry).unwrap();
        assert_eq!(step.action, Action::Initialize);
    }
    // The sessions finish their enumerations in the order 1, 0, 2.
    let step = sessions[1].init_finished(&mut registry, Ok(vec![info(11, 1, 1)])).unwrap();
    assert_eq!(step.action, Action::Proceed);
    assert_eq!(sessions[1].state(), SessionState::Ready);

    let step = sessions[0].init_finished(&mut registry, Ok(vec![info(10, 0, 0)])).unwrap();
    assert_eq!(step.action, Action::Fail(Error::DuplicateInit));
    assert!(step.emitted.is_empty());
    assert_eq!(sessions[0].state(), SessionState::DuplicateAborted);

    let step = sessions[2].init_finished(&mut registry, Ok(vec![info(12, 2, 2)])).unwrap();
    assert_eq!(step.action, Action::Fail(Error::DuplicateInit));
    assert!(step.emitted.is_empty());
    assert_eq!(sessions[2].state(), SessionState::DuplicateAborted);

    assert_eq!(entries(&registry), vec![info(11, 1, 1)]);

    // A session that starts after the commit reuses the list.
    let mut late = ScanSession::new(1);
    let step = late.start(&registry).unwrap();
    assert_eq!(step.action, Action::Proceed);
    assert_eq!(step.emitted, vec![Emitted::Device(info(11, 1, 1))]);
}

#[test]
fn failed_enumeration_after_a_commit_is_still_announced() {
    let mut registry = DeviceRegistry::new();
    let mut a = ScanSession::new(1);
    let mut b = ScanSession::new(1);
    a.start(&registry).unwrap();
    b.start(&registry).unwrap();
    a.init_finished(&mut registry, Ok(vec![info(1, 1, 1)])).unwrap();
    let step = b.init_finished(&mut registry, Err(TransportError::NoAdapter)).unwrap();
    assert_eq!(step.action, Action::Fail(Error::TransportUnavailable));
    assert_eq!(step.emitted, vec![status("No bluetooth adapter available!")]);
    assert_eq!(entries(&registry), vec![info(1, 1, 1)]);
}

#[test]
fn steps_out_of_turn_change_nothing() {
    let mut registry = filled(vec![info(1, 1, 1)]);
    let mut session = ScanSession::new(5);
    assert!(session.begin_scan().is_none());
    assert!(session.received(&mut registry, Some(info(2, 2, 2))).is_none());
    assert!(session.init_finished(&mut registry, Ok(vec![info(3, 3, 3)])).is_none());
    assert_eq!(session.state(), SessionState::Uninitialized);
    assert_eq!(entries(&registry), vec![info(1, 1, 1)]);
    session.start(&registry).unwrap();
    assert!(session.start(&registry).is_none());
    assert_eq!(session.state(), SessionState::Ready);
    assert_eq!(session.duration(), 5);
}

#[test]
fn registry_takes_one_list() {
    let mut registry = DeviceRegistry::new();
    assert!(!registry.is_initialized());
    assert!(registry.get().is_none());
    assert!(!registry.record(info(1, 1, 1)));
    assert!(registry.get().is_none());

    let first = DeviceList::init(Ok(vec![info(1, 1, 1)])).unwrap();
    let second = DeviceList::init(Ok(vec![info(2, 2, 2)])).unwrap();
    assert_eq!(registry.initialize_once(first), Ok(()));
    assert_eq!(registry.initialize_once(second), Err(Error::DuplicateInit));
    assert!(registry.is_initialized());
    assert_eq!(entries(&registry), vec![info(1, 1, 1)]);

    assert!(registry.record(info(1, 5, 6)));
    assert!(registry.record(info(3, 0, 0)));
    assert_eq!(entries(&registry), vec![info(1, 5, 6), info(3, 0, 0)]);
}

#[test]
fn list_init_fails_with_the_transport() {
    let built = DeviceList::init(Err(TransportError::NoAdapter));
    assert_eq!(built.err(), Some(Error::TransportUnavailable));
}

#[test]
fn map_records_in_order_of_first_sighting() {
    let mut map = DeviceMap::new();
    assert_eq!(map.len(), 0);
    assert_eq!(map.position(1), None);
    map.record(info(30, 1, 1));
    map.record(info(10, 2, 2));
    map.record(info(20, 3, 3));
    map.record(info(10, 4, 5));
    assert_eq!(map.len(), 3);
    assert_eq!(map.snapshot(), vec![info(30, 1, 1), info(10, 4, 5), info(20, 3, 3)]);
    assert_eq!(map.position(30), Some(0));
    assert_eq!(map.position(10), Some(1));
    assert_eq!(map.position(20), Some(2));
    assert_eq!(map.position(40), None);
    let device = map.get(10).unwrap();
    assert_eq!(device.id(), 10);
    assert_eq!(
        device.get_last_statuses(),
        (LocalStatus { code: 4 }, RemoteStatus { code: 5 })
    );
    assert!(map.get(11).is_none());

    let mut other = DeviceMap::new();
    other.record_all(&vec![info(1, 1, 1), info(2, 2, 2), info(1, 3, 3)]);
    assert_eq!(other.snapshot(), vec![info(1, 3, 3), info(2, 2, 2)]);
}

#[test]
fn device_update_keeps_what_it_does_not_carry() {
    let mut device = Device::new(5, LocalStatus { code: 1 }, RemoteStatus { code: 2 });
    assert_eq!(device.id(), 5);
    assert_eq!(device.get_last_statuses(), (LocalStatus { code: 1 }, RemoteStatus { code: 2 }));
    device.apply_update(Some(LocalStatus { code: 7 }), None);
    assert_eq!(device.get_last_statuses(), (LocalStatus { code: 7 }, RemoteStatus { code: 2 }));
    device.apply_update(None, Some(RemoteStatus { code: 9 }));
    assert_eq!(device.get_last_statuses(), (LocalStatus { code: 7 }, RemoteStatus { code: 9 }));
    device.apply_update(None, None);
    assert_eq!(device.get_last_statuses(), (LocalStatus { code: 7 }, RemoteStatus { code: 9 }));
    device.apply_update(Some(LocalStatus { code: 3 }), Some(RemoteStatus { code: 4 }));
    assert_eq!(device.get_last_statuses(), (LocalStatus { code: 3 }, RemoteStatus { code: 4 }));
    assert_eq!(device.id(), 5);
}

#[test]
fn device_info_is_the_device_as_it_is() {
    let mut device = Device::new(5, LocalStatus { code: 1 }, RemoteStatus { code: 2 });
    assert_eq!(DeviceInfo::from_device(&device), info(5, 1, 2));
    assert_eq!(DeviceInfo::from(&device), info(5, 1, 2));
    assert_eq!(
        DeviceInfo::from_device_statuses(&device, LocalStatus { code: 8 }, RemoteStatus { code: 9 }),
        info(5, 8, 9)
    );
    device.apply_update(None, Some(RemoteStatus { code: 6 }));
    assert_eq!(DeviceInfo::from(&device), info(5, 1, 6));
}

#[test]
fn status_texts() {
    assert_eq!(StatusPayload::no_adapter().message, "No bluetooth adapter available!");
    assert_eq!(StatusPayload::scanning().message, "Scanning for lighthouses...");
    assert_eq!(StatusPayload::done().message, "Done scanning for devices!");
    assert_eq!(StatusPayload::new("hello").message, "hello");
    assert_eq!(Error::TransportUnavailable.message(), "No bluetooth adapter available!");
    assert_eq!(Error::DuplicateInit.message(), "Aborting potential duplicate scan!");
}

#[test]
fn snapshot_events_wrap_each_info() {
    assert!(snapshot_events(&vec![]).is_empty());
    assert_eq!(
        snapshot_events(&vec![info(2, 1, 1), info(1, 2, 2)]),
        vec![Emitted::Device(info(2, 1, 1)), Emitted::Device(info(1, 2, 2))]
    );
}
