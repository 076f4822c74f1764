use ydnc_time::app::App;
use ydnc_time::bluetooth::coordinator::Command;
use ydnc_time::bluetooth::coordinator::Coordinator;
use ydnc_time::bluetooth::coordinator::TaskId;
use ydnc_time::bluetooth::link::LinkCheck;
use ydnc_time::bluetooth::link::LinkEvent;
use ydnc_time::bluetooth::link::LinkRequest;
use ydnc_time::bluetooth::link::LinkVerdict;
use ydnc_time::bluetooth::manager::find_characteristic;
use ydnc_time::bluetooth::manager::names_tracker;
use ydnc_time::bluetooth::manager::CentralEvent;
use ydnc_time::bluetooth::manager::ConnectionManager;
use ydnc_time::bluetooth::manager::ManagerEnd;
use ydnc_time::bluetooth::manager::ManagerEvent;
use ydnc_time::bluetooth::manager::ManagerReaction;
use ydnc_time::bluetooth::manager::ManagerRequest;
use ydnc_time::bluetooth::retry::unavailable_message;
use ydnc_time::bluetooth::retry::Supervisor;
use ydnc_time::bluetooth::retry::SupervisorEvent;
use ydnc_time::bluetooth::retry::SupervisorRequest;
use ydnc_time::bluetooth::shutdown::JoinOutcome;
use ydnc_time::bluetooth::shutdown::Shutdown;
use ydnc_time::bluetooth::shutdown::ShutdownEvent;
use ydnc_time::bluetooth::shutdown::ShutdownRequest;
use ydnc_time::bluetooth::subscription::Reading;
use ydnc_time::bluetooth::subscription::SessionEnd;
use ydnc_time::bluetooth::subscription::SessionEvent;
use ydnc_time::bluetooth::subscription::SessionRequest;
use ydnc_time::bluetooth::subscription::Subscription;
use ydnc_time::bluetooth::subscription::Waited;
use ydnc_time::bluetooth::timeout::flatten_timeout;
use ydnc_time::bluetooth::timeout::Elapsed;
use ydnc_time::bluetooth::timeout::Failure;
use ydnc_time::bluetooth::CharacteristicId;
use ydnc_time::bluetooth::ConnectionState;
use ydnc_time::bluetooth::PeripheralId;
use ydnc_time::bluetooth::TRACKER_SIDE_CH;
use ydnc_time::clock::Timestamp;
use ydnc_time::entry::TimeLog;

const OTHER_CH: u128 = 0xc7e70011_c847_11e6_8175_8c89a55d403c;

fn at(secs: i64) -> Timestamp {
    Timestamp::new(secs, 0)
}

/// Brings a manager to the point where it listens with a scan running.
fn listening_manager() -> ConnectionManager {
    let (mut manager, first) = ConnectionManager::begin();
    assert_eq!(first, ManagerRequest::FindAdapter);
    let r = manager.advance(ManagerEvent::AdapterLookup(Ok(true)));
    assert_eq!(
        r,
        ManagerReaction {
            emit: Some(ConnectionState::Connecting),
            connected: None,
            next: ManagerRequest::OpenEvents
        }
    );
    let r = manager.advance(ManagerEvent::EventsOpened(Ok(())));
    assert_eq!(r.next, ManagerRequest::StartScan);
    let r = manager.advance(ManagerEvent::ScanStarted(Ok(())));
    assert_eq!(r.next, ManagerRequest::NextEvent);
    assert!(manager.scanning);
    manager
}

/// Follows the discovery of `id` up to the listing of its characteristics.
fn probe(manager: &mut ConnectionManager, id: PeripheralId, name: &str) {
    let r = manager.advance(ManagerEvent::Central(Some(CentralEvent::DeviceDiscovered(id))));
    assert_eq!(r.next, ManagerRequest::Identify(id));
    assert_eq!(r.next.timeout_secs(), Some(5));
    let r = manager.advance(ManagerEvent::Identified(Ok(())));
    assert_eq!(r.next, ManagerRequest::ReadProperties(id));
    assert_eq!(r.next.timeout_secs(), Some(5));
    let r = manager.advance(ManagerEvent::Properties(Ok(Some(name.to_string()))));
    assert_eq!(r.next, ManagerRequest::Connect(id));
    assert_eq!(r.next.timeout_secs(), Some(10));
    let r = manager.advance(ManagerEvent::Connected(Ok(())));
    assert_eq!(r.next, ManagerRequest::DiscoverServices(id));
    assert_eq!(r.next.timeout_secs(), Some(5));
    assert_eq!(r.emit, None);
    assert_eq!(r.connected, None);
}

#[test]
fn scenario_happy_path() {
    let tracker = PeripheralId(7);
    let mut manager = listening_manager();
    probe(&mut manager, tracker, "Timeular Tracker");
    let r = manager.advance(ManagerEvent::Services(Ok(vec![OTHER_CH, TRACKER_SIDE_CH])));
    let connected = ConnectionState::Connected(tracker, CharacteristicId(1));
    assert_eq!(r.emit, Some(connected));
    assert_eq!(r.connected, Some(true));
    assert_eq!(r.next, ManagerRequest::StopScan);
    let r = manager.advance(ManagerEvent::ScanStopped(Ok(())));
    assert_eq!(r.next, ManagerRequest::NextEvent);
    assert!(!manager.scanning);
    assert_eq!(manager.tracker, Some(tracker));

    let mut coordinator = Coordinator::new();
    assert_eq!(coordinator.advance(Some(ConnectionState::Starting)), vec![]);
    assert_eq!(coordinator.advance(Some(ConnectionState::Connecting)), vec![]);
    assert_eq!(
        coordinator.advance(Some(connected)),
        vec![Command::Spawn {
            task: TaskId(0),
            peripheral: tracker,
            characteristic: CharacteristicId(1)
        }]
    );

    let mut app = App::default();
    let (mut session, first) = Subscription::begin();
    assert_eq!(first, SessionRequest::IsConnected);
    assert_eq!(first.timeout_secs(), Some(5));
    let r = session.advance(SessionEvent::Link(LinkEvent::Liveness(Ok(true))));
    assert_eq!(r.next, SessionRequest::ReadValue);
    assert_eq!(r.next.timeout_secs(), Some(5));
    let r = session.advance(SessionEvent::ValueRead(Ok(vec![3])));
    assert_eq!(r.reading, Some(Reading::Initial(3)));
    assert_eq!(r.next, SessionRequest::Subscribe);
    assert_eq!(r.next.timeout_secs(), Some(3));
    app.apply_reading_at(r.reading.unwrap(), at(100));
    assert_eq!(app.today, vec![TimeLog { start: at(100), end: None, number: 3 }]);
    assert_eq!(app.open_entry_number(), Some(3));
    let r = session.advance(SessionEvent::Subscribed(Ok(())));
    assert_eq!(r.reading, None);
    assert_eq!(r.next, SessionRequest::OpenStream);
    assert_eq!(r.next.timeout_secs(), Some(3));
    let r = session.advance(SessionEvent::StreamOpened(Ok(())));
    assert_eq!(r.reading, None);
    assert_eq!(r.next, SessionRequest::NextNotification);
    assert_eq!(r.next.timeout_secs(), Some(5));

    let r = session.advance(SessionEvent::Notification(Waited::Received(vec![0])));
    assert_eq!(r.reading, Some(Reading::Changed(0)));
    assert_eq!(r.next, SessionRequest::NextNotification);
    app.apply_reading_at(r.reading.unwrap(), at(160));
    assert_eq!(app.today, vec![TimeLog { start: at(100), end: Some(at(160)), number: 3 }]);
    assert!(!app.has_open_entry());
}

#[test]
fn scenario_false_positive_name_match() {
    let keyboard = PeripheralId(3);
    let mut manager = listening_manager();
    assert!(names_tracker("Timeular Keyboard"));
    probe(&mut manager, keyboard, "Timeular Keyboard");
    let r = manager.advance(ManagerEvent::Services(Ok(vec![OTHER_CH, 1, 2])));
    assert_eq!(
        r,
        ManagerReaction { emit: None, connected: None, next: ManagerRequest::NextEvent }
    );
    assert_eq!(manager.tracker, None);
    assert!(manager.scanning);
    // The search goes on: the next discovery is followed up.
    let r = manager.advance(ManagerEvent::Central(Some(CentralEvent::DeviceDiscovered(
        PeripheralId(4),
    ))));
    assert_eq!(r.next, ManagerRequest::Identify(PeripheralId(4)));
}

#[test]
fn scenario_mid_session_disconnect() {
    let tracker = PeripheralId(7);
    let mut manager = listening_manager();
    probe(&mut manager, tracker, "Timeular Tracker");
    let r = manager.advance(ManagerEvent::Services(Ok(vec![TRACKER_SIDE_CH])));
    let connected = r.emit.unwrap();
    manager.advance(ManagerEvent::ScanStopped(Ok(())));
    let mut app = App::default();
    app.set_connected_at(true, at(1));
    assert!(app.tracker_connected);
    assert_eq!(app.message.as_ref().unwrap().0, "Successfully connected to tracker");
    let mut coordinator = Coordinator::new();
    coordinator.advance(Some(connected));

    // Another peripheral going away changes nothing.
    let r = manager.advance(ManagerEvent::Central(Some(CentralEvent::DeviceDisconnected(
        PeripheralId(8),
    ))));
    assert_eq!(
        r,
        ManagerReaction { emit: None, connected: None, next: ManagerRequest::NextEvent }
    );

    let r = manager.advance(ManagerEvent::Central(Some(CentralEvent::DeviceDisconnected(tracker))));
    assert_eq!(r.emit, Some(ConnectionState::Connecting));
    assert_eq!(r.connected, Some(false));
    assert_eq!(r.next, ManagerRequest::StartScan);
    assert_eq!(manager.tracker, None);
    app.set_connected_at(r.connected.unwrap(), at(2));
    assert!(!app.tracker_connected);
    assert_eq!(app.message.as_ref().unwrap().0, "Connection to tracker lost");
    assert_eq!(app.message.as_ref().unwrap().1, at(2));
    assert_eq!(coordinator.advance(r.emit), vec![Command::Abort { task: TaskId(0) }]);
    assert_eq!(coordinator.listener, None);
    let r = manager.advance(ManagerEvent::ScanStarted(Ok(())));
    assert_eq!(r.next, ManagerRequest::NextEvent);
    assert!(manager.scanning);
}

#[test]
fn manager_without_adapter_stops() {
    let (mut manager, _) = ConnectionManager::begin();
    let r = manager.advance(ManagerEvent::AdapterLookup(Ok(false)));
    assert_eq!(
        r,
        ManagerReaction {
            emit: Some(ConnectionState::Stopping),
            connected: None,
            next: ManagerRequest::Finish(ManagerEnd::Completed)
        }
    );
    // Over is over.
    let r = manager.advance(ManagerEvent::Central(Some(CentralEvent::DeviceDiscovered(
        PeripheralId(1),
    ))));
    assert_eq!(r.next, ManagerRequest::Finish(ManagerEnd::Completed));
    assert_eq!(r.emit, None);
}

#[test]
fn manager_setup_failures_end_the_attempt() {
    for failure in [Failure::Platform, Failure::Elapsed] {
        let (mut manager, _) = ConnectionManager::begin();
        let r = manager.advance(ManagerEvent::AdapterLookup(Err(failure)));
        assert_eq!(r.next, ManagerRequest::Finish(ManagerEnd::Failed));
        assert_eq!(r.emit, None);

        let (mut manager, _) = ConnectionManager::begin();
        manager.advance(ManagerEvent::AdapterLookup(Ok(true)));
        let r = manager.advance(ManagerEvent::EventsOpened(Err(failure)));
        assert_eq!(r.next, ManagerRequest::Finish(ManagerEnd::Failed));

        let (mut manager, _) = ConnectionManager::begin();
        manager.advance(ManagerEvent::AdapterLookup(Ok(true)));
        manager.advance(ManagerEvent::EventsOpened(Ok(())));
        let r = manager.advance(ManagerEvent::ScanStarted(Err(failure)));
        assert_eq!(r.next, ManagerRequest::Finish(ManagerEnd::Failed));
    }
}

#[test]
fn manager_stream_end_completes_the_attempt() {
    let mut manager = listening_manager();
    let r = manager.advance(ManagerEvent::Central(None));
    assert_eq!(r.next, ManagerRequest::Finish(ManagerEnd::Completed));
}

#[test]
fn manager_absorbs_failures_of_a_candidate() {
    let id = PeripheralId(5);
    let discovered = || ManagerEvent::Central(Some(CentralEvent::DeviceDiscovered(id)));
    let quiet = ManagerReaction { emit: None, connected: None, next: ManagerRequest::NextEvent };
    for failure in [Failure::Platform, Failure::Elapsed] {
        let mut manager = listening_manager();
        manager.advance(discovered());
        assert_eq!(manager.advance(ManagerEvent::Identified(Err(failure))), quiet);

        manager.advance(discovered());
        manager.advance(ManagerEvent::Identified(Ok(())));
        assert_eq!(manager.advance(ManagerEvent::Properties(Err(failure))), quiet);

        manager.advance(discovered());
        manager.advance(ManagerEvent::Identified(Ok(())));
        manager.advance(ManagerEvent::Properties(Ok(Some("Timeular ZEI".to_string()))));
        assert_eq!(manager.advance(ManagerEvent::Connected(Err(failure))), quiet);

        manager.advance(discovered());
        manager.advance(ManagerEvent::Identified(Ok(())));
        manager.advance(ManagerEvent::Properties(Ok(Some("Timeular ZEI".to_string()))));
        manager.advance(ManagerEvent::Connected(Ok(())));
        assert_eq!(manager.advance(ManagerEvent::Services(Err(failure))), quiet);
        assert_eq!(manager.tracker, None);
        assert!(manager.scanning);
    }
}

#[test]
fn manager_skips_peripherals_with_other_names() {
    let id = PeripheralId(5);
    let quiet = ManagerReaction { emit: None, connected: None, next: ManagerRequest::NextEvent };
    for name in [None, Some("Headphones".to_string()), Some("timeular".to_string())] {
        let mut manager = listening_manager();
        manager.advance(ManagerEvent::Central(Some(CentralEvent::DeviceDiscovered(id))));
        manager.advance(ManagerEvent::Identified(Ok(())));
        assert_eq!(manager.advance(ManagerEvent::Properties(Ok(name))), quiet);
    }
}

#[test]
fn manager_ignores_discoveries_while_connected() {
    let tracker = PeripheralId(7);
    let mut manager = listening_manager();
    probe(&mut manager, tracker, "Timeular Tracker");
    manager.advance(ManagerEvent::Services(Ok(vec![TRACKER_SIDE_CH])));
    manager.advance(ManagerEvent::ScanStopped(Ok(())));
    let before = manager;
    let r = manager.advance(ManagerEvent::Central(Some(CentralEvent::DeviceDiscovered(
        PeripheralId(9),
    ))));
    assert_eq!(r, ManagerReaction { emit: None, connected: None, next: ManagerRequest::NextEvent });
    assert_eq!(manager, before);
}

#[test]
fn manager_passes_over_other_events() {
    let id = PeripheralId(2);
    let quiet = ManagerReaction { emit: None, connected: None, next: ManagerRequest::NextEvent };
    for event in [
        CentralEvent::DeviceUpdated(id),
        CentralEvent::DeviceConnected(id),
        CentralEvent::ManufacturerDataAdvertisement(id),
        CentralEvent::ServiceDataAdvertisement(id),
        CentralEvent::ServicesAdvertisement(id),
    ] {
        let mut manager = listening_manager();
        let before = manager;
        assert_eq!(manager.advance(ManagerEvent::Central(Some(event))), quiet);
        assert_eq!(manager, before);
    }
}

#[test]
fn manager_stop_scan_failure_ends_the_attempt() {
    let tracker = PeripheralId(7);
    let mut manager = listening_manager();
    probe(&mut manager, tracker, "Timeular Tracker");
    manager.advance(ManagerEvent::Services(Ok(vec![TRACKER_SIDE_CH])));
    let r = manager.advance(ManagerEvent::ScanStopped(Err(Failure::Platform)));
    assert_eq!(r.next, ManagerRequest::Finish(ManagerEnd::Failed));
}

#[test]
fn manager_keeps_waiting_on_an_unexpected_event() {
    let mut manager = listening_manager();
    let before = manager;
    let r = manager.advance(ManagerEvent::Services(Ok(vec![TRACKER_SIDE_CH])));
    assert_eq!(r, ManagerReaction { emit: None, connected: None, next: ManagerRequest::NextEvent });
    assert_eq!(manager, before);
}

#[test]
fn tracker_name_is_a_substring_match() {
    assert!(names_tracker("Timeular"));
    assert!(names_tracker("Timeular Tracker"));
    assert!(names_tracker("My Timeular ZEI"));
    assert!(!names_tracker(""));
    assert!(!names_tracker("Timeula"));
    assert!(!names_tracker("Time ular"));
    assert!(!names_tracker("TIMEULAR"));
}

#[test]
fn characteristic_is_found_at_its_first_place() {
    assert_eq!(find_characteristic(&vec![], TRACKER_SIDE_CH), None);
    assert_eq!(find_characteristic(&vec![OTHER_CH], TRACKER_SIDE_CH), None);
    assert_eq!(find_characteristic(&vec![TRACKER_SIDE_CH], TRACKER_SIDE_CH), Some(0));
    assert_eq!(
        find_characteristic(&vec![OTHER_CH, TRACKER_SIDE_CH, 5, TRACKER_SIDE_CH], TRACKER_SIDE_CH),
        Some(1)
    );
    assert_eq!(TRACKER_SIDE_CH, 0xc7e70012c84711e681758c89a55d403c);
    assert_eq!(
        uuid::Uuid::parse_str("c7e70012-c847-11e6-8175-8c89a55d403c").unwrap().as_u128(),
        TRACKER_SIDE_CH
    );
}

#[test]
fn timeout_counts_as_failure() {
    assert_eq!(flatten_timeout::<u8, String>(Ok(Ok(4))), Ok(4));
    assert_eq!(flatten_timeout::<u8, String>(Ok(Err("radio".to_string()))), Err(Failure::Platform));
    assert_eq!(flatten_timeout::<u8, String>(Err(Elapsed)), Err(Failure::Elapsed));

    // The same path is taken for both kinds of failure.
    let mut slow = Subscription::ReadingInitial;
    let mut broken = Subscription::ReadingInitial;
    let a = slow.advance(SessionEvent::ValueRead(flatten_timeout::<Vec<u8>, String>(Err(Elapsed))));
    let b = broken.advance(SessionEvent::ValueRead(flatten_timeout::<Vec<u8>, String>(Ok(Err(
        "radio".to_string(),
    )))));
    assert_eq!(a, b);
    assert_eq!(slow, broken);
    assert_eq!(a.next, SessionRequest::Finish(SessionEnd::Failed));
}

#[test]
fn link_check_connected_at_once() {
    let (mut check, first) = LinkCheck::begin();
    assert_eq!(first, LinkRequest::IsConnected);
    assert_eq!(first.timeout_secs(), Some(5));
    assert_eq!(check.verdict(), None);
    let next = check.advance(LinkEvent::Liveness(Ok(true)));
    assert_eq!(next, LinkRequest::Finish(LinkVerdict::Connected));
    assert_eq!(next.timeout_secs(), None);
    assert_eq!(check.verdict(), Some(LinkVerdict::Connected));
}

#[test]
fn link_check_reconnects_once() {
    let (mut check, _) = LinkCheck::begin();
    let next = check.advance(LinkEvent::Liveness(Ok(false)));
    assert_eq!(next, LinkRequest::Connect);
    assert_eq!(next.timeout_secs(), Some(10));
    assert_eq!(check.advance(LinkEvent::Reconnected(Ok(()))), LinkRequest::IsConnected);
    assert_eq!(
        check.advance(LinkEvent::Liveness(Ok(true))),
        LinkRequest::Finish(LinkVerdict::Connected)
    );

    let (mut check, _) = LinkCheck::begin();
    check.advance(LinkEvent::Liveness(Ok(false)));
    check.advance(LinkEvent::Reconnected(Ok(())));
    assert_eq!(
        check.advance(LinkEvent::Liveness(Ok(false))),
        LinkRequest::Finish(LinkVerdict::Lost)
    );
    // No second reconnect, whatever comes.
    assert_eq!(
        check.advance(LinkEvent::Liveness(Ok(false))),
        LinkRequest::Finish(LinkVerdict::Lost)
    );
}

#[test]
fn link_check_fails_on_any_failure() {
    for failure in [Failure::Platform, Failure::Elapsed] {
        let (mut check, _) = LinkCheck::begin();
        assert_eq!(
            check.advance(LinkEvent::Liveness(Err(failure))),
            LinkRequest::Finish(LinkVerdict::Failed)
        );
        let (mut check, _) = LinkCheck::begin();
        check.advance(LinkEvent::Liveness(Ok(false)));
        assert_eq!(
            check.advance(LinkEvent::Reconnected(Err(failure))),
            LinkRequest::Finish(LinkVerdict::Failed)
        );
        let (mut check, _) = LinkCheck::begin();
        check.advance(LinkEvent::Liveness(Ok(false)));
        check.advance(LinkEvent::Reconnected(Ok(())));
        assert_eq!(
            check.advance(LinkEvent::Liveness(Err(failure))),
            LinkRequest::Finish(LinkVerdict::Failed)
        );
    }
}

#[test]
fn session_ends_cleanly_when_tracker_stays_lost() {
    let (mut session, _) = Subscription::begin();
    let r = session.advance(SessionEvent::Link(LinkEvent::Liveness(Ok(false))));
    assert_eq!(r.next, SessionRequest::Connect);
    assert_eq!(r.next.timeout_secs(), Some(10));
    let r = session.advance(SessionEvent::Link(LinkEvent::Reconnected(Ok(()))));
    assert_eq!(r.next, SessionRequest::IsConnected);
    let r = session.advance(SessionEvent::Link(LinkEvent::Liveness(Ok(false))));
    assert_eq!(r.next, SessionRequest::Finish(SessionEnd::Completed));
    assert_eq!(r.next.timeout_secs(), None);
}

#[test]
fn session_fails_when_setup_fails() {
    for failure in [Failure::Platform, Failure::Elapsed] {
        let (mut session, _) = Subscription::begin();
        let r = session.advance(SessionEvent::Link(LinkEvent::Liveness(Err(failure))));
        assert_eq!(r.next, SessionRequest::Finish(SessionEnd::Failed));

        let (mut session, _) = Subscription::begin();
        session.advance(SessionEvent::Link(LinkEvent::Liveness(Ok(true))));
        session.advance(SessionEvent::ValueRead(Ok(vec![2])));
        let r = session.advance(SessionEvent::Subscribed(Err(failure)));
        assert_eq!(r.next, SessionRequest::Finish(SessionEnd::Failed));
        assert_eq!(r.reading, None);

        let (mut session, _) = Subscription::begin();
        session.advance(SessionEvent::Link(LinkEvent::Liveness(Ok(true))));
        session.advance(SessionEvent::ValueRead(Ok(vec![2])));
        session.advance(SessionEvent::Subscribed(Ok(())));
        let r = session.advance(SessionEvent::StreamOpened(Err(failure)));
        assert_eq!(r.next, SessionRequest::Finish(SessionEnd::Failed));
        assert_eq!(r.reading, None);
    }
}

#[test]
fn session_checks_the_link_after_silence() {
    let mut session = Subscription::Waiting;
    let r = session.advance(SessionEvent::Notification(Waited::Quiet));
    assert_eq!(r.next, SessionRequest::IsConnected);
    assert_eq!(r.reading, None);
    let r = session.advance(SessionEvent::Link(LinkEvent::Liveness(Ok(true))));
    assert_eq!(r.next, SessionRequest::NextNotification);
    assert_eq!(session, Subscription::Waiting);

    session.advance(SessionEvent::Notification(Waited::Quiet));
    session.advance(SessionEvent::Link(LinkEvent::Liveness(Ok(false))));
    session.advance(SessionEvent::Link(LinkEvent::Reconnected(Ok(()))));
    let r = session.advance(SessionEvent::Link(LinkEvent::Liveness(Ok(false))));
    assert_eq!(r.next, SessionRequest::Finish(SessionEnd::Completed));

    let mut session = Subscription::Waiting;
    session.advance(SessionEvent::Notification(Waited::Quiet));
    let r = session.advance(SessionEvent::Link(LinkEvent::Liveness(Err(Failure::Elapsed))));
    assert_eq!(r.next, SessionRequest::Finish(SessionEnd::Failed));
}

#[test]
fn session_ends_when_the_stream_ends() {
    let mut session = Subscription::Waiting;
    let r = session.advance(SessionEvent::Notification(Waited::Closed));
    assert_eq!(r.next, SessionRequest::Finish(SessionEnd::Completed));
    assert_eq!(r.reading, None);
    let r = session.advance(SessionEvent::Notification(Waited::Received(vec![4])));
    assert_eq!(r.next, SessionRequest::Finish(SessionEnd::Completed));
    assert_eq!(r.reading, None);
}

#[test]
fn session_passes_over_empty_values() {
    let (mut session, _) = Subscription::begin();
    session.advance(SessionEvent::Link(LinkEvent::Liveness(Ok(true))));
    let r = session.advance(SessionEvent::ValueRead(Ok(vec![])));
    assert_eq!(r.reading, None);
    assert_eq!(r.next, SessionRequest::Subscribe);
    session.advance(SessionEvent::Subscribed(Ok(())));
    let r = session.advance(SessionEvent::StreamOpened(Ok(())));
    assert_eq!(r.reading, None);
    assert_eq!(r.next, SessionRequest::NextNotification);
    let r = session.advance(SessionEvent::Notification(Waited::Received(vec![])));
    assert_eq!(r.reading, None);
    let r = session.advance(SessionEvent::Notification(Waited::Received(vec![5, 9, 9])));
    assert_eq!(r.reading, Some(Reading::Changed(5)));
}

#[test]
fn repeated_face_starts_one_entry() {
    let mut app = App::default();
    for (i, _) in [0; 6].iter().enumerate() {
        app.apply_reading_at(Reading::Changed(4), at(10 + i as i64));
    }
    assert_eq!(app.today, vec![TimeLog { start: at(10), end: None, number: 4 }]);

    // A different face ends the entry and starts the next at the same instant.
    app.apply_reading_at(Reading::Changed(8), at(50));
    app.apply_reading_at(Reading::Changed(8), at(51));
    assert_eq!(
        app.today,
        vec![
            TimeLog { start: at(10), end: Some(at(50)), number: 4 },
            TimeLog { start: at(50), end: None, number: 8 },
        ]
    );
}

#[test]
fn edge_clears_open_entry() {
    for edge in [0u8, 9, 17, 255] {
        let mut app = App::default();
        app.apply_reading_at(Reading::Changed(1), at(5));
        app.apply_reading_at(Reading::Changed(edge), at(9));
        assert_eq!(app.today, vec![TimeLog { start: at(5), end: Some(at(9)), number: 1 }]);
        assert!(app.today[0].end.unwrap() >= app.today[0].start);
        assert!(app.today[0].start.le(&app.today[0].end.unwrap()));
        // With nothing running an edge changes nothing.
        app.apply_reading_at(Reading::Changed(edge), at(12));
        assert_eq!(app.today, vec![TimeLog { start: at(5), end: Some(at(9)), number: 1 }]);
    }
}

#[test]
fn initial_edge_changes_nothing() {
    let mut app = App::default();
    app.apply_reading_at(Reading::Initial(2), at(5));
    app.apply_reading_at(Reading::Initial(0), at(9));
    assert_eq!(app.today, vec![TimeLog { start: at(5), end: None, number: 2 }]);
    app.apply_reading_at(Reading::Initial(2), at(11));
    assert_eq!(app.today, vec![TimeLog { start: at(5), end: None, number: 2 }]);
    app.apply_reading_at(Reading::Initial(6), at(12));
    assert_eq!(app.today.len(), 2);
    assert_eq!(app.open_entry_number(), Some(6));
}

#[test]
fn reading_applied_now_uses_the_clock() {
    let mut app = App::default();
    app.apply_reading(Reading::Changed(7));
    assert_eq!(app.today.len(), 1);
    assert_eq!(app.today[0].number, 7);
    assert!(app.today[0].start.secs > 1_600_000_000);
    let start = app.today[0].start;
    app.apply_reading(Reading::Changed(0));
    assert_eq!(app.today[0].start, start);
    assert!(app.today[0].end.is_some());
}

#[test]
fn retry_budget_is_five_attempts() {
    let (mut supervisor, first) = Supervisor::launch();
    assert_eq!(first, SupervisorRequest::Run { last: false });
    let mut runs = 1;
    let mut pauses = 0;
    let outcomes = [Err(Failure::Platform), Err(Failure::Elapsed), Ok(()), Err(Failure::Platform)];
    let mut round = 0;
    let mut next = first;
    while next != SupervisorRequest::GiveUp {
        match next {
            SupervisorRequest::Run { last } => {
                assert_eq!(last, runs == 5);
                next = supervisor.advance(SupervisorEvent::Returned(outcomes[round % 4]));
                round += 1;
            }
            SupervisorRequest::Pause { secs } => {
                assert_eq!(secs, 5);
                pauses += 1;
                next = supervisor.advance(SupervisorEvent::Paused);
                if let SupervisorRequest::Run { .. } = next {
                    runs += 1;
                }
            }
            SupervisorRequest::GiveUp => unreachable!(),
        }
    }
    assert_eq!(runs, 5);
    assert_eq!(pauses, 5);
    assert!(supervisor.has_given_up());
    // No sixth attempt, whatever is reported.
    assert_eq!(supervisor.advance(SupervisorEvent::Paused), SupervisorRequest::GiveUp);
    assert_eq!(
        supervisor.advance(SupervisorEvent::Returned(Err(Failure::Platform))),
        SupervisorRequest::GiveUp
    );
    assert_eq!(unavailable_message(), "Bluetooth unavailable");
}

#[test]
fn retry_with_other_budgets() {
    let (supervisor, first) = Supervisor::launch_with(0, 1);
    assert_eq!(first, SupervisorRequest::GiveUp);
    assert!(supervisor.has_given_up());

    let (mut supervisor, first) = Supervisor::launch_with(1, 2);
    assert_eq!(first, SupervisorRequest::Run { last: true });
    assert_eq!(
        supervisor.advance(SupervisorEvent::Returned(Ok(()))),
        SupervisorRequest::Pause { secs: 2 }
    );
    // An event that answers nothing changes nothing.
    assert_eq!(
        supervisor.advance(SupervisorEvent::Returned(Ok(()))),
        SupervisorRequest::Pause { secs: 2 }
    );
    assert_eq!(supervisor.advance(SupervisorEvent::Paused), SupervisorRequest::GiveUp);
}

#[test]
fn coordinator_keeps_one_listener() {
    let a = PeripheralId(1);
    let b = PeripheralId(2);
    let mut coordinator = Coordinator::new();
    let mut alive: Vec<TaskId> = vec![];
    let messages = [
        ConnectionState::Starting,
        ConnectionState::Connecting,
        ConnectionState::Connected(a, CharacteristicId(0)),
        ConnectionState::Connected(b, CharacteristicId(3)),
        ConnectionState::Connecting,
        ConnectionState::Starting,
        ConnectionState::Connected(a, CharacteristicId(0)),
        ConnectionState::Connected(a, CharacteristicId(0)),
    ];
    for message in messages {
        let commands = coordinator.advance(Some(message));
        for (i, command) in commands.iter().enumerate() {
            match command {
                Command::Spawn { task, .. } => {
                    // A new listener always comes first.
                    assert_eq!(i, 0);
                    assert!(!alive.contains(task));
                    alive.push(*task);
                }
                Command::Abort { task } => {
                    assert!(alive.contains(task));
                    alive.retain(|t| t != task);
                }
                Command::Disconnect { .. } => panic!("no disconnect before stopping"),
            }
        }
        assert!(alive.len() <= 1);
        assert_eq!(alive.first().copied(), coordinator.listener.map(|l| l.task));
    }
    assert_eq!(alive, vec![TaskId(3)]);
}

#[test]
fn coordinator_replaces_listener_spawn_first() {
    let mut coordinator = Coordinator::new();
    coordinator.advance(Some(ConnectionState::Connected(PeripheralId(1), CharacteristicId(0))));
    let commands =
        coordinator.advance(Some(ConnectionState::Connected(PeripheralId(2), CharacteristicId(4))));
    assert_eq!(
        commands,
        vec![
            Command::Spawn {
                task: TaskId(1),
                peripheral: PeripheralId(2),
                characteristic: CharacteristicId(4)
            },
            Command::Abort { task: TaskId(0) },
        ]
    );
}

#[test]
fn coordinator_stops() {
    // During initialization there is nothing to clean up.
    let mut coordinator = Coordinator::new();
    assert_eq!(coordinator.advance(Some(ConnectionState::Stopping)), vec![]);
    assert!(coordinator.is_stopped());
    assert_eq!(
        coordinator.advance(Some(ConnectionState::Connected(PeripheralId(1), CharacteristicId(0)))),
        vec![]
    );

    // With a listener: abort it, then disconnect within five seconds.
    let mut coordinator = Coordinator::new();
    coordinator.advance(Some(ConnectionState::Connected(PeripheralId(1), CharacteristicId(0))));
    let commands = coordinator.advance(Some(ConnectionState::Stopping));
    assert_eq!(
        commands,
        vec![Command::Abort { task: TaskId(0) }, Command::Disconnect { peripheral: PeripheralId(1) }]
    );
    assert_eq!(commands[0].timeout_secs(), None);
    assert_eq!(commands[1].timeout_secs(), Some(5));
    assert!(coordinator.is_stopped());

    // Between connections: nothing is left to abort.
    let mut coordinator = Coordinator::new();
    coordinator.advance(Some(ConnectionState::Connected(PeripheralId(1), CharacteristicId(0))));
    coordinator.advance(Some(ConnectionState::Connecting));
    assert_eq!(coordinator.advance(Some(ConnectionState::Stopping)), vec![]);
    assert!(coordinator.is_stopped());

    // A closed channel ends the coordinator as it is.
    let mut coordinator = Coordinator::new();
    coordinator.advance(Some(ConnectionState::Connected(PeripheralId(1), CharacteristicId(0))));
    assert_eq!(coordinator.advance(None), vec![]);
    assert!(coordinator.is_stopped());
    let mut coordinator = Coordinator::new();
    assert_eq!(coordinator.advance(None), vec![]);
    assert!(coordinator.is_stopped());
}

#[test]
fn coordinator_names_wrap_around() {
    let mut coordinator = Coordinator::new();
    coordinator.next_task = u64::MAX;
    coordinator.advance(Some(ConnectionState::Connected(PeripheralId(1), CharacteristicId(0))));
    assert_eq!(coordinator.next_task, 0);
    let commands =
        coordinator.advance(Some(ConnectionState::Connected(PeripheralId(1), CharacteristicId(0))));
    assert_eq!(commands.len(), 2);
    assert_eq!(commands[1], Command::Abort { task: TaskId(u64::MAX) });
}

#[test]
fn shutdown_runs_in_order() {
    for delivered in [true, false] {
        let (mut shutdown, first) = Shutdown::begin();
        assert_eq!(first, ShutdownRequest::SendStopping);
        assert_eq!(shutdown.advance(ShutdownEvent::Sent { delivered }), ShutdownRequest::AbortManager);
        // Out of turn: nothing moves.
        assert_eq!(
            shutdown.advance(ShutdownEvent::Joined(JoinOutcome::Panicked)),
            ShutdownRequest::AbortManager
        );
        assert_eq!(shutdown.advance(ShutdownEvent::Aborted), ShutdownRequest::JoinCoordinator);
        assert_eq!(
            shutdown.advance(ShutdownEvent::Joined(JoinOutcome::Finished)),
            ShutdownRequest::Return
        );
    }
    let (mut shutdown, _) = Shutdown::begin();
    shutdown.advance(ShutdownEvent::Sent { delivered: true });
    shutdown.advance(ShutdownEvent::Aborted);
    assert_eq!(
        shutdown.advance(ShutdownEvent::Joined(JoinOutcome::Panicked)),
        ShutdownRequest::ResumePanic
    );
    let (mut shutdown, _) = Shutdown::begin();
    shutdown.advance(ShutdownEvent::Sent { delivered: true });
    shutdown.advance(ShutdownEvent::Aborted);
    assert_eq!(
        shutdown.advance(ShutdownEvent::Joined(JoinOutcome::Cancelled)),
        ShutdownRequest::Return
    );
}
