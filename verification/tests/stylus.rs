use easytab::EasyTabError;
use easytab::EasyTabOptions;
use easytab::EasyTablet;
use easytab::EventLog;
use easytab::RawNotification;
use easytab::SharedState;
use easytab::WinTabEvent;
use easytab::WinTabletIndex;
use easytab::translate;

fn bound() -> EasyTablet<EventLog> {
    EasyTablet::init(Ok(())).expect("binding was granted")
}

#[test]
fn default_state() {
    let tablet = bound();
    assert!(!tablet.active());
    assert_eq!(tablet.x(), 0);
    assert_eq!(tablet.y(), 0);
    assert_eq!(tablet.pressure(), 0);
    assert!(!tablet.enabled());
    assert_eq!(
        tablet.read_state(),
        SharedState { active: false, x: 0, y: 0, pressure: 0 }
    );
}

#[test]
fn translate_recognized_kinds_exactly() {
    assert_eq!(
        translate(true, &RawNotification::RealTimeStylusDisabled),
        Ok(Some(WinTabEvent::StylusInactive))
    );
    assert_eq!(
        translate(true, &RawNotification::StylusOutOfRange),
        Ok(Some(WinTabEvent::StylusInactive))
    );
    assert_eq!(
        translate(true, &RawNotification::StylusDown),
        Ok(Some(WinTabEvent::StylusActive))
    );
    assert_eq!(
        translate(true, &RawNotification::StylusUp),
        Ok(Some(WinTabEvent::StylusInactive))
    );
    assert_eq!(
        translate(true, &RawNotification::StylusButtonDown(11, -4)),
        Ok(Some(WinTabEvent::StylusButtonDown(11, -4)))
    );
    assert_eq!(
        translate(true, &RawNotification::StylusButtonUp(-7, 300)),
        Ok(Some(WinTabEvent::StylusButtonUp(-7, 300)))
    );
}

#[test]
fn unrecognized_kinds_are_ignored() {
    let ignored = vec![
        RawNotification::RealTimeStylusEnabled,
        RawNotification::StylusInRange,
        RawNotification::InAirPackets,
        RawNotification::Packets,
        RawNotification::CustomStylusDataAdded,
        RawNotification::SystemEvent,
        RawNotification::TabletAdded,
        RawNotification::TabletRemoved,
        RawNotification::DriverError,
        RawNotification::UpdateMapping,
    ];
    let mut tablet = bound();
    tablet.deliver(true, &RawNotification::StylusDown).unwrap();
    tablet
        .deliver(true, &RawNotification::StylusButtonDown(3, 4))
        .unwrap();
    tablet.on(EventLog::new());
    for raw in &ignored {
        assert_eq!(translate(true, raw), Ok(None));
        assert_eq!(tablet.deliver(true, raw), Ok(()));
        assert!(tablet.active());
        assert_eq!(tablet.x(), 3);
        assert_eq!(tablet.y(), 4);
        assert_eq!(tablet.pressure(), 0);
    }
    let log = tablet.on(EventLog::new()).expect("an observer was registered");
    assert!(log.events().is_empty());
}

#[test]
fn button_events_update_both_coordinates_together() {
    let mut tablet = bound();
    tablet
        .deliver(true, &RawNotification::StylusButtonDown(1, 2))
        .unwrap();
    assert_eq!((tablet.x(), tablet.y()), (1, 2));
    tablet
        .deliver(true, &RawNotification::StylusButtonUp(8, 9))
        .unwrap();
    assert_eq!((tablet.x(), tablet.y()), (8, 9));
    assert_eq!(tablet.pressure(), 0);
}

#[test]
fn contact_sequence_leaves_coordinates_and_clears_active() {
    let mut tablet = bound();
    tablet.deliver(true, &RawNotification::StylusDown).unwrap();
    assert!(tablet.active());
    tablet
        .deliver(true, &RawNotification::StylusButtonDown(5, 7))
        .unwrap();
    tablet.deliver(true, &RawNotification::StylusUp).unwrap();
    assert!(!tablet.active());
    assert_eq!(tablet.x(), 5);
    assert_eq!(tablet.y(), 7);
}

#[test]
fn origin_mismatch_is_a_fault_and_changes_nothing() {
    let mut tablet = bound();
    tablet.on(EventLog::new());
    let refused = tablet.deliver(false, &RawNotification::StylusDown);
    assert_eq!(refused, Err(EasyTabError::ProtocolFault));
    assert!(!tablet.active());
    assert_eq!(tablet.x(), 0);
    assert_eq!(tablet.y(), 0);
    let log = tablet.on(EventLog::new()).expect("an observer was registered");
    assert!(log.events().is_empty());
    assert_eq!(
        translate(false, &RawNotification::Packets),
        Err(EasyTabError::ProtocolFault)
    );
}

#[test]
fn registering_replaces_the_observer() {
    let mut tablet = bound();
    let none = tablet.on(EventLog::new());
    assert!(none.is_none());
    tablet.deliver(true, &RawNotification::StylusDown).unwrap();
    let first = tablet.on(EventLog::new()).expect("an observer was registered");
    assert_eq!(first.events().as_slice(), &[WinTabEvent::StylusActive]);
    tablet.deliver(true, &RawNotification::StylusUp).unwrap();
    let second = tablet.on(EventLog::new()).expect("an observer was registered");
    assert_eq!(second.events().as_slice(), &[WinTabEvent::StylusInactive]);
    assert_eq!(first.events().as_slice(), &[WinTabEvent::StylusActive]);
}

#[test]
fn disable_preserves_the_snapshot() {
    let mut tablet = bound();
    tablet.enable(Ok(())).unwrap();
    tablet.deliver(true, &RawNotification::StylusDown).unwrap();
    tablet
        .deliver(true, &RawNotification::StylusButtonDown(3, 4))
        .unwrap();
    tablet.disable(Ok(())).unwrap();
    assert!(!tablet.enabled());
    assert!(tablet.active());
    assert_eq!(tablet.x(), 3);
    assert_eq!(tablet.y(), 4);
}

#[test]
fn full_contact_end_to_end() {
    let mut tablet = bound();
    tablet.enable(Ok(())).unwrap();
    tablet.on(EventLog::new());
    tablet.deliver(true, &RawNotification::StylusDown).unwrap();
    tablet
        .deliver(true, &RawNotification::StylusButtonDown(10, 20))
        .unwrap();
    tablet
        .deliver(true, &RawNotification::StylusButtonUp(10, 20))
        .unwrap();
    tablet.deliver(true, &RawNotification::StylusUp).unwrap();
    let log = tablet.on(EventLog::new()).expect("an observer was registered");
    assert_eq!(
        log.events().as_slice(),
        &[
            WinTabEvent::StylusActive,
            WinTabEvent::StylusButtonDown(10, 20),
            WinTabEvent::StylusButtonUp(10, 20),
            WinTabEvent::StylusInactive,
        ]
    );
    assert!(!tablet.active());
    assert_eq!(tablet.x(), 10);
    assert_eq!(tablet.y(), 20);
}

#[test]
fn refused_binding_is_an_init_error() {
    let refused = EasyTablet::<EventLog>::init(Err(String::from("no digitizer present")));
    match refused {
        Err(EasyTabError::Init(message)) => {
            assert_eq!(message, "no digitizer present");
        }
        other => panic!("expected an init error, got {:?}", other.is_ok()),
    }
}

#[test]
fn refused_enable_and_disable_leave_the_handle_alone() {
    let mut tablet = bound();
    let refused = tablet.enable(Err(String::from("subsystem refused")));
    assert_eq!(
        refused,
        Err(EasyTabError::Enable(String::from("subsystem refused")))
    );
    assert!(!tablet.enabled());
    tablet.enable(Ok(())).unwrap();
    let refused = tablet.disable(Err(String::from("subsystem refused")));
    assert_eq!(
        refused,
        Err(EasyTabError::Enable(String::from("subsystem refused")))
    );
    assert!(tablet.enabled());
}

#[test]
fn rebind_keeps_observer_and_options() {
    let opts = EasyTabOptions {
        retry_on_change: true,
        index: WinTabletIndex::Index(2),
    };
    let mut tablet: EasyTablet<EventLog> =
        EasyTablet::init_options(opts, Ok(())).expect("binding was granted");
    tablet.enable(Ok(())).unwrap();
    tablet.on(EventLog::new());
    tablet.deliver(true, &RawNotification::StylusDown).unwrap();
    tablet.rebind(Ok(())).unwrap();
    assert!(!tablet.enabled());
    assert!(!tablet.active());
    assert_eq!(tablet.x(), 0);
    assert_eq!(tablet.options().retry_on_change, true);
    assert_eq!(tablet.options().index, WinTabletIndex::Index(2));
    tablet.deliver(true, &RawNotification::StylusUp).unwrap();
    let log = tablet.on(EventLog::new()).expect("the observer survived the rebind");
    assert_eq!(
        log.events().as_slice(),
        &[WinTabEvent::StylusActive, WinTabEvent::StylusInactive]
    );
}

#[test]
fn default_options() {
    let opts = EasyTabOptions::default();
    assert_eq!(opts.retry_on_change, false);
    assert_eq!(opts.index, WinTabletIndex::Default);
    assert_eq!(WinTabletIndex::default(), WinTabletIndex::Default);
}
