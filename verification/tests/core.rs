use oxidrop::host::fallback_device_name;
use oxidrop::hub::{LifecycleAction, SubscriptionHub};
use oxidrop::list::SelectionList;
use oxidrop::model::{
    endpoint_from_info, request_from_message, DecisionAction, Direction, Endpoint, RawEndpoint,
    RawMessage, TransferKind, TransferPhase, TransferRequest,
};
use oxidrop::session::{map_input, AppEvent, Session, SessionAction, TermInput};
use oxidrop::{Error, File};

fn raw_endpoint(id: &str, ip: Option<&str>, port: Option<&str>) -> RawEndpoint {
    RawEndpoint {
        id: id.to_string(),
        name: None,
        fullname: format!("{id}.local"),
        ip: ip.map(|s| s.to_string()),
        port: port.map(|s| s.to_string()),
    }
}

fn consent_message(id: &str) -> RawMessage {
    RawMessage {
        id: id.to_string(),
        direction: Direction::LibToFront,
        kind: Some(TransferKind::Inbound),
        phase: Some(TransferPhase::WaitingForUserConsent),
        source_name: None,
        meta_id: Some(format!("meta-{id}")),
    }
}

#[test]
fn refcounted_lifecycle_stops_once_on_last_release() {
    let mut hub = SubscriptionHub::new();
    let (mut t1, a1) = hub.subscribe();
    assert!(matches!(a1, LifecycleAction::StartDiscovery));
    let (mut t2, a2) = hub.subscribe();
    assert!(matches!(a2, LifecycleAction::NoEffect));
    let (mut t3, a3) = hub.subscribe();
    assert!(matches!(a3, LifecycleAction::NoEffect));
    // dispose in a different order than subscription
    assert!(matches!(hub.release(&mut t2), LifecycleAction::NoEffect));
    assert!(matches!(hub.release(&mut t3), LifecycleAction::NoEffect));
    // releasing the same ticket twice is a no-op
    assert!(matches!(hub.release(&mut t3), LifecycleAction::NoEffect));
    // the last live subscription triggers the one and only stop
    assert!(matches!(hub.release(&mut t1), LifecycleAction::StopDiscovery));
    assert!(matches!(hub.release(&mut t1), LifecycleAction::NoEffect));
    // a later subscriber starts the resource afresh
    let (_t4, a4) = hub.subscribe();
    assert!(matches!(a4, LifecycleAction::StartDiscovery));
}

#[test]
fn endpoint_filter_requires_both_address_fields() {
    assert!(endpoint_from_info(raw_endpoint("a", None, None)).is_none());
    assert!(endpoint_from_info(raw_endpoint("a", Some("10.0.0.1"), None)).is_none());
    assert!(endpoint_from_info(raw_endpoint("a", None, Some("80"))).is_none());
    let e = endpoint_from_info(raw_endpoint("a", Some("10.0.0.1"), Some("80"))).unwrap();
    assert_eq!(e.id, "a");
    assert_eq!(e.fullname, "a.local");
    assert_eq!(e.ip, "10.0.0.1");
    assert_eq!(e.port, "80");
}

#[test]
fn transfer_filter_requires_all_three_conditions() {
    let r = request_from_message(consent_message("t1")).unwrap();
    assert_eq!(r.id, "t1");
    assert_eq!(r.meta_id.as_deref(), Some("meta-t1"));

    let mut wrong_direction = consent_message("t2");
    wrong_direction.direction = Direction::FrontToLib;
    assert!(request_from_message(wrong_direction).is_none());

    let mut wrong_kind = consent_message("t3");
    wrong_kind.kind = Some(TransferKind::OtherKind);
    assert!(request_from_message(wrong_kind).is_none());

    let mut missing_kind = consent_message("t4");
    missing_kind.kind = None;
    assert!(request_from_message(missing_kind).is_none());

    let mut wrong_phase = consent_message("t5");
    wrong_phase.phase = Some(TransferPhase::OtherPhase);
    assert!(request_from_message(wrong_phase).is_none());

    let mut missing_phase = consent_message("t6");
    missing_phase.phase = None;
    assert!(request_from_message(missing_phase).is_none());
}

#[test]
fn insert_dedups_by_id_and_keeps_first_value() {
    let mut list: SelectionList<Endpoint> = SelectionList::new();
    let first = endpoint_from_info(RawEndpoint {
        id: "same".to_string(),
        name: Some("first name".to_string()),
        fullname: "one.local".to_string(),
        ip: Some("10.0.0.1".to_string()),
        port: Some("80".to_string()),
    })
    .unwrap();
    let second = endpoint_from_info(RawEndpoint {
        id: "same".to_string(),
        name: Some("second name".to_string()),
        fullname: "two.local".to_string(),
        ip: Some("10.0.0.2".to_string()),
        port: Some("81".to_string()),
    })
    .unwrap();
    assert!(list.insert(first));
    assert!(!list.insert(second));
    assert_eq!(list.len(), 1);
    assert_eq!(list.get(0).name(), "first name");
    assert_eq!(list.get(0).ip, "10.0.0.1");
}

#[test]
fn cursor_clamps_at_both_ends() {
    let mut list: SelectionList<TransferRequest> = SelectionList::new();
    for id in ["a", "b", "c"] {
        list.insert(request_from_message(consent_message(id)).unwrap());
    }
    assert_eq!(list.selected_index(), None);
    for _ in 0..5 {
        list.move_down();
    }
    assert_eq!(list.selected_index(), Some(2));
    for _ in 0..5 {
        list.move_up();
    }
    assert_eq!(list.selected_index(), Some(0));
}

#[test]
fn nav_on_empty_list_is_a_no_op() {
    let mut list: SelectionList<Endpoint> = SelectionList::new();
    list.move_down();
    assert_eq!(list.selected_index(), None);
    list.move_up();
    assert_eq!(list.selected_index(), None);
}

#[test]
fn unset_cursor_moves_to_the_ends() {
    let mut list: SelectionList<TransferRequest> = SelectionList::new();
    for id in ["a", "b", "c"] {
        list.insert(request_from_message(consent_message(id)).unwrap());
    }
    list.move_up();
    assert_eq!(list.selected_index(), Some(2));
    let mut other: SelectionList<TransferRequest> = SelectionList::new();
    for id in ["a", "b", "c"] {
        other.insert(request_from_message(consent_message(id)).unwrap());
    }
    other.move_down();
    assert_eq!(other.selected_index(), Some(0));
}

#[test]
fn receive_scenario_accepts_the_selected_request() {
    let mut session: Session<TransferRequest> = Session::new();
    for id in ["A", "B", "C"] {
        let req = request_from_message(consent_message(id)).unwrap();
        let act = session.handle_event(AppEvent::NewItem(req));
        assert!(matches!(act, SessionAction::Redraw));
    }
    assert_eq!(session.list.len(), 3);
    assert_eq!(session.list.get(0).id, "A");
    assert_eq!(session.list.get(1).id, "B");
    assert_eq!(session.list.get(2).id, "C");
    // an unset cursor lands on the first index, so two downs select "B"
    session.handle_event(AppEvent::Down);
    session.handle_event(AppEvent::Down);
    let act = session.handle_event(AppEvent::Confirm);
    let SessionAction::Submit(i) = act else {
        panic!("confirm must submit the selection");
    };
    assert_eq!(i, 1);
    let decision = session.list.get(i).accept_decision();
    assert_eq!(decision.id, "meta-B");
    assert!(matches!(decision.direction, Direction::FrontToLib));
    assert!(matches!(decision.action, DecisionAction::AcceptTransfer));
}

#[test]
fn send_scenario_inserts_only_the_resolved_event() {
    let mut session: Session<Endpoint> = Session::new();
    // the event for X still missing its port never reaches the list
    assert!(endpoint_from_info(raw_endpoint("X", Some("10.0.0.9"), None)).is_none());
    // the later, fully resolved event causes exactly one insertion
    let resolved = endpoint_from_info(raw_endpoint("X", Some("10.0.0.9"), Some("9300"))).unwrap();
    session.handle_event(AppEvent::NewItem(resolved.clone()));
    assert_eq!(session.list.len(), 1);
    // a repeated emission of the same endpoint does not insert again
    session.handle_event(AppEvent::NewItem(resolved));
    assert_eq!(session.list.len(), 1);
    assert_eq!(session.list.get(0).id, "X");
}

#[test]
fn dot_counter_cycles_independently_of_the_list() {
    let mut empty: Session<Endpoint> = Session::new();
    assert_eq!(empty.dots, 1);
    let expected = [2, 3, 1, 2, 3, 1];
    for want in expected {
        empty.handle_event(AppEvent::Tick);
        assert_eq!(empty.dots, want);
    }

    let mut populated: Session<Endpoint> = Session::new();
    populated.handle_event(AppEvent::NewItem(
        endpoint_from_info(raw_endpoint("X", Some("10.0.0.9"), Some("9300"))).unwrap(),
    ));
    for want in expected {
        populated.handle_event(AppEvent::Tick);
        assert_eq!(populated.dots, want);
    }
    assert_eq!(populated.list.len(), 1);
}

#[test]
fn confirm_without_selection_does_nothing() {
    let mut session: Session<Endpoint> = Session::new();
    let act = session.handle_event(AppEvent::Confirm);
    assert!(matches!(act, SessionAction::Nothing));
    session.handle_event(AppEvent::NewItem(
        endpoint_from_info(raw_endpoint("X", Some("10.0.0.9"), Some("9300"))).unwrap(),
    ));
    // insertion alone never sets the cursor
    let act = session.handle_event(AppEvent::Confirm);
    assert!(matches!(act, SessionAction::Nothing));
}

#[test]
fn quit_resize_and_failure_events() {
    let mut session: Session<Endpoint> = Session::new();
    assert!(matches!(
        session.handle_event(AppEvent::Quit),
        SessionAction::Quit
    ));
    assert!(matches!(
        session.handle_event(AppEvent::Resize),
        SessionAction::Redraw
    ));
    let act = session.handle_event(AppEvent::Error("broken pipe".to_string()));
    let SessionAction::Fatal(m) = act else {
        panic!("a read failure must abort the loop");
    };
    assert_eq!(m, "broken pipe");
}

#[test]
fn keyboard_mapping_table() {
    let up = |i: TermInput| matches!(map_input::<Endpoint>(i), Some(AppEvent::Up));
    let down = |i: TermInput| matches!(map_input::<Endpoint>(i), Some(AppEvent::Down));
    assert!(up(TermInput::PressUp));
    assert!(up(TermInput::Press('k', false)));
    assert!(up(TermInput::Press('k', true)));
    assert!(down(TermInput::PressDown));
    assert!(down(TermInput::Press('j', false)));
    assert!(matches!(
        map_input::<Endpoint>(TermInput::PressEnter),
        Some(AppEvent::Confirm)
    ));
    assert!(matches!(
        map_input::<Endpoint>(TermInput::Press('q', false)),
        Some(AppEvent::Quit)
    ));
    assert!(matches!(
        map_input::<Endpoint>(TermInput::Press('q', true)),
        Some(AppEvent::Quit)
    ));
    assert!(matches!(
        map_input::<Endpoint>(TermInput::Press('c', true)),
        Some(AppEvent::Quit)
    ));
    assert!(map_input::<Endpoint>(TermInput::Press('c', false)).is_none());
    assert!(map_input::<Endpoint>(TermInput::Press('x', false)).is_none());
    assert!(matches!(
        map_input::<Endpoint>(TermInput::WindowResize),
        Some(AppEvent::Resize)
    ));
    match map_input::<Endpoint>(TermInput::ReadFailure("io down".to_string())) {
        Some(AppEvent::Error(m)) => assert_eq!(m, "io down"),
        _ => panic!("a read failure must surface as an error event"),
    }
    assert!(map_input::<Endpoint>(TermInput::Other).is_none());
}

#[test]
fn identity_is_by_id_alone() {
    let a = endpoint_from_info(RawEndpoint {
        id: "peer".to_string(),
        name: Some("one".to_string()),
        fullname: "one.local".to_string(),
        ip: Some("10.0.0.1".to_string()),
        port: Some("80".to_string()),
    })
    .unwrap();
    let b = endpoint_from_info(RawEndpoint {
        id: "peer".to_string(),
        name: Some("two".to_string()),
        fullname: "two.local".to_string(),
        ip: Some("10.0.0.2".to_string()),
        port: Some("81".to_string()),
    })
    .unwrap();
    assert_eq!(a, b);
    let r1 = request_from_message(consent_message("r"));
    let mut other = consent_message("r");
    other.source_name = Some("somebody".to_string());
    let r2 = request_from_message(other);
    assert_eq!(r1.unwrap(), r2.unwrap());
}

#[test]
fn display_names_fall_back() {
    let mut e = endpoint_from_info(raw_endpoint("e", Some("10.0.0.1"), Some("80"))).unwrap();
    assert_eq!(e.name(), "e.local");
    e.name = Some("announced".to_string());
    assert_eq!(e.name(), "announced");

    let with_meta = TransferRequest {
        id: "r1".to_string(),
        source_name: Some("alice".to_string()),
        meta_id: None,
    };
    assert_eq!(with_meta.sender_name(), "alice");
    let without_meta = TransferRequest {
        id: "r2".to_string(),
        source_name: None,
        meta_id: None,
    };
    assert_eq!(without_meta.sender_name(), "r2");
}

#[test]
fn decisions_address_the_metadata_id() {
    let req = request_from_message(consent_message("r")).unwrap();
    let accept = req.accept_decision();
    assert_eq!(accept.id, "meta-r");
    assert!(matches!(accept.direction, Direction::FrontToLib));
    assert!(matches!(accept.action, DecisionAction::AcceptTransfer));
    let reject = req.reject_decision();
    assert_eq!(reject.id, "meta-r");
    assert!(matches!(reject.direction, Direction::FrontToLib));
    assert!(matches!(reject.action, DecisionAction::RejectTransfer));
}

#[test]
fn send_submission_joins_the_address() {
    let e = Endpoint {
        id: "peer".to_string(),
        name: None,
        fullname: "peer.local".to_string(),
        ip: "10.0.0.5".to_string(),
        port: "8080".to_string(),
    };
    let files = vec![
        File {
            path: "/tmp/a.txt".to_string(),
        },
        File {
            path: "/tmp/b.txt".to_string(),
        },
    ];
    let s = e.send_submission(&files);
    assert_eq!(s.id, "peer");
    assert_eq!(s.name, "peer.local");
    assert_eq!(s.addr, "10.0.0.5:8080");
    assert_eq!(s.file_paths, vec!["/tmp/a.txt", "/tmp/b.txt"]);
}

#[test]
fn device_name_falls_back_to_placeholder() {
    assert_eq!(fallback_device_name(None), "Unknown");
    assert_eq!(
        fallback_device_name(Some("workstation".to_string())),
        "workstation"
    );
    // the live lookup composes with the fallback without failing
    let _name = oxidrop::host::device_name();
}

#[test]
fn errors_describe_themselves() {
    assert_eq!(Error::CorruptedState.describe(), "Internal state corrupted");
    assert_eq!(
        Error::Other("engine refused".to_string()).describe(),
        "Unknown error: engine refused"
    );
}
