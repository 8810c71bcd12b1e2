use anal::ports::{client_name, is_own_port, AnalNotifHandler, PortEvent, PortLookup, ANAL_JACK_CLIENT_NAME};

#[test]
fn client_name_is_text_before_first_colon() {
    assert_eq!(client_name("system:capture_1"), "system");
    assert_eq!(client_name("a:b:c"), "a");
}

#[test]
fn client_name_without_colon_is_whole_name() {
    assert_eq!(client_name("lonely"), "lonely");
    assert_eq!(client_name(""), "");
}

#[test]
fn client_name_of_leading_colon_is_empty() {
    assert_eq!(client_name(":port"), "");
}

#[test]
fn client_name_handles_non_ascii() {
    assert_eq!(client_name("héllo:in"), "héllo");
}

#[test]
fn own_ports_are_recognised() {
    assert_eq!(ANAL_JACK_CLIENT_NAME, "anal");
    assert!(is_own_port("anal:in_1"));
    assert!(is_own_port("anal:in_2"));
    assert!(is_own_port("anal"));
}

#[test]
fn other_ports_are_not_own() {
    assert!(!is_own_port("system:capture_1"));
    assert!(!is_own_port("analyzer:in"));
    assert!(!is_own_port("ana:in"));
    assert!(!is_own_port("system:anal"));
    assert!(!is_own_port(""));
}

#[test]
fn deregistration_is_ignored() {
    let h = AnalNotifHandler;
    let e = h.port_registration(false, PortLookup::Named("anal:in_1".to_string()));
    assert!(matches!(e, PortEvent::Deregistered));
}

#[test]
fn missing_port_is_reported() {
    let h = AnalNotifHandler;
    assert!(matches!(h.port_registration(true, PortLookup::Missing), PortEvent::Missing));
}

#[test]
fn unreadable_name_is_reported() {
    let h = AnalNotifHandler;
    let e = h.port_registration(true, PortLookup::NameUnavailable("gone".to_string()));
    match e {
        PortEvent::NameUnavailable(why) => assert_eq!(why, "gone"),
        _ => panic!("expected an unreadable name"),
    }
}

#[test]
fn new_own_port_is_marked() {
    let h = AnalNotifHandler;
    match h.port_registration(true, PortLookup::Named("anal:in_2".to_string())) {
        PortEvent::NewPort { name, own } => {
            assert_eq!(name, "anal:in_2");
            assert!(own);
        }
        _ => panic!("expected a new port"),
    }
}

#[test]
fn new_foreign_port_is_not_marked() {
    let h = AnalNotifHandler;
    match h.port_registration(true, PortLookup::Named("system:playback_1".to_string())) {
        PortEvent::NewPort { name, own } => {
            assert_eq!(name, "system:playback_1");
            assert!(!own);
        }
        _ => panic!("expected a new port"),
    }
}
