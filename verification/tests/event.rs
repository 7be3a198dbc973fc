use carillon_core::event::{CarillonEvent, CarillonSource};

#[test]
fn source_wire_names() {
    assert_eq!(CarillonSource::Imap.as_str(), "imap");
    assert_eq!(CarillonSource::CardDav.as_str(), "carddav");
}

#[test]
fn event_new_keeps_every_part() {
    let event = CarillonEvent::new(
        "id-1".to_string(),
        1_725_029_869,
        "work".to_string(),
        CarillonSource::Imap,
        "INBOX".to_string(),
        Some("7:42".to_string()),
    );
    assert_eq!(event.id, "id-1");
    assert_eq!(event.ts, 1_725_029_869);
    assert_eq!(event.account, "work");
    assert_eq!(event.source, CarillonSource::Imap);
    assert_eq!(event.target, "INBOX");
    assert_eq!(event.state.as_deref(), Some("7:42"));
}
