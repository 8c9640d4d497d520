use p2pchat::types::{Contact, DiscoveryType, FriendRequestType, MessageStatus, Name, NameType, UnknownDiscriminant, HTTP_TRACKER};

#[test]
fn discovery_type_codes() {
    assert_eq!(DiscoveryType::Mdns.to_u8(), 0);
    assert_eq!(DiscoveryType::Tracker.to_u8(), 1);
    assert_eq!(DiscoveryType::You.to_u8(), 2);
    assert_eq!(DiscoveryType::try_from_primitive(1), Ok(DiscoveryType::Tracker));
    assert_eq!(DiscoveryType::try_from_primitive(3), Err(UnknownDiscriminant { number: 3 }));
}

#[test]
fn message_status_codes() {
    for (n, s) in [
        (0u8, MessageStatus::ReceivedNotRead),
        (1, MessageStatus::ReceivedRead),
        (2, MessageStatus::SentOffNotRead),
        (3, MessageStatus::SentOffRead),
    ] {
        assert_eq!(s.to_u8(), n);
        assert_eq!(MessageStatus::try_from_primitive(n), Ok(s));
    }
    assert_eq!(MessageStatus::try_from_primitive(4), Err(UnknownDiscriminant { number: 4 }));
}

#[test]
fn friend_request_and_name_type_codes() {
    assert_eq!(FriendRequestType::Incoming.to_u8(), 0);
    assert_eq!(FriendRequestType::Outgoing.to_u8(), 1);
    assert_eq!(FriendRequestType::try_from_primitive(0), Ok(FriendRequestType::Incoming));
    assert_eq!(FriendRequestType::try_from_primitive(2), Err(UnknownDiscriminant { number: 2 }));
    assert_eq!(NameType::try_from_primitive(NameType::Provided.to_u8()), Ok(NameType::Provided));
    assert_eq!(NameType::try_from_primitive(NameType::Central.to_u8()), Ok(NameType::Central));
    assert_eq!(NameType::try_from_primitive(200), Err(UnknownDiscriminant { number: 200 }));
}

#[test]
fn every_code_roundtrips() {
    for n in 0u8..=255 {
        if let Ok(d) = DiscoveryType::try_from_primitive(n) {
            assert_eq!(d.to_u8(), n);
        }
        if let Ok(s) = MessageStatus::try_from_primitive(n) {
            assert_eq!(s.to_u8(), n);
        }
    }
}

#[test]
fn display_name_prefers_central_name() {
    let both = Contact {
        peer_id: "p".to_string(),
        central_name: Some(Name { content: "central".to_string(), ttl: 0 }),
        provided_name: Some(Name { content: "provided".to_string(), ttl: 0 }),
        channel_id: 1,
    };
    assert_eq!(both.display_name(), Some("central".to_string()));
    let provided = Contact { central_name: None, ..both.clone() };
    assert_eq!(provided.display_name(), Some("provided".to_string()));
    let none = Contact { provided_name: None, ..provided };
    assert_eq!(none.display_name(), None);
}

#[test]
fn tracker_address() {
    assert_eq!(HTTP_TRACKER, "127.0.0.1:8000");
}
