use fairy_ring::config::{contains_i64, get_config, Config, ConfigCell, ConfigError, Matrix, QQ};
use fairy_ring::decimal::{i64_to_decimal, parse_i64};
use fairy_ring::forward::{
    group_event_message, qq_text, registration_result, route_matrix_event,
    Delivery, DeliveryAction, DeliveryError, DeliveryEvent, DeliveryStage, MatrixEventKind,
    MatrixRoute, RegistrationOutcome,
};
use fairy_ring::ids::{
    is_virtual_localpart, match_room_localpart, room_alias, room_alias_localpart,
    virtual_user_name, RoomMatch,
};
use fairy_ring::login::{LoginAction, LoginError, LoginEvent, LoginMachine, LoginPhase, QrStatus};
use fairy_ring::media::{attachment_mime, AttachmentError};
use fairy_ring::membership::groups_not_joined;
use fairy_ring::message::{normalize_elements, QQElement, QQMessageType};

fn text(s: &str) -> QQElement {
    QQElement::Text(s.to_string())
}

fn seg_text(m: &QQMessageType) -> Option<&str> {
    match m {
        QQMessageType::Text(t) => Some(t.as_str()),
        QQMessageType::Img(_) => None,
    }
}

fn seg_img(m: &QQMessageType) -> Option<&str> {
    match m {
        QQMessageType::Img(u) => Some(u.as_str()),
        QQMessageType::Text(_) => None,
    }
}

fn qq(groups: Vec<i64>) -> QQ {
    QQ { groups }
}

#[test]
fn decimal_text_of_integers() {
    assert_eq!(i64_to_decimal(0), "0");
    assert_eq!(i64_to_decimal(123), "123");
    assert_eq!(i64_to_decimal(-45), "-45");
    assert_eq!(i64_to_decimal(i64::MAX), i64::MAX.to_string());
    assert_eq!(i64_to_decimal(i64::MIN), i64::MIN.to_string());
}

#[test]
fn parse_integers() {
    assert_eq!(parse_i64("123"), Some(123));
    assert_eq!(parse_i64("-9223372036854775808"), Some(i64::MIN));
    assert_eq!(parse_i64("9223372036854775807"), Some(i64::MAX));
    assert_eq!(parse_i64("9223372036854775808"), None);
    assert_eq!(parse_i64("-9223372036854775809"), None);
    assert_eq!(parse_i64("+7"), Some(7));
    assert_eq!(parse_i64("007"), Some(7));
    assert_eq!(parse_i64(""), None);
    assert_eq!(parse_i64("-"), None);
    assert_eq!(parse_i64("12a"), None);
    assert_eq!(parse_i64("99999999999999999999999"), None);
}

#[test]
fn virtual_user_names() {
    assert_eq!(virtual_user_name(555), "_qq_555");
    assert_eq!(virtual_user_name(-3), "_qq_-3");
    assert_ne!(virtual_user_name(12), virtual_user_name(-12));
    assert_ne!(virtual_user_name(1), virtual_user_name(10));
}

#[test]
fn room_aliases() {
    assert_eq!(room_alias(123, "example.org"), "#_qq_123:example.org");
    assert_eq!(room_alias_localpart(-7), "_qq_-7");
}

#[test]
fn room_alias_round_trip() {
    for g in [0i64, 1, 123, -123, i64::MAX, i64::MIN] {
        let alias = room_alias(g, "hs.example");
        let localpart = alias.strip_prefix('#').unwrap().strip_suffix(":hs.example").unwrap();
        assert_eq!(match_room_localpart(localpart), RoomMatch::Group(g));
        assert_eq!(localpart.strip_prefix("_qq_").unwrap().parse::<i64>().unwrap(), g);
    }
}

#[test]
fn room_localpart_matching() {
    assert_eq!(match_room_localpart("general"), RoomMatch::NotBridged);
    assert_eq!(match_room_localpart("_qq_abc"), RoomMatch::BadGroupId);
    assert_eq!(match_room_localpart("_qq_"), RoomMatch::BadGroupId);
    assert_eq!(match_room_localpart("_qq_42"), RoomMatch::Group(42));
}

#[test]
fn virtual_namespace() {
    assert!(is_virtual_localpart("_qq_555"));
    assert!(!is_virtual_localpart("alice"));
    assert!(!is_virtual_localpart("_qq"));
}

#[test]
fn adjacent_text_merges_and_image_breaks_run() {
    let elems = vec![
        text("a"),
        text("b"),
        QQElement::GroupImage("http://img/x".to_string()),
        text("c"),
    ];
    let segs = normalize_elements(&elems);
    assert_eq!(segs.len(), 3);
    assert_eq!(seg_text(&segs[0]), Some("ab"));
    assert_eq!(seg_img(&segs[1]), Some("http://img/x"));
    assert_eq!(seg_text(&segs[2]), Some("c"));
}

#[test]
fn empty_or_unsupported_events_give_nothing() {
    assert_eq!(normalize_elements(&vec![]).len(), 0);
    let only_unsupported = vec![QQElement::Unsupported, QQElement::Unsupported];
    assert_eq!(normalize_elements(&only_unsupported).len(), 0);
    let q = qq(vec![123]);
    assert!(group_event_message(&q, 123, 555, String::new(), &vec![]).is_none());
    assert!(group_event_message(&q, 123, 555, String::new(), &only_unsupported).is_none());
}

#[test]
fn faces_and_unsupported_elements_keep_the_run() {
    let elems = vec![
        text("hi "),
        QQElement::Unsupported,
        QQElement::Face("smile".to_string()),
        QQElement::MarketFace("cat".to_string()),
        QQElement::GroupImage("u1".to_string()),
        QQElement::GroupImage("u2".to_string()),
    ];
    let segs = normalize_elements(&elems);
    assert_eq!(segs.len(), 3);
    assert_eq!(seg_text(&segs[0]), Some("hi [smile][表情:cat]"));
    assert_eq!(seg_img(&segs[1]), Some("u1"));
    assert_eq!(seg_img(&segs[2]), Some("u2"));
}

#[test]
fn events_of_other_groups_are_dropped() {
    let q = qq(vec![1, 2]);
    assert!(group_event_message(&q, 3, 555, String::new(), &vec![text("x")]).is_none());
}

#[test]
fn reregistration_is_success() {
    assert_eq!(registration_result(&RegistrationOutcome::UserInUse), Ok(()));
    assert_eq!(registration_result(&RegistrationOutcome::Registered), Ok(()));
    assert_eq!(
        registration_result(&RegistrationOutcome::Failed),
        Err(DeliveryError::RegistrationFailed)
    );
}

#[test]
fn virtual_senders_are_not_echoed() {
    let sender = virtual_user_name(555);
    assert_eq!(route_matrix_event("_qq_123", &sender, MatrixEventKind::Text), MatrixRoute::Ignore);
    assert_eq!(route_matrix_event("_qq_123", &sender, MatrixEventKind::Image), MatrixRoute::Ignore);
}

#[test]
fn matrix_routing() {
    assert_eq!(route_matrix_event("lobby", "alice", MatrixEventKind::Text), MatrixRoute::Ignore);
    assert_eq!(route_matrix_event("_qq_123", "alice", MatrixEventKind::Other), MatrixRoute::Ignore);
    assert_eq!(route_matrix_event("_qq_1x", "alice", MatrixEventKind::Text), MatrixRoute::BadGroupId);
    assert_eq!(route_matrix_event("_qq_123", "alice", MatrixEventKind::Image), MatrixRoute::Forward(123));
}

#[test]
fn login_timeout_requests_new_code() {
    let (mut m, first) = LoginMachine::new();
    assert!(matches!(first, LoginAction::FetchQrcode));
    let a = m.step(LoginEvent::Status(QrStatus::ImageFetch { image: vec![1, 2], sig: vec![9, 9] }));
    assert!(matches!(a, LoginAction::PublishAndPoll { ref image } if image == &vec![1, 2]));
    assert_eq!(m.sig, vec![9, 9]);
    let a = m.step(LoginEvent::Status(QrStatus::WaitingForScan));
    assert!(matches!(a, LoginAction::Poll));
    assert_eq!(m.sig, vec![9, 9]);
    let a = m.step(LoginEvent::Status(QrStatus::Timeout));
    assert!(matches!(a, LoginAction::FetchQrcode));
    assert!(m.sig.is_empty());
    assert_eq!(m.phase, LoginPhase::Polling);
}

#[test]
fn login_cancel_is_fatal() {
    let (mut m, _) = LoginMachine::new();
    let a = m.step(LoginEvent::Status(QrStatus::Canceled));
    assert!(matches!(a, LoginAction::Fail(LoginError::Canceled)));
    assert_eq!(m.phase, LoginPhase::Canceled);
    let a = m.step(LoginEvent::Status(QrStatus::WaitingForConfirm));
    assert!(matches!(a, LoginAction::Fail(LoginError::Canceled)));
    assert_eq!(m.phase, LoginPhase::Canceled);
}

#[test]
fn login_with_device_lock() {
    let (mut m, _) = LoginMachine::new();
    assert!(matches!(m.step(LoginEvent::Status(QrStatus::Confirmed)), LoginAction::Login));
    assert!(matches!(
        m.step(LoginEvent::LoginResponse { device_lock: true }),
        LoginAction::DeviceLockLogin
    ));
    assert!(matches!(m.step(LoginEvent::DeviceLockDone), LoginAction::Done));
    assert_eq!(m.phase, LoginPhase::LoggedIn);
    let (mut m, _) = LoginMachine::new();
    m.step(LoginEvent::Status(QrStatus::Confirmed));
    assert!(matches!(m.step(LoginEvent::LoginResponse { device_lock: false }), LoginAction::Done));
}

#[test]
fn group_text_reaches_room_as_virtual_user() {
    let q = qq(vec![123]);
    let msg = group_event_message(&q, 123, 555, "Bob".to_string(), &vec![text("hello")]).unwrap();
    assert_eq!(msg.group_id, 123);
    assert_eq!(msg.user_id, 555);
    assert_eq!(msg.segments.len(), 1);
    assert_eq!(seg_text(&msg.segments[0]), Some("hello"));
    let (mut d, a) = Delivery::new(msg, "example.org");
    assert_eq!(a, DeliveryAction::Register);
    assert_eq!(d.localpart, "_qq_555");
    assert_eq!(d.room_alias, "#_qq_123:example.org");
    assert_eq!(d.server_name, "example.org");
    assert_eq!(d.step(DeliveryEvent::Registration(RegistrationOutcome::UserInUse)), DeliveryAction::Join);
    assert_eq!(d.step(DeliveryEvent::Joined(true)), DeliveryAction::SetDisplayName);
    assert_eq!(d.step(DeliveryEvent::NameSet(false)), DeliveryAction::SendSegment(0));
    assert_eq!(seg_text(&d.message.segments[0]), Some("hello"));
    assert_eq!(d.step(DeliveryEvent::Sent(true)), DeliveryAction::Finish);
    assert_eq!(d.stage, DeliveryStage::Done);
    assert!(d.failed_segments.is_empty());
}

#[test]
fn segment_failure_does_not_stop_later_segments() {
    let q = qq(vec![7]);
    let elems = vec![text("a"), QQElement::GroupImage("u".to_string()), text("b")];
    let msg = group_event_message(&q, 7, 8, String::new(), &elems).unwrap();
    let (mut d, _) = Delivery::new(msg, "hs");
    d.step(DeliveryEvent::Registration(RegistrationOutcome::Registered));
    d.step(DeliveryEvent::Joined(true));
    assert_eq!(d.step(DeliveryEvent::NameSet(true)), DeliveryAction::SendSegment(0));
    assert_eq!(d.step(DeliveryEvent::Sent(false)), DeliveryAction::SendSegment(1));
    assert_eq!(d.step(DeliveryEvent::Sent(true)), DeliveryAction::SendSegment(2));
    assert_eq!(d.step(DeliveryEvent::Sent(false)), DeliveryAction::Finish);
    assert_eq!(d.failed_segments, vec![0, 2]);
}

#[test]
fn delivery_aborts_on_registration_or_join_failure() {
    let q = qq(vec![7]);
    let msg = group_event_message(&q, 7, 8, String::new(), &vec![text("a")]).unwrap();
    let (mut d, _) = Delivery::new(msg.clone(), "hs");
    assert_eq!(
        d.step(DeliveryEvent::Registration(RegistrationOutcome::Failed)),
        DeliveryAction::Abort(DeliveryError::RegistrationFailed)
    );
    let (mut d, _) = Delivery::new(msg, "hs");
    d.step(DeliveryEvent::Registration(RegistrationOutcome::Registered));
    assert_eq!(d.step(DeliveryEvent::Joined(false)), DeliveryAction::Abort(DeliveryError::JoinFailed));
    assert_eq!(d.stage, DeliveryStage::Aborted(DeliveryError::JoinFailed));
}

#[test]
fn chat_text_reaches_group_with_sender_prefix() {
    let sender = "@alice:example.org";
    let route = route_matrix_event("_qq_123", "alice", MatrixEventKind::Text);
    assert_eq!(route, MatrixRoute::Forward(123));
    assert_eq!(qq_text(sender, "hi"), "@alice:example.org: hi");
}

#[test]
fn reconciliation_reports_missing_groups() {
    assert_eq!(groups_not_joined(&vec![1, 2, 3], &vec![1, 3]), vec![2]);
    assert_eq!(groups_not_joined(&vec![1, 2, 3], &vec![]), vec![1, 2, 3]);
    assert_eq!(groups_not_joined(&vec![], &vec![1]), Vec::<i64>::new());
    assert!(contains_i64(&vec![4, 5], 5));
}

#[test]
fn config_is_set_once() {
    let mut cell = ConfigCell::new();
    assert_eq!(get_config(&cell).err(), Some(ConfigError::NotInitialized));
    let config = Config {
        qq: qq(vec![1]),
        matrix: Matrix { homeserver_name: "a.org".to_string(), homeserver_url: "http://a".to_string() },
    };
    assert_eq!(cell.init(config.clone()), Ok(()));
    let mut second = config.clone();
    second.matrix.homeserver_name = "b.org".to_string();
    assert_eq!(cell.init(second), Err(ConfigError::AlreadyInitialized));
    assert_eq!(get_config(&cell).unwrap().homeserver_name, "a.org");
    assert!(cell.get().unwrap().qq.is_bridged(1));
    assert!(!cell.get().unwrap().qq.is_bridged(2));
}

#[test]
fn attachment_types() {
    assert_eq!(attachment_mime(None).err(), Some(AttachmentError::MissingContentType));
    assert_eq!(attachment_mime(Some("not a type")).err(), Some(AttachmentError::InvalidContentType));
    let m = attachment_mime(Some("image/png")).unwrap();
    assert_eq!(m.essence_str(), "image/png");
}
