use wemo::addr::Ipv4Addr;
use wemo::error::WemoError;
use wemo::state::WemoState;
use wemo::subscriptions::{
    subscribe_request, NotificationType, Subscription, Subscriptions, RENEWAL_PERIOD_SEC,
};

#[test]
fn test_send_subscribe() {
    let port: u16 = 9600;
    let host = format!("localhost:{}", port);
    let local_ip = Ipv4Addr::new(127, 0, 0, 1);
    let buf = subscribe_request(local_ip, &host, 600, 8080);

    let expected = format!("\
      SUBSCRIBE /upnp/event/basicevent1 HTTP/1.1\r\n\
      CALLBACK: <http://127.0.0.1:8080/?from=localhost:{}>\r\n\
      NT: upnp:event\r\n\
      TIMEOUT: Second-600\r\n\
      Host: localhost:{}\r\n\
      \r\n",
        port,
        port);

    assert_eq!(buf, expected);
}

#[test]
fn a_new_table_is_empty_and_idle() {
    let subs: Subscriptions<u32> = Subscriptions::new(3000, 60);
    assert_eq!(subs.len(), 0);
    assert_eq!(subs.callback_port(), 3000);
    assert_eq!(subs.subscription_ttl_sec(), 60);
    assert!(!subs.is_serving());
    assert!(!subs.is_polling());
    assert!(!subs.is_subscribed("192.168.1.4:49153"));
}

#[test]
fn subscribing_registers_the_callback_once_the_request_is_sent() {
    let mut subs: Subscriptions<u32> = Subscriptions::new(3000, 60);
    assert!(subs.subscribe("192.168.1.4:49153", 7, Ok(())).is_ok());
    assert!(subs.is_subscribed("192.168.1.4:49153"));
    assert_eq!(subs.len(), 1);
    let d = subs.dispatch(Some("192.168.1.4:49153"), Ok(WemoState::On)).unwrap();
    assert_eq!(*d.callback, 7);
}

#[test]
fn a_failed_send_registers_nothing() {
    let mut subs: Subscriptions<u32> = Subscriptions::new(3000, 60);
    let sent = Err(WemoError::from(std::io::Error::new(std::io::ErrorKind::Other, "refused")));
    assert!(matches!(subs.subscribe("192.168.1.4:49153", 7, sent), Err(WemoError::IoError { .. })));
    assert!(matches!(subs.subscribe("192.168.1.4:49153", 7, Err(WemoError::NoLocalIp)), Err(WemoError::NoLocalIp)));
    assert!(!subs.is_subscribed("192.168.1.4:49153"));
    assert_eq!(subs.len(), 0);
}

#[test]
fn subscribing_again_replaces_the_callback() {
    let mut subs: Subscriptions<u32> = Subscriptions::new(3000, 60);
    subs.subscribe("a:1", 1, Ok(())).unwrap();
    subs.subscribe("b:1", 2, Ok(())).unwrap();
    subs.subscribe("a:1", 3, Ok(())).unwrap();
    assert_eq!(subs.len(), 2);
    assert_eq!(*subs.dispatch(Some("a:1"), Ok(WemoState::On)).unwrap().callback, 3);
    assert_eq!(*subs.dispatch(Some("b:1"), Ok(WemoState::On)).unwrap().callback, 2);
}

#[test]
fn unsubscribing_removes_only_that_host() {
    let mut subs: Subscriptions<u32> = Subscriptions::new(3000, 60);
    subs.subscribe("a:1", 1, Ok(())).unwrap();
    subs.subscribe("b:1", 2, Ok(())).unwrap();
    subs.subscribe("c:1", 3, Ok(())).unwrap();
    assert!(subs.unsubscribe("b:1").is_ok());
    assert!(!subs.is_subscribed("b:1"));
    assert!(subs.is_subscribed("a:1"));
    assert!(subs.is_subscribed("c:1"));
    assert_eq!(subs.len(), 2);
    assert!(subs.unsubscribe("b:1").is_ok());
    assert!(subs.unsubscribe("never").is_ok());
    assert_eq!(subs.len(), 2);
    assert!(subs.dispatch(Some("b:1"), Ok(WemoState::On)).is_none());
    assert_eq!(*subs.dispatch(Some("c:1"), Ok(WemoState::On)).unwrap().callback, 3);
}

#[test]
fn a_notification_goes_to_the_callback_of_its_host() {
    let mut subs: Subscriptions<&'static str> = Subscriptions::new(3000, 60);
    subs.subscribe("192.168.1.4:49153", "kitchen", Ok(())).unwrap();
    subs.subscribe("192.168.1.5:49153", "hall", Ok(())).unwrap();
    let body = "<e:propertyset><e:property><BinaryState>1</BinaryState></e:property></e:propertyset>";
    let d = subs.notification(Some("192.168.1.5:49153"), body).unwrap();
    assert_eq!(*d.callback, "hall");
    assert_eq!(d.notification.subscription_key, "192.168.1.5:49153");
    assert_eq!(d.notification.notification_type, NotificationType::State { state: WemoState::On });
}

#[test]
fn a_notification_for_an_unregistered_host_reaches_no_callback() {
    let mut subs: Subscriptions<u32> = Subscriptions::new(3000, 60);
    subs.subscribe("192.168.1.4:49153", 1, Ok(())).unwrap();
    let body = "<BinaryState>1</BinaryState>";
    assert!(subs.notification(Some("192.168.1.9:49153"), body).is_none());
    assert!(subs.notification(Some(""), body).is_none());
    assert!(subs.notification(None, body).is_none());
}

#[test]
fn a_notification_without_a_state_reaches_no_callback() {
    let mut subs: Subscriptions<u32> = Subscriptions::new(3000, 60);
    subs.subscribe("192.168.1.4:49153", 1, Ok(())).unwrap();
    assert!(subs.notification(Some("192.168.1.4:49153"), "").is_none());
    assert!(subs.notification(Some("192.168.1.4:49153"), "<TimeZone>1</TimeZone>").is_none());
    assert!(subs.notification(Some("192.168.1.4:49153"), "<BinaryState>x</BinaryState>").is_none());
    assert!(subs.dispatch(Some("192.168.1.4:49153"), Err(WemoError::ParsingError)).is_none());
}

#[test]
fn a_notification_with_telemetry_carries_the_leading_code_only() {
    let mut subs: Subscriptions<u32> = Subscriptions::new(3000, 60);
    subs.subscribe("192.168.1.4:49153", 1, Ok(())).unwrap();
    let d = subs.notification(Some("192.168.1.4:49153"), "<BinaryState>2|999|1</BinaryState>").unwrap();
    assert_eq!(d.notification.notification_type, NotificationType::State { state: WemoState::Unknown(2) });
}

#[test]
fn an_entry_without_callback_gets_no_dispatch() {
    let mut subs: Subscriptions<u32> = Subscriptions::new(3000, 60);
    subs.register_subscription(Subscription { host: "a:1".to_string(), callback: None });
    assert!(subs.is_subscribed("a:1"));
    assert!(subs.dispatch(Some("a:1"), Ok(WemoState::On)).is_none());
    subs.register_subscription(Subscription { host: "a:1".to_string(), callback: Some(4) });
    assert_eq!(subs.len(), 1);
    assert_eq!(*subs.dispatch(Some("a:1"), Ok(WemoState::Off)).unwrap().callback, 4);
}

#[test]
fn starting_the_server_is_idempotent() {
    let mut subs: Subscriptions<u32> = Subscriptions::new(3000, 60);
    assert_eq!(subs.start_server(), Some("0.0.0.0:3000".to_string()));
    assert!(matches!(subs.server_started(true), Ok(true)));
    assert!(subs.is_serving());
    assert!(subs.is_polling());
    assert_eq!(subs.start_server(), None);
}

#[test]
fn a_server_that_cannot_listen_is_not_started() {
    let mut subs: Subscriptions<u32> = Subscriptions::new(65535, 60);
    assert_eq!(subs.start_server(), Some("0.0.0.0:65535".to_string()));
    assert!(matches!(subs.server_started(false), Err(WemoError::IronError)));
    assert!(!subs.is_serving());
    assert!(!subs.is_polling());
    assert_eq!(subs.start_server(), Some("0.0.0.0:65535".to_string()));
}

#[test]
fn stopping_the_server_is_idempotent() {
    let mut subs: Subscriptions<u32> = Subscriptions::new(3000, 60);
    assert!(!subs.stop_server());
    subs.server_started(true).unwrap();
    assert!(subs.stop_server());
    assert!(!subs.is_polling());
    assert!(subs.is_serving());
    assert!(matches!(subs.server_stopped(false), Err(WemoError::IronError)));
    assert!(subs.is_serving());
    assert!(subs.server_stopped(true).is_ok());
    assert!(!subs.is_serving());
    assert!(!subs.stop_server());
}

#[test]
fn the_renewal_loop_is_launched_once() {
    let mut subs: Subscriptions<u32> = Subscriptions::new(3000, 60);
    assert!(subs.start_polling());
    assert!(subs.is_polling());
    assert!(!subs.start_polling());
    subs.stop_polling();
    assert!(!subs.is_polling());
    assert!(subs.start_polling());
    assert_eq!(RENEWAL_PERIOD_SEC, 30);
}

#[test]
fn renewal_sends_a_request_to_every_host() {
    let mut subs: Subscriptions<u32> = Subscriptions::new(8080, 600);
    assert!(subs.renewal_requests(Ipv4Addr::new(10, 0, 0, 2)).is_empty());
    subs.subscribe("192.168.1.4:49153", 1, Ok(())).unwrap();
    subs.subscribe("192.168.1.5:49154", 2, Ok(())).unwrap();
    let requests = subs.renewal_requests(Ipv4Addr::new(10, 0, 0, 2));
    assert_eq!(requests.len(), 2);
    assert_eq!(requests[0].0, "192.168.1.4:49153");
    assert_eq!(requests[0].1, "SUBSCRIBE /upnp/event/basicevent1 HTTP/1.1\r\nCALLBACK: <http://10.0.0.2:8080/?from=192.168.1.4:49153>\r\nNT: upnp:event\r\nTIMEOUT: Second-600\r\nHost: 192.168.1.4:49153\r\n\r\n");
    assert_eq!(requests[1].0, "192.168.1.5:49154");
    assert_eq!(requests[1].1, subscribe_request(Ipv4Addr::new(10, 0, 0, 2), "192.168.1.5:49154", 600, 8080));
}
