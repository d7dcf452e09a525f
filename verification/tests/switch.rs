use wemo::addr::Ipv4Addr;
use wemo::error::WemoError;
use wemo::location::UrlParts;
use wemo::retry::{
    after_first_attempt, after_relocation, after_second_attempt, first_step, RetryStep,
    FIRST_ATTEMPT_TIMEOUT,
};
use wemo::soap::{SoapClient, SoapRequest, SoapStep};
use wemo::ssdp::SsdpResponse;
use wemo::state::WemoState;
use wemo::switch::{DeviceIdentifier, RelocationTarget, Switch, DEFAULT_API_PORT};

fn ip(ip_address: &str) -> Ipv4Addr {
    Ipv4Addr::parse(ip_address).unwrap()
}

#[test]
fn test_get_ip_address_with_static_ip() {
    let switch = Switch::from_static_ip(ip("127.0.0.1"));
    assert_eq!(Some(ip("127.0.0.1")), switch.get_ip_address());
}

#[test]
fn test_get_ip_address_with_dynamic_ip() {
    let switch = Switch {
        device_identifier: DeviceIdentifier::Dynamic, // no static IP
        dynamic_ip_address: Some(ip("1.1.1.1")),
        port: None,
        serial_number: None,
    };

    assert_eq!(Some(ip("1.1.1.1")), switch.get_ip_address());

    // If it were to have a static and dynamic IP (not allowed), the static IP
    // is the one that is returned.
    let switch = Switch {
        device_identifier: DeviceIdentifier::StaticIp(ip("2.2.2.2")),
        dynamic_ip_address: Some(ip("3.3.3.3")),
        port: None,
        serial_number: None,
    };

    assert_eq!(Some(ip("2.2.2.2")), switch.get_ip_address());
}

#[test]
fn test_get_ip_address_with_no_ip() {
    let switch = Switch {
        device_identifier: DeviceIdentifier::Dynamic,
        dynamic_ip_address: None,
        port: None,
        serial_number: None,
    };

    assert_eq!(None, switch.get_ip_address());
}

#[test]
fn test_get_port_with_port_set() {
    let switch = Switch::from_static_ip(ip("1.1.1.1"));
    assert_eq!(None, switch.get_port());
}

#[test]
fn test_get_port_without_port_set() {
    let switch = Switch::from_static_ip_and_port(ip("1.1.1.1"), 1234);
    assert_eq!(Some(1234), switch.get_port());
}

#[test]
fn test_update_location_with_static_ip() {
    let mut switch = Switch::from_static_ip_and_port(ip("1.1.1.1"), 1111);
    let found = Switch::from_static_ip_and_port(ip("2.2.2.2"), 2222);

    switch.update_location(&found);

    // Port updates.
    assert_eq!(Some(2222), switch.get_port());
    // Static IPs do not get updated, though!
    assert_eq!(Some(ip("1.1.1.1")), switch.get_ip_address());
}

#[test]
fn test_update_location_with_dynamic_ip() {
    let mut switch = Switch {
        device_identifier: DeviceIdentifier::Dynamic,
        dynamic_ip_address: None,
        port: None,
        serial_number: None,
    };

    let found = Switch::from_static_ip_and_port(ip("2.2.2.2"), 2222);

    switch.update_location(&found);

    // Port and IP address are updated.
    assert_eq!(Some(2222), switch.get_port());
    assert_eq!(Some(ip("2.2.2.2")), switch.get_ip_address());
}

#[test]
fn constructors_set_identity_address_and_port() {
    let s = Switch::from_dynamic_ip(ip("10.0.0.1"));
    assert_eq!(s.device_identifier, DeviceIdentifier::Dynamic);
    assert_eq!(s.get_ip_address(), Some(ip("10.0.0.1")));
    assert_eq!(s.get_port(), None);
    assert!(s.serial_number.is_none());
    let s = Switch::from_dynamic_ip_and_port(ip("10.0.0.1"), 49154);
    assert_eq!(s.get_ip_address(), Some(ip("10.0.0.1")));
    assert_eq!(s.get_port(), Some(49154));
    let s = Switch::from_ip_and_port("10.0.0.2", 49155);
    assert_eq!(s.device_identifier, DeviceIdentifier::Dynamic);
    assert_eq!(s.get_ip_address(), Some(ip("10.0.0.2")));
    assert_eq!(s.get_port(), Some(49155));
    let s = Switch::from_static_ip(ip("10.0.0.3"));
    assert_eq!(s.device_identifier, DeviceIdentifier::StaticIp(ip("10.0.0.3")));
    assert_eq!(s.dynamic_ip_address, None);
}

#[test]
fn a_switch_from_a_url_takes_its_host_and_port() {
    let s = Switch::from_url("http://192.168.1.4:49153/setup.xml").unwrap();
    assert_eq!(s.device_identifier, DeviceIdentifier::Dynamic);
    assert_eq!(s.get_ip_address(), Some(ip("192.168.1.4")));
    assert_eq!(s.get_port(), Some(49153));
    assert!(s.serial_number.is_none());
    let s = Switch::from_url("http://wemo.local/setup.xml").unwrap();
    assert_eq!(s.get_ip_address(), None);
    assert_eq!(s.get_port(), None);
    assert!(Switch::from_url("no url at all").is_err());
    let parts = UrlParts { href: "http://1.2.3.4:5/".to_string(), host: Some("1.2.3.4".to_string()), port: Some(5) };
    let s = Switch::new(&parts);
    assert_eq!(s.get_ip_address(), Some(ip("1.2.3.4")));
    assert_eq!(s.get_port(), Some(5));
}

fn answer(serial: &str, address: &str, port: u16) -> SsdpResponse {
    SsdpResponse {
        serial_number: serial.to_string(),
        ip_address: ip(address),
        port,
        setup_url: format!("http://{}:{}/setup.xml", address, port),
    }
}

#[test]
fn a_switch_from_a_search_result_knows_its_serial() {
    let s = Switch::from_search_result(&answer("AAA", "192.168.1.4", 49153));
    assert_eq!(s.device_identifier, DeviceIdentifier::Dynamic);
    assert_eq!(s.get_ip_address(), Some(ip("192.168.1.4")));
    assert_eq!(s.get_port(), Some(49153));
    assert_eq!(s.serial_number, Some("AAA".to_string()));
}

#[test]
fn relocation_keeps_a_static_address_and_moves_the_port() {
    let mut s = Switch::from_static_ip_and_port(ip("1.1.1.1"), 1111);
    let found = s.relocate(Some(&answer("AAA", "2.2.2.2", 2222))).unwrap();
    assert_eq!(found.get_ip_address(), Some(ip("2.2.2.2")));
    assert_eq!(found.get_port(), Some(2222));
    assert_eq!(s.get_ip_address(), Some(ip("1.1.1.1")));
    assert_eq!(s.get_port(), Some(2222));
    assert_eq!(s.device_identifier, DeviceIdentifier::StaticIp(ip("1.1.1.1")));
}

#[test]
fn relocation_moves_a_dynamic_switch() {
    let mut s = Switch::from_dynamic_ip_and_port(ip("1.1.1.1"), 1111);
    assert!(s.relocate(Some(&answer("AAA", "2.2.2.2", 2222))).is_some());
    assert_eq!(s.get_ip_address(), Some(ip("2.2.2.2")));
    assert_eq!(s.get_port(), Some(2222));
    assert!(s.serial_number.is_none());
}

#[test]
fn a_failed_relocation_changes_nothing() {
    let mut s = Switch::from_dynamic_ip_and_port(ip("1.1.1.1"), 1111);
    assert!(s.relocate(None).is_none());
    assert_eq!(s.get_ip_address(), Some(ip("1.1.1.1")));
    assert_eq!(s.get_port(), Some(1111));
}

#[test]
fn relocation_prefers_the_serial_number() {
    let s = Switch::from_search_result(&answer("AAA", "192.168.1.4", 49153));
    assert!(matches!(s.relocation_target(), RelocationTarget::Serial(serial) if serial == "AAA"));
    let s = Switch::from_dynamic_ip(ip("192.168.1.4"));
    assert!(matches!(s.relocation_target(), RelocationTarget::Ip(a) if a == ip("192.168.1.4")));
    let s = Switch::from_static_ip(ip("192.168.1.5"));
    assert!(matches!(s.relocation_target(), RelocationTarget::Ip(a) if a == ip("192.168.1.5")));
    let s = Switch { device_identifier: DeviceIdentifier::Dynamic, dynamic_ip_address: None, port: None, serial_number: None };
    assert!(matches!(s.relocation_target(), RelocationTarget::Nowhere));
}

#[test]
fn location_text() {
    assert_eq!(Switch::from_static_ip_and_port(ip("1.2.3.4"), 80).location(), "Some(1.2.3.4):Some(80)");
    assert_eq!(Switch::from_static_ip(ip("1.2.3.4")).location(), "Some(1.2.3.4):None");
    let s = Switch { device_identifier: DeviceIdentifier::Dynamic, dynamic_ip_address: None, port: None, serial_number: None };
    assert_eq!(s.location(), "None:None");
    assert_eq!(s.to_string(), "Switch<None:None>");
    assert_eq!(Switch::from_dynamic_ip_and_port(ip("10.0.0.1"), 49153).to_string(), "Switch<Some(10.0.0.1):Some(49153)>");
}

#[test]
fn the_endpoint_falls_back_to_the_default_port() {
    assert_eq!(DEFAULT_API_PORT, 49153);
    assert!(matches!(Switch::from_static_ip(ip("1.2.3.4")).endpoint(), Ok((a, 49153)) if a == ip("1.2.3.4")));
    assert!(matches!(Switch::from_dynamic_ip_and_port(ip("1.2.3.4"), 7).endpoint(), Ok((a, 7)) if a == ip("1.2.3.4")));
    let s = Switch { device_identifier: DeviceIdentifier::Dynamic, dynamic_ip_address: None, port: Some(9), serial_number: None };
    assert!(matches!(s.endpoint(), Err(WemoError::NoLocalIp)));
}

#[test]
fn the_get_request() {
    let r = Switch::get_state_request();
    assert_eq!(r.request_path, "/upnp/control/basicevent1");
    assert_eq!(r.soap_action, "urn:Belkin:service:basicevent:1#GetBinaryState");
    assert_eq!(r.http_post_payload, "<?xml version=\"1.0\" encoding=\"utf-8\"?><s:Envelope xmlns:s=\"http://schemas.xmlsoap.org/soap/envelope/\"s:encodingStyle=\"http://schemas.xmlsoap.org/soap/encoding/\"><s:Body><u:GetBinaryState xmlns:u=\"urn:Belkin:service:basicevent:1\"><BinaryState>1</BinaryState></u:GetBinaryState></s:Body></s:Envelope>");
}

#[test]
fn the_set_request_carries_the_state() {
    for (state, code) in [
        (WemoState::Off, "0"),
        (WemoState::On, "1"),
        (WemoState::OnWithoutLoad, "8"),
        (WemoState::Unknown(5), "-1"),
    ] {
        let r = Switch::set_state_request(state);
        assert_eq!(r.request_path, "/upnp/control/basicevent1");
        assert_eq!(r.soap_action, "urn:Belkin:service:basicevent:1#SetBinaryState");
        assert_eq!(r.http_post_payload, format!("<?xml version=\"1.0\" encoding=\"utf-8\"?><s:Envelope xmlns:s=\"http://schemas.xmlsoap.org/soap/envelope/\"s:encodingStyle=\"http://schemas.xmlsoap.org/soap/encoding/\"><s:Body><u:SetBinaryState xmlns:u=\"urn:Belkin:service:basicevent:1\"><BinaryState>{}</BinaryState></u:SetBinaryState></s:Body></s:Envelope>", code));
    }
}

#[test]
fn the_http_text_of_a_request() {
    let r = SoapRequest {
        request_path: "/p".to_string(),
        soap_action: "act".to_string(),
        http_post_payload: "<x>\u{e9}</x>".to_string(),
    };
    assert_eq!(
        r.to_http(),
        "POST /p HTTP/1.1\r\nContent-Type: text/xml; charset=\"utf-8\"\r\nAccept:\r\nSOAPACTION: \"act\"\r\nContent-Length: 9\r\n\r\n<x>\u{e9}</x>"
    );
    let empty = SoapRequest { request_path: String::new(), soap_action: String::new(), http_post_payload: String::new() };
    assert_eq!(
        empty.to_http(),
        "POST  HTTP/1.1\r\nContent-Type: text/xml; charset=\"utf-8\"\r\nAccept:\r\nSOAPACTION: \"\"\r\nContent-Length: 0\r\n\r\n"
    );
}

#[test]
fn one_exchange_of_a_client() {
    let mut client = SoapClient::new();
    assert!(client.write_request().is_none());
    assert_eq!(client.ready(false, false), SoapStep::Wait);
    client.post(Switch::get_state_request());
    assert_eq!(client.ready(false, true), SoapStep::Write);
    assert_eq!(client.write_request(), Some(Switch::get_state_request().to_http()));
    assert!(!client.request_written(false));
    assert!(client.write_request().is_some());
    assert!(client.request_written(true));
    assert!(client.write_request().is_none());
    assert_eq!(client.ready(true, true), SoapStep::Read);
    assert!(!client.read_response(None));
    assert!(client.take_response().is_none());
    assert!(client.read_response(Some("body".to_string())));
    assert_eq!(client.take_response(), Some("body".to_string()));
    assert_eq!(client.take_response(), None);
}

#[test]
fn a_timed_out_exchange_has_no_response() {
    let mut client = SoapClient::new();
    client.post(Switch::get_state_request());
    client.request_written(true);
    assert_eq!(client.take_response(), None);
}

const REPLY: &str = "HTTP/1.1 200 OK\r\nCONTENT-LENGTH: 285\r\nCONTENT-TYPE: text/xml; charset=\"utf-8\"\r\n\r\n<s:Envelope xmlns:s=\"http://schemas.xmlsoap.org/soap/envelope/\" s:encodingStyle=\"http://schemas.xmlsoap.org/soap/encoding/\"><s:Body>\n<u:GetBinaryStateResponse xmlns:u=\"urn:Belkin:service:basicevent:1\">\r\n<BinaryState>STATE</BinaryState>\r\n</u:GetBinaryStateResponse>\r\n</s:Body> </s:Envelope>";

fn reply(state: &str) -> String {
    REPLY.replace("STATE", state)
}

#[test]
fn get_state_reads_the_reply() {
    let s = Switch::from_static_ip(ip("1.2.3.4"));
    assert!(matches!(s.get_state(Some(&reply("0"))), Ok(WemoState::Off)));
    assert!(matches!(s.get_state(Some(&reply("1"))), Ok(WemoState::On)));
    assert!(matches!(s.get_state(Some(&reply("8"))), Ok(WemoState::OnWithoutLoad)));
    assert!(matches!(s.get_state(Some(&reply("3"))), Ok(WemoState::Unknown(3))));
    assert!(matches!(s.get_state(Some(&reply("65535"))), Ok(WemoState::Unknown(65535))));
    assert!(matches!(
        s.get_state(Some(&reply("8|1457038186|0|0|0|1209600|0|0|0|0"))),
        Ok(WemoState::OnWithoutLoad)
    ));
}

#[test]
fn get_state_rejects_what_is_no_state() {
    let s = Switch::from_static_ip(ip("1.2.3.4"));
    for bad in ["65536", "-1", "", "on", "Error"] {
        assert!(matches!(s.get_state(Some(&reply(bad))), Err(WemoError::ParsingError)), "{:?}", bad);
    }
    assert!(matches!(s.get_state(Some("HTTP/1.1 500 Internal Server Error\r\n\r\n")), Err(WemoError::ParsingError)));
    assert!(matches!(s.get_state(None), Err(WemoError::BadResponseError)));
}

#[test]
fn a_switch_without_address_cannot_be_asked() {
    let s = Switch { device_identifier: DeviceIdentifier::Dynamic, dynamic_ip_address: None, port: None, serial_number: None };
    assert!(matches!(s.get_state(Some(&reply("1"))), Err(WemoError::NoLocalIp)));
    assert!(matches!(s.get_state(None), Err(WemoError::NoLocalIp)));
    assert!(matches!(s.set_state(WemoState::On, Some("ok")), Err(WemoError::NoLocalIp)));
}

#[test]
fn set_state_takes_any_reply_as_success() {
    let s = Switch::from_static_ip(ip("1.2.3.4"));
    assert!(matches!(s.set_state(WemoState::On, Some("anything")), Ok(WemoState::On)));
    assert!(matches!(s.set_state(WemoState::Off, Some("")), Ok(WemoState::Off)));
    assert!(matches!(s.set_state(WemoState::On, None), Err(WemoError::BadResponseError)));
}

#[test]
fn state_from_tag_reads_a_missing_element_as_empty() {
    assert!(matches!(Switch::state_from_tag(&None), Err(WemoError::ParsingError)));
    assert!(matches!(Switch::state_from_tag(&Some("1".to_string())), Ok(WemoState::On)));
    assert!(matches!(Switch::state_from_tag(&Some("0|1".to_string())), Ok(WemoState::Off)));
}

#[test]
fn toggle_inverts_the_state() {
    assert!(matches!(Switch::toggle(Ok(WemoState::Off), 100, 1000), Ok((WemoState::On, 900))));
    assert!(matches!(Switch::toggle(Ok(WemoState::On), 100, 1000), Ok((WemoState::Off, 900))));
    assert!(matches!(Switch::toggle(Ok(WemoState::OnWithoutLoad), 0, 1000), Ok((WemoState::Off, 1000))));
    assert!(matches!(Switch::toggle(Ok(WemoState::Off), 999, 1000), Ok((WemoState::On, 1))));
}

#[test]
fn toggle_writes_nothing_for_an_unknown_state() {
    assert!(matches!(Switch::toggle(Ok(WemoState::Unknown(3)), 100, 1000), Err(WemoError::WemoError)));
}

#[test]
fn toggle_writes_nothing_after_a_failed_or_slow_read() {
    assert!(matches!(Switch::toggle(Err(WemoError::TimeoutError), 100, 1000), Err(WemoError::BadResponseError)));
    assert!(matches!(Switch::toggle(Err(WemoError::ParsingError), 999, 1000), Err(WemoError::BadResponseError)));
    assert!(matches!(Switch::toggle(Err(WemoError::ParsingError), 2000, 1000), Err(WemoError::TimeoutError)));
    assert!(matches!(Switch::toggle(Err(WemoError::TimeoutError), 2000, 2000), Err(WemoError::TimeoutError)));
    assert!(matches!(Switch::toggle(Err(WemoError::BadResponseError), 0, 0), Err(WemoError::TimeoutError)));
    assert!(matches!(Switch::toggle(Ok(WemoState::Off), 1000, 1000), Err(WemoError::TimeoutError)));
    assert!(matches!(Switch::toggle(Ok(WemoState::On), 1001, 1000), Err(WemoError::TimeoutError)));
    assert!(matches!(Switch::toggle(Ok(WemoState::Unknown(2)), 1001, 1000), Err(WemoError::TimeoutError)));
    assert!(matches!(Switch::toggle(Ok(WemoState::On), 0, 0), Err(WemoError::TimeoutError)));
}

#[test]
fn the_first_attempt_has_a_fixed_time() {
    assert_eq!(FIRST_ATTEMPT_TIMEOUT, 300);
    assert!(matches!(first_step(), RetryStep::FirstAttempt { budget_ms: 300 }));
}

#[test]
fn a_successful_first_attempt_ends_the_operation() {
    assert!(matches!(
        after_first_attempt(Ok(WemoState::On), 50, 1000),
        RetryStep::Finished { outcome: Ok(WemoState::On) }
    ));
    assert!(matches!(
        after_first_attempt(Ok(WemoState::Off), 5000, 1000),
        RetryStep::Finished { outcome: Ok(WemoState::Off) }
    ));
}

#[test]
fn a_failed_first_attempt_leads_to_a_search_in_the_time_left() {
    assert!(matches!(
        after_first_attempt(Err(WemoError::BadResponseError), 300, 1000),
        RetryStep::Relocate { budget_ms: 700 }
    ));
    assert!(matches!(
        after_first_attempt(Err(WemoError::BadResponseError), 999, 1000),
        RetryStep::Relocate { budget_ms: 1 }
    ));
    assert!(matches!(
        after_first_attempt(Err(WemoError::BadResponseError), 1000, 1000),
        RetryStep::Finished { outcome: Err(WemoError::TimeoutError) }
    ));
    assert!(matches!(
        after_first_attempt(Err(WemoError::NoLocalIp), 1500, 1000),
        RetryStep::Finished { outcome: Err(WemoError::TimeoutError) }
    ));
}

#[test]
fn the_second_attempt_gets_what_the_search_left() {
    assert!(matches!(after_relocation(true, 200, 700), RetryStep::SecondAttempt { budget_ms: 500 }));
    assert!(matches!(after_relocation(true, 0, 700), RetryStep::SecondAttempt { budget_ms: 700 }));
    assert!(matches!(
        after_relocation(true, 700, 700),
        RetryStep::Finished { outcome: Err(WemoError::TimeoutError) }
    ));
    assert!(matches!(
        after_relocation(true, 701, 700),
        RetryStep::Finished { outcome: Err(WemoError::TimeoutError) }
    ));
    assert!(matches!(
        after_relocation(false, 10, 700),
        RetryStep::Finished { outcome: Err(WemoError::TimeoutError) }
    ));
}

#[test]
fn the_second_attempt_decides() {
    assert!(matches!(
        after_second_attempt(Ok(WemoState::On)),
        RetryStep::Finished { outcome: Ok(WemoState::On) }
    ));
    assert!(matches!(
        after_second_attempt(Err(WemoError::BadResponseError)),
        RetryStep::Finished { outcome: Err(WemoError::BadResponseError) }
    ));
}

#[test]
fn the_times_handed_out_never_exceed_the_timeout() {
    for timeout in [0u64, 1, 299, 300, 301, 1000, 5000] {
        for first in [0u64, 1, 150, 300, 999, 1000, 6000] {
            match after_first_attempt(Err(WemoError::BadResponseError), first, timeout) {
                RetryStep::Relocate { budget_ms } => {
                    assert_eq!(first + budget_ms, timeout);
                    for search in [0u64, 1, 350, 699, 700, 10_000] {
                        match after_relocation(true, search, budget_ms) {
                            RetryStep::SecondAttempt { budget_ms: second } => {
                                assert_eq!(first + search + second, timeout);
                                assert!(second > 0);
                            }
                            RetryStep::Finished { outcome } => {
                                assert!(search >= budget_ms);
                                assert!(matches!(outcome, Err(WemoError::TimeoutError)));
                            }
                            RetryStep::Relocate { .. } | RetryStep::FirstAttempt { .. } => {
                                panic!("a second round")
                            }
                        }
                    }
                }
                RetryStep::Finished { outcome } => {
                    assert!(first >= timeout);
                    assert!(matches!(outcome, Err(WemoError::TimeoutError)));
                }
                RetryStep::FirstAttempt { .. } | RetryStep::SecondAttempt { .. } => {
                    panic!("an attempt without a search")
                }
            }
        }
    }
}
