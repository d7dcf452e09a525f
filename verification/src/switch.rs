//! A switch on the network: where it is, how it is asked and told its
//! state, and how its address is brought up to date after a search.

use vstd::prelude::*;
use vstd::string::*;
use crate::addr::{ipv4_of, Ipv4Addr};
use crate::error::WemoError;
use crate::location::{parse_url, url_parts_of, UrlParts};
use crate::parsing::{state_from_text, state_of_text, state_or_parsing_error};
use crate::pattern::text_view;
use crate::soap::SoapRequest;
use crate::ssdp::SsdpResponse;
use crate::state::WemoState;
use crate::text::{decimal_text, format_decimal};
use crate::xml::{find_tag_value, tag_value};

verus! {

/// The outcome of asking or telling a switch its state.
pub type WemoResult = Result<WemoState, WemoError>;

/// The port on which a switch takes control requests unless another is known.
pub const DEFAULT_API_PORT: u16 = 49153;

/// How a switch is found on the network.
#[derive(Clone, Copy, Debug, PartialEq, Eq, Structural)]
pub enum DeviceIdentifier {
    /// The switch keeps this address; a search never changes it.
    StaticIp(Ipv4Addr),
    /// The switch may move; a search brings its address up to date.
    Dynamic,
}

/// A switch.
#[derive(Debug)]
pub struct Switch {
    /// How the switch is found on the network.
    pub device_identifier: DeviceIdentifier,
    /// The last known address of a switch that may move.
    pub dynamic_ip_address: Option<Ipv4Addr>,
    /// The last known port.
    pub port: Option<u16>,
    /// The serial number, where known.
    pub serial_number: Option<String>,
}

/// Where to look for a switch that stopped answering.
#[derive(Debug)]
pub enum RelocationTarget {
    /// Search for this serial number.
    Serial(String),
    /// Search for a device at this address.
    Ip(Ipv4Addr),
    /// Nothing is known to search for.
    Nowhere,
}

/// The path that control requests are posted to.
pub open spec fn control_path() -> Seq<char> {
    "/upnp/control/basicevent1"@
}

/// The action that asks for the state.
pub open spec fn get_action() -> Seq<char> {
    "urn:Belkin:service:basicevent:1#GetBinaryState"@
}

/// The action that sets the state.
pub open spec fn set_action() -> Seq<char> {
    "urn:Belkin:service:basicevent:1#SetBinaryState"@
}

/// The envelope that asks for the state.
pub open spec fn get_envelope() -> Seq<char> {
    "<?xml version=\"1.0\" encoding=\"utf-8\"?><s:Envelope xmlns:s=\"http://schemas.xmlsoap.org/soap/envelope/\"s:encodingStyle=\"http://schemas.xmlsoap.org/soap/encoding/\"><s:Body><u:GetBinaryState xmlns:u=\"urn:Belkin:service:basicevent:1\"><BinaryState>1</BinaryState></u:GetBinaryState></s:Body></s:Envelope>"@
}

/// The number written into a set request for a state.
pub open spec fn state_code_text(state: WemoState) -> Seq<char> {
    match state {
        WemoState::Off => "0"@,
        WemoState::On => "1"@,
        WemoState::OnWithoutLoad => "8"@,
        WemoState::Unknown(_) => "-1"@,
    }
}

/// The envelope that sets the state.
pub open spec fn set_envelope(state: WemoState) -> Seq<char> {
    "<?xml version=\"1.0\" encoding=\"utf-8\"?><s:Envelope xmlns:s=\"http://schemas.xmlsoap.org/soap/envelope/\"s:encodingStyle=\"http://schemas.xmlsoap.org/soap/encoding/\"><s:Body><u:SetBinaryState xmlns:u=\"urn:Belkin:service:basicevent:1\"><BinaryState>"@
        + state_code_text(state)
        + "</BinaryState></u:SetBinaryState></s:Body></s:Envelope>"@
}

/// The text of an optional address, as shown in logs.
pub open spec fn shown_address(ip: Option<Ipv4Addr>) -> Seq<char> {
    match ip {
        Some(a) => "Some("@ + a.text() + ")"@,
        None => "None"@,
    }
}

/// The text of an optional port, as shown in logs.
pub open spec fn shown_port(port: Option<u16>) -> Seq<char> {
    match port {
        Some(p) => "Some("@ + decimal_text(p as nat) + ")"@,
        None => "None"@,
    }
}

/// The state that a reply's `BinaryState` content stands for. A reply
/// without the element is read as one with empty content.
pub open spec fn state_of_tag(value: Option<Seq<char>>) -> WemoResult {
    match value {
        Some(text) => state_or_parsing_error(state_of_text(text)),
        None => state_or_parsing_error(state_of_text(Seq::<char>::empty())),
    }
}

/// The state to write when toggling, and the time left for writing it.
/// The time comes first: a read that used up the time allowed is a timeout,
/// whether it gave a state or failed. Within the time, a failed read is a
/// bad response and an unknown state cannot be inverted.
pub open spec fn toggle_plan(read: WemoResult, elapsed_ms: u64, timeout_ms: u64) -> Result<
    (WemoState, u64),
    WemoError,
> {
    if elapsed_ms >= timeout_ms {
        Err(WemoError::TimeoutError)
    } else {
        match read {
            Err(_) => Err(WemoError::BadResponseError),
            Ok(WemoState::Off) => Ok((WemoState::On, (timeout_ms - elapsed_ms) as u64)),
            Ok(WemoState::On) => Ok((WemoState::Off, (timeout_ms - elapsed_ms) as u64)),
            Ok(WemoState::OnWithoutLoad) => Ok((WemoState::Off, (timeout_ms - elapsed_ms) as u64)),
            Ok(WemoState::Unknown(_)) => Err(WemoError::WemoError),
        }
    }
}

impl Switch {
    /// The address at which the switch is talked to: the static one where
    /// there is one, else the last known.
    pub open spec fn spec_ip_address(&self) -> Option<Ipv4Addr> {
        match self.device_identifier {
            DeviceIdentifier::StaticIp(ip) => Some(ip),
            DeviceIdentifier::Dynamic => self.dynamic_ip_address,
        }
    }

    /// The switch after a search found it as `found`: the port is the one
    /// found, and so is the address unless the switch has a static one.
    pub open spec fn relocated(self, found: Switch) -> Switch {
        Switch {
            device_identifier: self.device_identifier,
            dynamic_ip_address: match self.device_identifier {
                DeviceIdentifier::StaticIp(_) => self.dynamic_ip_address,
                DeviceIdentifier::Dynamic => found.spec_ip_address(),
            },
            port: found.port,
            serial_number: self.serial_number,
        }
    }

    /// A switch that may move, with the address and port of a parsed URL.
    /// A host that is not an IPv4 address leaves the address unknown.
    pub fn new(url: &UrlParts) -> (r: Switch)
        ensures
            r.device_identifier == DeviceIdentifier::Dynamic,
            r.dynamic_ip_address == match url@.host {
                Some(host) => ipv4_of(host),
                None => None,
            },
            r.port == url.port,
            r.serial_number is None,
    {
        let ip: Option<Ipv4Addr> = match &url.host {
            Some(host) => Ipv4Addr::parse(host.as_str()),
            None => None,
        };
        Switch {
            device_identifier: DeviceIdentifier::Dynamic,
            dynamic_ip_address: ip,
            port: url.port,
            serial_number: None,
        }
    }

    /// A switch behind a static address.
    pub fn from_static_ip(ip_address: Ipv4Addr) -> (r: Switch)
        ensures
            r.device_identifier == DeviceIdentifier::StaticIp(ip_address),
            r.dynamic_ip_address is None,
            r.port is None,
            r.serial_number is None,
    {
        Switch {
            device_identifier: DeviceIdentifier::StaticIp(ip_address),
            dynamic_ip_address: None,
            port: None,
            serial_number: None,
        }
    }

    /// A switch behind a static address, with the port it was last seen on.
    pub fn from_static_ip_and_port(ip_address: Ipv4Addr, port: u16) -> (r: Switch)
        ensures
            r.device_identifier == DeviceIdentifier::StaticIp(ip_address),
            r.dynamic_ip_address is None,
            r.port == Some(port),
            r.serial_number is None,
    {
        Switch {
            device_identifier: DeviceIdentifier::StaticIp(ip_address),
            dynamic_ip_address: None,
            port: Some(port),
            serial_number: None,
        }
    }

    /// A switch that may move, last seen at this address.
    pub fn from_dynamic_ip(ip_address: Ipv4Addr) -> (r: Switch)
        ensures
            r.device_identifier == DeviceIdentifier::Dynamic,
            r.dynamic_ip_address == Some(ip_address),
            r.port is None,
            r.serial_number is None,
    {
        Switch {
            device_identifier: DeviceIdentifier::Dynamic,
            dynamic_ip_address: Some(ip_address),
            port: None,
            serial_number: None,
        }
    }

    /// A switch that may move, last seen at this address and port.
    pub fn from_dynamic_ip_and_port(ip_address: Ipv4Addr, port: u16) -> (r: Switch)
        ensures
            r.device_identifier == DeviceIdentifier::Dynamic,
            r.dynamic_ip_address == Some(ip_address),
            r.port == Some(port),
            r.serial_number is None,
    {
        Switch {
            device_identifier: DeviceIdentifier::Dynamic,
            dynamic_ip_address: Some(ip_address),
            port: Some(port),
            serial_number: None,
        }
    }

    /// A switch that may move, with the address and port of the URL written
    /// in `url`; the parser's error where that is no URL.
    pub fn from_url(url: &str) -> (r: Result<Switch, url::ParseError>)
        ensures
            match url_parts_of(url@) {
                None => r is Err,
                Some(parts) => r is Ok && r.unwrap().device_identifier
                    == DeviceIdentifier::Dynamic && r.unwrap().dynamic_ip_address == (match parts.host {
                    Some(host) => ipv4_of(host),
                    None => None,
                }) && r.unwrap().port == parts.port && r.unwrap().serial_number is None,
            },
    {
        match parse_url(url) {
            Ok(parts) => Ok(Switch::new(&parts)),
            Err(e) => Err(e),
        }
    }

    /// A switch that may move, last seen at the address written in
    /// `ip_addr` and at this port.
    pub fn from_ip_and_port(ip_addr: &str, port: u16) -> (r: Switch)
        requires
            ipv4_of(ip_addr@) is Some,
        ensures
            r.device_identifier == DeviceIdentifier::Dynamic,
            r.dynamic_ip_address == ipv4_of(ip_addr@),
            r.port == Some(port),
            r.serial_number is None,
    {
        Switch {
            device_identifier: DeviceIdentifier::Dynamic,
            dynamic_ip_address: Ipv4Addr::parse(ip_addr),
            port: Some(port),
            serial_number: None,
        }
    }

    /// The switch that answered a search: it may move, and its address, port
    /// and serial number are those of the answer.
    pub fn from_search_result(search_result: &SsdpResponse) -> (r: Switch)
        ensures
            r.device_identifier == DeviceIdentifier::Dynamic,
            r.dynamic_ip_address == Some(search_result.ip_address),
            r.port == Some(search_result.port),
            text_view(r.serial_number) == Some(search_result.serial_number@),
    {
        Switch {
            device_identifier: DeviceIdentifier::Dynamic,
            dynamic_ip_address: Some(search_result.ip_address),
            port: Some(search_result.port),
            serial_number: Some(search_result.serial_number.clone()),
        }
    }

    /// The static address where the switch has one, else the last known
    /// address, which may be missing.
    pub fn get_ip_address(&self) -> (r: Option<Ipv4Addr>)
        ensures
            r == self.spec_ip_address(),
    {
        match self.device_identifier {
            DeviceIdentifier::StaticIp(ip) => Some(ip),
            DeviceIdentifier::Dynamic => self.dynamic_ip_address,
        }
    }

    /// The last known port, which may be missing.
    pub fn get_port(&self) -> (r: Option<u16>)
        ensures
            r == self.port,
    {
        self.port
    }

    /// Takes over the port of a switch that a search found, and its address
    /// too unless this switch has a static one.
    pub fn update_location(&mut self, search_result: &Switch)
        ensures
            *final(self) == old(self).relocated(*search_result),
    {
        self.port = search_result.get_port();
        match self.device_identifier {
            DeviceIdentifier::StaticIp(_) => {},
            DeviceIdentifier::Dynamic => {
                self.dynamic_ip_address = search_result.get_ip_address();
            },
        }
    }

    /// What to search for when the switch has to be found again: the serial
    /// number where it is known, else the address at which it is talked to.
    pub fn relocation_target(&self) -> (r: RelocationTarget)
        ensures
            match self.serial_number {
                Some(serial) => r matches RelocationTarget::Serial(s) && s@ == serial@,
                None => match self.spec_ip_address() {
                    Some(ip) => r == RelocationTarget::Ip(ip),
                    None => r == RelocationTarget::Nowhere,
                },
            },
    {
        match &self.serial_number {
            Some(serial) => RelocationTarget::Serial(serial.clone()),
            None => match self.get_ip_address() {
                Some(ip) => RelocationTarget::Ip(ip),
                None => RelocationTarget::Nowhere,
            },
        }
    }

    /// Takes in what a search for the switch found. Where it found the
    /// device, this switch's location is brought up to date and the switch
    /// that answered is handed out; where it found none, nothing changes.
    pub fn relocate(&mut self, found: Option<&SsdpResponse>) -> (r: Option<Switch>)
        ensures
            final(self).device_identifier == old(self).device_identifier,
            final(self).serial_number == old(self).serial_number,
            match found {
                None => r is None && *final(self) == *old(self),
                Some(answer) => {
                    &&& r is Some
                    &&& *final(self) == old(self).relocated(r.unwrap())
                    &&& r.unwrap().device_identifier == DeviceIdentifier::Dynamic
                    &&& r.unwrap().dynamic_ip_address == Some(answer.ip_address)
                    &&& r.unwrap().port == Some(answer.port)
                    &&& text_view(r.unwrap().serial_number) == Some(answer.serial_number@)
                    &&& final(self).port == Some(answer.port)
                    &&& final(self).spec_ip_address() == (match old(self).device_identifier {
                        DeviceIdentifier::StaticIp(ip) => Some(ip),
                        DeviceIdentifier::Dynamic => Some(answer.ip_address),
                    })
                },
            },
    {
        match found {
            None => None,
            Some(answer) => {
                let switch: Switch = Switch::from_search_result(answer);
                self.update_location(&switch);
                Some(switch)
            },
        }
    }

    /// The address and port shown in logs.
    pub fn location(&self) -> (r: String)
        ensures
            r@ == shown_address(self.spec_ip_address()) + ":"@ + shown_port(self.port),
    {
        let mut out: String = String::new();
        match self.get_ip_address() {
            Some(ip) => {
                out.append("Some(");
                out.append(ip.to_string().as_str());
                out.append(")");
            },
            None => {
                out.append("None");
            },
        }
        out.append(":");
        match self.port {
            Some(p) => {
                out.append("Some(");
                out.append(format_decimal(p as u64).as_str());
                out.append(")");
            },
            None => {
                out.append("None");
            },
        }
        proof {
            assert(out@ =~= shown_address(self.spec_ip_address()) + ":"@ + shown_port(self.port));
        }
        out
    }

    /// The text shown for the switch.
    pub fn to_string(&self) -> (r: String)
        ensures
            r@ == "Switch<"@ + shown_address(self.spec_ip_address()) + ":"@ + shown_port(self.port)
                + ">"@,
    {
        let mut out: String = "Switch<".to_owned();
        out.append(self.location().as_str());
        out.append(">");
        proof {
            assert(out@ =~= "Switch<"@ + shown_address(self.spec_ip_address()) + ":"@ + shown_port(
                self.port,
            ) + ">"@);
        }
        out
    }

    /// Where control requests go: the address at which the switch is talked
    /// to, and its last known port or else the default one. Fails with
    /// `NoLocalIp` where no address is known.
    pub fn endpoint(&self) -> (r: Result<(Ipv4Addr, u16), WemoError>)
        ensures
            match self.spec_ip_address() {
                None => r == Err::<(Ipv4Addr, u16), WemoError>(WemoError::NoLocalIp),
                Some(ip) => r == Ok::<(Ipv4Addr, u16), WemoError>(
                    (
                        ip,
                        match self.port {
                            Some(p) => p,
                            None => DEFAULT_API_PORT,
                        },
                    ),
                ),
            },
    {
        let ip: Ipv4Addr = match self.get_ip_address() {
            Some(ip) => ip,
            None => { return Err(WemoError::NoLocalIp); },
        };
        let port: u16 = match self.get_port() {
            Some(p) => p,
            None => DEFAULT_API_PORT,
        };
        Ok((ip, port))
    }

    /// The request that asks a switch for its state.
    pub fn get_state_request() -> (r: SoapRequest)
        ensures
            r.request_path@ == control_path(),
            r.soap_action@ == get_action(),
            r.http_post_payload@ == get_envelope(),
    {
        SoapRequest {
            request_path: "/upnp/control/basicevent1".to_owned(),
            soap_action: "urn:Belkin:service:basicevent:1#GetBinaryState".to_owned(),
            http_post_payload: "<?xml version=\"1.0\" encoding=\"utf-8\"?><s:Envelope xmlns:s=\"http://schemas.xmlsoap.org/soap/envelope/\"s:encodingStyle=\"http://schemas.xmlsoap.org/soap/encoding/\"><s:Body><u:GetBinaryState xmlns:u=\"urn:Belkin:service:basicevent:1\"><BinaryState>1</BinaryState></u:GetBinaryState></s:Body></s:Envelope>".to_owned(),
        }
    }

    /// The request that tells a switch to take a state.
    pub fn set_state_request(state: WemoState) -> (r: SoapRequest)
        ensures
            r.request_path@ == control_path(),
            r.soap_action@ == set_action(),
            r.http_post_payload@ == set_envelope(state),
    {
        let code: &'static str = match state {
            WemoState::Off => "0",
            WemoState::On => "1",
            WemoState::OnWithoutLoad => "8",
            WemoState::Unknown(_) => "-1",
        };
        let mut body: String = "<?xml version=\"1.0\" encoding=\"utf-8\"?><s:Envelope xmlns:s=\"http://schemas.xmlsoap.org/soap/envelope/\"s:encodingStyle=\"http://schemas.xmlsoap.org/soap/encoding/\"><s:Body><u:SetBinaryState xmlns:u=\"urn:Belkin:service:basicevent:1\"><BinaryState>".to_owned();
        body.append(code);
        body.append("</BinaryState></u:SetBinaryState></s:Body></s:Envelope>");
        SoapRequest {
            request_path: "/upnp/control/basicevent1".to_owned(),
            soap_action: "urn:Belkin:service:basicevent:1#SetBinaryState".to_owned(),
            http_post_payload: body,
        }
    }

    /// Reads the state out of the content of a reply's `BinaryState`
    /// element. Fails with `ParsingError` unless the content starts with a
    /// number in `0..=65535`, alone or followed by a vertical bar.
    pub fn state_from_tag(value: &Option<String>) -> (r: WemoResult)
        ensures
            r == state_of_tag(text_view(*value)),
    {
        proof {
            reveal_strlit("");
            assert(""@ =~= Seq::<char>::empty());
        }
        match value {
            Some(text) => state_from_text(text.as_str()),
            None => state_from_text(""),
        }
    }

    /// The outcome of asking for the state, given what came back: nothing
    /// where the switch could not be reached or did not answer in time.
    /// Fails with `NoLocalIp` where the switch has no address, with
    /// `BadResponseError` where nothing came back, and with `ParsingError`
    /// where the reply does not hold a state.
    pub fn get_state(&self, reply: Option<&str>) -> (r: WemoResult)
        ensures
            r == (match self.spec_ip_address() {
                None => Err(WemoError::NoLocalIp),
                Some(_) => match reply {
                    None => Err(WemoError::BadResponseError),
                    Some(body) => state_of_tag(tag_value("BinaryState"@, body@)),
                },
            }),
    {
        if self.get_ip_address().is_none() {
            return Err(WemoError::NoLocalIp);
        }
        match reply {
            None => Err(WemoError::BadResponseError),
            Some(body) => {
                let value: Option<String> = find_tag_value("BinaryState", body);
                Switch::state_from_tag(&value)
            },
        }
    }

    /// The outcome of setting the state, given what came back: any reply
    /// means that the switch took the state. Fails with `NoLocalIp` where
    /// the switch has no address and with `BadResponseError` where nothing
    /// came back.
    pub fn set_state(&self, state: WemoState, reply: Option<&str>) -> (r: WemoResult)
        ensures
            r == (match self.spec_ip_address() {
                None => Err(WemoError::NoLocalIp),
                Some(_) => match reply {
                    None => Err(WemoError::BadResponseError),
                    Some(_) => Ok(state),
                },
            }),
    {
        if self.get_ip_address().is_none() {
            return Err(WemoError::NoLocalIp);
        }
        match reply {
            None => Err(WemoError::BadResponseError),
            Some(_) => Ok(state),
        }
    }

    /// Decides what toggling writes, from the state that was read in
    /// `elapsed_ms` of the `timeout_ms` allowed: on for a switch that is
    /// off, off for one that is on, with the time that is left. Nothing is
    /// written where reading used up the time (`TimeoutError`, whatever was
    /// read), failed within the time (`BadResponseError`), or gave an
    /// unknown state (`WemoError`).
    pub fn toggle(read: WemoResult, elapsed_ms: u64, timeout_ms: u64) -> (r: Result<
        (WemoState, u64),
        WemoError,
    >)
        ensures
            r == toggle_plan(read, elapsed_ms, timeout_ms),
    {
        if elapsed_ms >= timeout_ms {
            return Err(WemoError::TimeoutError);
        }
        let state: WemoState = match read {
            Ok(state) => state,
            Err(_) => { return Err(WemoError::BadResponseError); },
        };
        let remaining: u64 = timeout_ms - elapsed_ms;
        match state {
            WemoState::Off => Ok((WemoState::On, remaining)),
            WemoState::On => Ok((WemoState::Off, remaining)),
            WemoState::OnWithoutLoad => Ok((WemoState::Off, remaining)),
            WemoState::Unknown(_) => Err(WemoError::WemoError),
        }
    }
}

/// Toggling writes "on" to a switch that is off and "off" to one that is on,
/// with or without load; it writes nothing where the state is unknown, where
/// reading failed, or where reading left no time. A read that left no time
/// is a timeout, whatever it gave.
pub proof fn lemma_toggle_inverts(read: WemoResult, elapsed_ms: u64, timeout_ms: u64)
    ensures
        toggle_plan(read, elapsed_ms, timeout_ms) is Ok <==> read is Ok && !(read.unwrap() is Unknown)
            && elapsed_ms < timeout_ms,
        toggle_plan(read, elapsed_ms, timeout_ms) is Ok ==> {
            let plan = toggle_plan(read, elapsed_ms, timeout_ms).unwrap();
            &&& plan.0 == (if read.unwrap().spec_is_on() {
                WemoState::Off
            } else {
                WemoState::On
            })
            &&& plan.1 + elapsed_ms == timeout_ms
        },
        read is Ok && read.unwrap() is Unknown && elapsed_ms < timeout_ms ==> toggle_plan(
            read,
            elapsed_ms,
            timeout_ms,
        ) == Err::<(WemoState, u64), WemoError>(WemoError::WemoError),
        read is Err && elapsed_ms < timeout_ms ==> toggle_plan(read, elapsed_ms, timeout_ms)
            == Err::<(WemoState, u64), WemoError>(WemoError::BadResponseError),
        elapsed_ms >= timeout_ms ==> toggle_plan(read, elapsed_ms, timeout_ms) == Err::<
            (WemoState, u64),
            WemoError,
        >(WemoError::TimeoutError),
{
}

/// A search never changes the address of a switch with a static address,
/// whatever it found; the port is the one that was found. A switch that may
/// move takes over both.
pub proof fn lemma_static_ip_survives_relocation(before: Switch, found: Switch)
    ensures
        before.device_identifier is StaticIp ==> before.relocated(found).spec_ip_address()
            == before.spec_ip_address(),
        before.device_identifier is Dynamic ==> before.relocated(found).spec_ip_address()
            == found.spec_ip_address(),
        before.relocated(found).port == found.port,
        before.relocated(found).device_identifier == before.device_identifier,
{
}

} // verus!
