//! Device discovery: reading search responses, keeping what was found, and
//! deciding when a search is over.

use vstd::prelude::*;
use crate::addr::{ipv4_of, Ipv4Addr};
use crate::location::{parse_url, url_parts_of, UrlParts, UrlPartsView};
use crate::text::{same_text, text_of_bytes};
use crate::pattern::{group_matches, last_capture, regex_group_matches, take_last, text_view};

verus! {

/// A search request is sent again after this many milliseconds.
pub const RESEND_SSDP_MS: u64 = 300;

/// The UDP port that devices listen on for searches.
pub const UPNP_PORT: u16 = 1900;

/// The port of a setup URL that names none.
pub const DEFAULT_HTTP_PORT: u16 = 80;

/// A device's answer to a search.
#[derive(Debug)]
pub struct SsdpResponse {
    pub serial_number: String,
    pub ip_address: Ipv4Addr,
    pub port: u16,
    pub setup_url: String,
}

/// The mathematical content of an [`SsdpResponse`].
pub struct SsdpResponseView {
    pub serial_number: Seq<char>,
    pub ip_address: Ipv4Addr,
    pub port: u16,
    pub setup_url: Seq<char>,
}

impl View for SsdpResponse {
    type V = SsdpResponseView;

    open spec fn view(&self) -> SsdpResponseView {
        SsdpResponseView {
            serial_number: self.serial_number@,
            ip_address: self.ip_address,
            port: self.port,
            setup_url: self.setup_url@,
        }
    }
}

impl Clone for SsdpResponse {
    fn clone(&self) -> (r: SsdpResponse)
        ensures
            r == *self,
    {
        SsdpResponse {
            serial_number: self.serial_number.clone(),
            ip_address: self.ip_address,
            port: self.port,
            setup_url: self.setup_url.clone(),
        }
    }
}

/// The content of an optional response.
pub open spec fn response_view(r: Option<SsdpResponse>) -> Option<SsdpResponseView> {
    match r {
        Some(found) => Some(found@),
        None => None,
    }
}

/// The regular expression that finds the `LOCATION` header.
pub open spec fn location_pattern() -> Seq<char> {
    "(?im:^LOCATION:\\s*(.*)$)"@
}

/// The regular expression that finds the serial number in the `USN` header
/// of a light switch, an Insight or a socket.
pub open spec fn serial_pattern() -> Seq<char> {
    "(?im:^USN:\\s*uuid:(Lightswitch|Insight|Socket)-\\d_\\d-(.*)::)"@
}

/// The URL that a captured `LOCATION` value parses to.
pub open spec fn location_of(capture: Option<Seq<char>>) -> Option<UrlPartsView> {
    match capture {
        Some(text) => url_parts_of(text),
        None => None,
    }
}

/// The record made from a parsed location and a serial number. Both have to
/// be there and the URL's host has to be an IPv4 address; the record then
/// carries that address, the URL's port (80 where it names none), the serial
/// number and the URL.
pub open spec fn search_result(location: Option<UrlPartsView>, serial: Option<Seq<char>>) -> Option<
    SsdpResponseView,
> {
    if location is Some && serial is Some && location.unwrap().host is Some && ipv4_of(
        location.unwrap().host.unwrap(),
    ) is Some {
        Some(
            SsdpResponseView {
                serial_number: serial.unwrap(),
                ip_address: ipv4_of(location.unwrap().host.unwrap()).unwrap(),
                port: match location.unwrap().port {
                    Some(p) => p,
                    None => DEFAULT_HTTP_PORT,
                },
                setup_url: location.unwrap().href,
            },
        )
    } else {
        None
    }
}

/// The record that a response text holds: made from its last `LOCATION`
/// header and its last matching `USN` header.
pub open spec fn parsed_response(headers: Seq<char>) -> Option<SsdpResponseView> {
    search_result(
        location_of(last_capture(regex_group_matches(location_pattern(), headers, 1))),
        last_capture(regex_group_matches(serial_pattern(), headers, 2)),
    )
}

/// Makes the record from a parsed location and a serial number, where both
/// are there and the host is an IPv4 address.
pub fn assemble_search_result(location: Option<UrlParts>, serial: Option<String>) -> (r: Option<
    SsdpResponse,
>)
    ensures
        response_view(r) == search_result(
            match location {
                Some(parts) => Some(parts@),
                None => None,
            },
            text_view(serial),
        ),
{
    let url: UrlParts = match location {
        Some(parts) => parts,
        None => { return None; },
    };
    let port: u16 = match url.port {
        Some(p) => p,
        None => DEFAULT_HTTP_PORT,
    };
    let ip_address: Ipv4Addr = match &url.host {
        None => { return None; },
        Some(host) => match Ipv4Addr::parse(host.as_str()) {
            Some(ip) => ip,
            None => { return None; },
        },
    };
    match serial {
        None => None,
        Some(serial_number) => Some(
            SsdpResponse { serial_number, ip_address, port, setup_url: url.href },
        ),
    }
}

/// Parses the headers of a search response. The `LOCATION` header has to be
/// a URL whose host is an IPv4 address, and the `USN` header has to name a
/// light switch, an Insight or a socket; anything else gives nothing.
pub fn parse_search_result(response_headers: &str) -> (r: Option<SsdpResponse>)
    ensures
        response_view(r) == parsed_response(response_headers@),
{
    let locations: Option<Vec<Option<String>>> = group_matches(
        "(?im:^LOCATION:\\s*(.*)$)",
        response_headers,
        1,
    );
    let location: Option<UrlParts> = match take_last(&locations) {
        None => None,
        Some(text) => match parse_url(text.as_str()) {
            Ok(parts) => Some(parts),
            Err(_) => None,
        },
    };
    let serials: Option<Vec<Option<String>>> = group_matches(
        "(?im:^USN:\\s*uuid:(Lightswitch|Insight|Socket)-\\d_\\d-(.*)::)",
        response_headers,
        2,
    );
    let serial: Option<String> = take_last(&serials);
    assemble_search_result(location, serial)
}

/// Whether some record in `results` carries `serial`.
pub open spec fn has_serial(results: Seq<SsdpResponseView>, serial: Seq<char>) -> bool {
    exists|i: int| 0 <= i < results.len() && (#[trigger] results[i]).serial_number == serial
}

/// The place of a record that carries `serial`.
pub open spec fn serial_index(results: Seq<SsdpResponseView>, serial: Seq<char>) -> int {
    choose|i: int| 0 <= i < results.len() && (#[trigger] results[i]).serial_number == serial
}

/// Whether no two records carry the same serial number.
pub open spec fn distinct_serials(results: Seq<SsdpResponseView>) -> bool {
    forall|i: int, j: int|
        0 <= i < results.len() && 0 <= j < results.len() && i != j ==> (#[trigger] results[i]).serial_number
            != (#[trigger] results[j]).serial_number
}

/// The records with `record` put in: in the place of the one with the same
/// serial number, or at the end where there is none.
pub open spec fn upsert(results: Seq<SsdpResponseView>, record: SsdpResponseView) -> Seq<
    SsdpResponseView,
> {
    if has_serial(results, record.serial_number) {
        results.update(serial_index(results, record.serial_number), record)
    } else {
        results.push(record)
    }
}

/// The records after a run of answers has come in, one after the other.
pub open spec fn absorb(results: Seq<SsdpResponseView>, answers: Seq<SsdpResponseView>) -> Seq<
    SsdpResponseView,
>
    decreases answers.len(),
{
    if answers.len() == 0 {
        results
    } else {
        upsert(absorb(results, answers.drop_last()), answers.last())
    }
}

/// The records as a map from serial number to record.
pub open spec fn by_serial(results: Seq<SsdpResponseView>) -> Map<Seq<char>, SsdpResponseView> {
    Map::new(
        |serial: Seq<char>| has_serial(results, serial),
        |serial: Seq<char>| results[serial_index(results, serial)],
    )
}

/// Whether some record in `results` has the address `ip`.
pub open spec fn has_ip(results: Seq<SsdpResponseView>, ip: Ipv4Addr) -> bool {
    exists|i: int| 0 <= i < results.len() && (#[trigger] results[i]).ip_address == ip
}

/// The mathematical content of a [`DeviceSearch`].
pub struct DeviceSearchView {
    /// The records found, in the order in which their serial numbers first came.
    pub results: Seq<SsdpResponseView>,
    /// The serial number whose arrival ends the search.
    pub target_serial: Option<Seq<char>>,
    /// The address whose arrival ends the search.
    pub target_ip_address: Option<Ipv4Addr>,
}

/// Whether the arrival of `record` ends a search with these targets: it
/// carries the serial number searched for, or it is at the address searched
/// for. A search without target is ended by no record.
pub open spec fn hits_target(
    target_serial: Option<Seq<char>>,
    target_ip_address: Option<Ipv4Addr>,
    record: SsdpResponseView,
) -> bool {
    target_serial == Some(record.serial_number) || target_ip_address == Some(record.ip_address)
}

/// The record that a datagram holds: that of its text, where its bytes are
/// UTF-8 text; nothing otherwise.
pub open spec fn datagram_record(datagram: Seq<u8>) -> Option<SsdpResponseView> {
    if vstd::utf8::valid_utf8(datagram) {
        parsed_response(vstd::utf8::decode_utf8(datagram))
    } else {
        None
    }
}

/// The timers of a search.
#[derive(Clone, Copy, Debug, PartialEq, Eq, Structural)]
pub enum SearchTimer {
    /// Time to send the request again.
    Resend,
    /// The time allowed for the search is over.
    Deadline,
}

/// What happened on the search socket or its timers.
#[derive(Debug)]
pub enum SearchEvent {
    /// The socket can be written to.
    Writable,
    /// A datagram arrived; it holds these bytes.
    Datagram(Vec<u8>),
    /// A timer fired.
    Timer(SearchTimer),
}

/// What the caller does after an event.
#[derive(Debug)]
pub enum SearchAction {
    /// Send this request to the multicast group, then wait for datagrams.
    Send(String),
    /// Wait for the socket to become writable and start the resend timer
    /// again with this many milliseconds.
    Resend(u64),
    /// Keep waiting.
    Wait,
    /// The search is over.
    Stop,
}

/// The text of the search request.
pub open spec fn search_request_text() -> Seq<char> {
    "M-SEARCH * HTTP/1.1\r\nHOST: 239.255.255.250:1900\r\nST:urn:Belkin:device:*\r\nMAN:\"ssdp:discover\"\r\nMX:5\r\n\r\n"@
}

/// What is found by searches, kept from one search to the next.
pub struct DeviceSearch {
    found_devices: Vec<SsdpResponse>,
    target_serial: Option<String>,
    target_ip_address: Option<Ipv4Addr>,
}

impl View for DeviceSearch {
    type V = DeviceSearchView;

    closed spec fn view(&self) -> DeviceSearchView {
        DeviceSearchView {
            results: self.found_devices@.map_values(|r: SsdpResponse| r@),
            target_serial: text_view(self.target_serial),
            target_ip_address: self.target_ip_address,
        }
    }
}

impl DeviceSearch {
    /// No two records kept carry the same serial number.
    pub open spec fn wf(&self) -> bool {
        distinct_serials(self@.results)
    }

    /// A search that has found nothing and has no target.
    pub fn new() -> (r: DeviceSearch)
        ensures
            r.wf(),
            r@.results == Seq::<SsdpResponseView>::empty(),
            r@.target_serial is None,
            r@.target_ip_address is None,
    {
        let r = DeviceSearch {
            found_devices: Vec::new(),
            target_serial: None,
            target_ip_address: None,
        };
        proof {
            assert(r@.results =~= Seq::<SsdpResponseView>::empty());
        }
        r
    }

    /// The text of the search request.
    pub fn search_request() -> (r: String)
        ensures
            r@ == search_request_text(),
    {
        "M-SEARCH * HTTP/1.1\r\nHOST: 239.255.255.250:1900\r\nST:urn:Belkin:device:*\r\nMAN:\"ssdp:discover\"\r\nMX:5\r\n\r\n".to_owned()
    }

    /// Where the search request is sent: the multicast group that devices
    /// listen on, and its port.
    pub fn search_group() -> (r: (Ipv4Addr, u16))
        ensures
            r == (Ipv4Addr { a: 239, b: 255, c: 255, d: 250 }, UPNP_PORT),
    {
        (Ipv4Addr { a: 239, b: 255, c: 255, d: 250 }, UPNP_PORT)
    }

    /// Makes the next search end as soon as the device with this serial
    /// number answers. This is then the only target: an address searched
    /// for before no longer ends the search.
    pub fn target_serial(&mut self, target: &str)
        ensures
            final(self)@.target_serial == Some(target@),
            final(self)@.target_ip_address is None,
            final(self)@.results == old(self)@.results,
    {
        self.target_serial = Some(target.to_owned());
        self.target_ip_address = None;
    }

    /// Makes the next search end as soon as a device at this address
    /// answers. This is then the only target: a serial number searched for
    /// before no longer ends the search.
    pub fn target_ip(&mut self, target: Ipv4Addr)
        ensures
            final(self)@.target_ip_address == Some(target),
            final(self)@.target_serial is None,
            final(self)@.results == old(self)@.results,
    {
        self.target_ip_address = Some(target);
        self.target_serial = None;
    }

    /// Whether anything has been found.
    pub fn has_results(&self) -> (r: bool)
        ensures
            r == (self@.results.len() != 0),
    {
        self.found_devices.len() != 0
    }

    /// The records found, one for each serial number.
    pub fn get_results(&self) -> (r: &Vec<SsdpResponse>)
        ensures
            r@.map_values(|x: SsdpResponse| x@) == self@.results,
    {
        &self.found_devices
    }

    /// Forgets the records and the targets.
    pub fn reset(&mut self)
        ensures
            final(self).wf(),
            final(self)@.results == Seq::<SsdpResponseView>::empty(),
            final(self)@.target_serial is None,
            final(self)@.target_ip_address is None,
    {
        self.found_devices = Vec::new();
        self.target_serial = None;
        self.target_ip_address = None;
        proof {
            assert(self@.results =~= Seq::<SsdpResponseView>::empty());
        }
    }

    /// The record with this serial number, if one was found.
    pub fn search_for_serial(&self, target: &str) -> (r: Option<&SsdpResponse>)
        requires
            self.wf(),
        ensures
            r is Some <==> has_serial(self@.results, target@),
            r is Some ==> r.unwrap()@ == by_serial(self@.results)[target@],
    {
        let wanted: String = target.to_owned();
        let mut i: usize = 0;
        while i < self.found_devices.len()
            invariant
                i <= self.found_devices.len(),
                self.wf(),
                wanted@ == target@,
                forall|j: int| 0 <= j < i ==> (#[trigger] self@.results[j]).serial_number != target@,
            decreases self.found_devices.len() - i,
        {
            if same_text(&self.found_devices[i].serial_number, &wanted) {
                proof {
                    assert(self@.results[i as int].serial_number == target@);
                    assert(has_serial(self@.results, target@));
                    let k = serial_index(self@.results, target@);
                    assert(k == i);
                }
                return Some(&self.found_devices[i]);
            }
            i += 1;
        }
        None
    }

    /// The first record found with this address, if there is one.
    pub fn search_for_ip(&self, target: &Ipv4Addr) -> (r: Option<&SsdpResponse>)
        ensures
            r is Some <==> has_ip(self@.results, *target),
            r is Some ==> exists|i: int|
                0 <= i < self@.results.len() && self@.results[i] == r.unwrap()@
                    && r.unwrap().ip_address == *target && forall|j: int|
                    0 <= j < i ==> (#[trigger] self@.results[j]).ip_address != *target,
    {
        let mut i: usize = 0;
        while i < self.found_devices.len()
            invariant
                i <= self.found_devices.len(),
                forall|j: int| 0 <= j < i ==> (#[trigger] self@.results[j]).ip_address != *target,
            decreases self.found_devices.len() - i,
        {
            if self.found_devices[i].ip_address == *target {
                proof {
                    assert(self@.results[i as int].ip_address == *target);
                }
                return Some(&self.found_devices[i]);
            }
            i += 1;
        }
        None
    }

    /// Keeps a parsed response, if there is one, and says whether the search
    /// is over. A record takes the place of an earlier one with the same
    /// serial number. The search is over exactly when a record came in that
    /// hits the target.
    pub fn record_response(&mut self, parsed: Option<SsdpResponse>) -> (stop: bool)
        requires
            old(self).wf(),
        ensures
            final(self).wf(),
            final(self)@.target_serial == old(self)@.target_serial,
            final(self)@.target_ip_address == old(self)@.target_ip_address,
            match parsed {
                None => final(self)@.results == old(self)@.results && !stop,
                Some(device) => final(self)@.results == upsert(old(self)@.results, device@)
                    && stop == hits_target(
                    old(self)@.target_serial,
                    old(self)@.target_ip_address,
                    device@,
                ),
            },
    {
        let device: SsdpResponse = match parsed {
            None => { return false; },
            Some(d) => d,
        };
        let ghost record = device@;
        let ghost before = self@.results;
        let serial_hit: bool = match &self.target_serial {
            Some(serial) => same_text(serial, &device.serial_number),
            None => false,
        };
        let ip_hit: bool = match &self.target_ip_address {
            Some(ip) => *ip == device.ip_address,
            None => false,
        };
        let stop: bool = serial_hit || ip_hit;
        let mut i: usize = 0;
        let mut place: Option<usize> = None;
        while i < self.found_devices.len() && place.is_none()
            invariant
                i <= self.found_devices.len(),
                self@.results == before,
                device@ == record,
                place is None ==> forall|j: int|
                    0 <= j < i ==> (#[trigger] before[j]).serial_number != record.serial_number,
                place is Some ==> place.unwrap() < before.len() && before[place.unwrap() as int].serial_number
                    == record.serial_number,
            decreases self.found_devices.len() - i + (if place is None { 1int } else { 0int }),
        {
            if same_text(&self.found_devices[i].serial_number, &device.serial_number) {
                proof {
                    assert(before[i as int].serial_number == record.serial_number);
                }
                place = Some(i);
            } else {
                i += 1;
            }
        }
        match place {
            Some(at) => {
                proof {
                    assert(has_serial(before, record.serial_number));
                    assert(serial_index(before, record.serial_number) == at);
                }
                self.found_devices.set(at, device);
                proof {
                    assert(self@.results =~= before.update(at as int, record));
                    lemma_upsert_keeps_distinct(before, record);
                }
            },
            None => {
                proof {
                    assert(!has_serial(before, record.serial_number));
                }
                self.found_devices.push(device);
                proof {
                    assert(self@.results =~= before.push(record));
                    lemma_upsert_keeps_distinct(before, record);
                }
            },
        }
        stop
    }

    /// Reads the text of one datagram: a response that parses is kept,
    /// anything else is dropped without a trace. Says whether the search is
    /// over.
    pub fn read_response(&mut self, datagram: &str) -> (stop: bool)
        requires
            old(self).wf(),
        ensures
            final(self).wf(),
            final(self)@.target_serial == old(self)@.target_serial,
            final(self)@.target_ip_address == old(self)@.target_ip_address,
            match parsed_response(datagram@) {
                None => final(self)@.results == old(self)@.results && !stop,
                Some(record) => final(self)@.results == upsert(old(self)@.results, record) && stop
                    == hits_target(
                    old(self)@.target_serial,
                    old(self)@.target_ip_address,
                    record,
                ),
            },
    {
        let parsed: Option<SsdpResponse> = parse_search_result(datagram);
        self.record_response(parsed)
    }

    /// Reads one datagram as it came from the network. Bytes that are not
    /// UTF-8 text are foreign traffic and are dropped like any text that
    /// holds no record; they never end the search. Says whether the search
    /// is over.
    pub fn read_datagram(&mut self, datagram: Vec<u8>) -> (stop: bool)
        requires
            old(self).wf(),
        ensures
            final(self).wf(),
            final(self)@.target_serial == old(self)@.target_serial,
            final(self)@.target_ip_address == old(self)@.target_ip_address,
            match datagram_record(datagram@) {
                None => final(self)@.results == old(self)@.results && !stop,
                Some(record) => final(self)@.results == upsert(old(self)@.results, record) && stop
                    == hits_target(
                    old(self)@.target_serial,
                    old(self)@.target_ip_address,
                    record,
                ),
            },
    {
        match text_of_bytes(datagram) {
            None => false,
            Some(text) => self.read_response(text.as_str()),
        }
    }

    /// Decides what a timer means: the deadline ends the search, the resend
    /// timer has the request sent again after the resend interval.
    pub fn timeout(&self, timer: SearchTimer) -> (r: SearchAction)
        ensures
            timer == SearchTimer::Deadline ==> r == SearchAction::Stop,
            timer == SearchTimer::Resend ==> r == SearchAction::Resend(RESEND_SSDP_MS),
    {
        match timer {
            SearchTimer::Deadline => SearchAction::Stop,
            SearchTimer::Resend => SearchAction::Resend(RESEND_SSDP_MS),
        }
    }

    /// One step of a search: takes what happened and says what to do next.
    pub fn step(&mut self, event: SearchEvent) -> (r: SearchAction)
        requires
            old(self).wf(),
        ensures
            final(self).wf(),
            final(self)@.target_serial == old(self)@.target_serial,
            final(self)@.target_ip_address == old(self)@.target_ip_address,
            match event {
                SearchEvent::Writable => final(self)@ == old(self)@ && (r matches SearchAction::Send(
                    text,
                ) && text@ == search_request_text()),
                SearchEvent::Timer(SearchTimer::Deadline) => final(self)@ == old(self)@ && r
                    == SearchAction::Stop,
                SearchEvent::Timer(SearchTimer::Resend) => final(self)@ == old(self)@ && r
                    == SearchAction::Resend(RESEND_SSDP_MS),
                SearchEvent::Datagram(bytes) => match datagram_record(bytes@) {
                    None => final(self)@.results == old(self)@.results && r == SearchAction::Wait,
                    Some(record) => final(self)@.results == upsert(old(self)@.results, record)
                        && r == (if hits_target(
                        old(self)@.target_serial,
                        old(self)@.target_ip_address,
                        record,
                    ) {
                        SearchAction::Stop
                    } else {
                        SearchAction::Wait
                    }),
                },
            },
    {
        match event {
            SearchEvent::Writable => SearchAction::Send(DeviceSearch::search_request()),
            SearchEvent::Timer(timer) => self.timeout(timer),
            SearchEvent::Datagram(bytes) => {
                if self.read_datagram(bytes) {
                    SearchAction::Stop
                } else {
                    SearchAction::Wait
                }
            },
        }
    }
}

/// A response whose location is a URL with an IPv4 host, and which names a
/// serial number, gives a record with exactly that address, the URL's port
/// (80 where it names none), that serial number and that URL. A response
/// without a location, without a serial number, or with any other host gives
/// nothing.
pub proof fn lemma_search_result_exact(location: Option<UrlPartsView>, serial: Option<Seq<char>>)
    ensures
        location is None ==> search_result(location, serial) is None,
        serial is None ==> search_result(location, serial) is None,
        location is Some && location.unwrap().host is None ==> search_result(location, serial)
            is None,
        location is Some && location.unwrap().host is Some && ipv4_of(
            location.unwrap().host.unwrap(),
        ) is None ==> search_result(location, serial) is None,
        location is Some && serial is Some && location.unwrap().host is Some && ipv4_of(
            location.unwrap().host.unwrap(),
        ) is Some ==> {
            let found = search_result(location, serial);
            &&& found is Some
            &&& found.unwrap().ip_address == ipv4_of(location.unwrap().host.unwrap()).unwrap()
            &&& found.unwrap().serial_number == serial.unwrap()
            &&& found.unwrap().setup_url == location.unwrap().href
            &&& location.unwrap().port is Some ==> found.unwrap().port
                == location.unwrap().port.unwrap()
            &&& location.unwrap().port is None ==> found.unwrap().port == DEFAULT_HTTP_PORT
        },
{
}

/// Putting a record in keeps the serial numbers distinct.
pub proof fn lemma_upsert_keeps_distinct(results: Seq<SsdpResponseView>, record: SsdpResponseView)
    requires
        distinct_serials(results),
    ensures
        distinct_serials(upsert(results, record)),
{
    let after = upsert(results, record);
    if has_serial(results, record.serial_number) {
        let at = serial_index(results, record.serial_number);
        assert forall|i: int, j: int|
            0 <= i < after.len() && 0 <= j < after.len() && i != j implies (#[trigger] after[i]).serial_number
            != (#[trigger] after[j]).serial_number by {
            assert(results[i].serial_number != results[j].serial_number);
            assert(after[i].serial_number == results[i].serial_number);
            assert(after[j].serial_number == results[j].serial_number);
        }
    } else {
        assert forall|i: int, j: int|
            0 <= i < after.len() && 0 <= j < after.len() && i != j implies (#[trigger] after[i]).serial_number
            != (#[trigger] after[j]).serial_number by {
            if i < results.len() && j < results.len() {
                assert(results[i].serial_number != results[j].serial_number);
            } else if i < results.len() {
                assert(results[i].serial_number != record.serial_number);
            } else {
                assert(results[j].serial_number != record.serial_number);
            }
        }
    }
}

/// Results are keyed by serial number and the last record wins: putting a
/// record in is an insertion into the map from serial numbers to records.
pub proof fn lemma_upsert_is_insert(results: Seq<SsdpResponseView>, record: SsdpResponseView)
    requires
        distinct_serials(results),
    ensures
        by_serial(upsert(results, record)) == by_serial(results).insert(
            record.serial_number,
            record,
        ),
{
    let after = upsert(results, record);
    let want = by_serial(results).insert(record.serial_number, record);
    lemma_upsert_keeps_distinct(results, record);
    assert forall|serial: Seq<char>| has_serial(after, serial) <==> (serial
        == record.serial_number || has_serial(results, serial)) by {
        if has_serial(results, record.serial_number) {
            let at = serial_index(results, record.serial_number);
            assert(after[at].serial_number == record.serial_number);
            if has_serial(results, serial) {
                let k = serial_index(results, serial);
                assert(after[k].serial_number == serial);
            }
            if has_serial(after, serial) {
                let k = serial_index(after, serial);
                if k != at {
                    assert(results[k].serial_number == serial);
                }
            }
        } else {
            assert(after[results.len() as int].serial_number == record.serial_number);
            if has_serial(results, serial) {
                let k = serial_index(results, serial);
                assert(after[k].serial_number == serial);
            }
            if has_serial(after, serial) {
                let k = serial_index(after, serial);
                if k < results.len() {
                    assert(results[k].serial_number == serial);
                }
            }
        }
    }
    assert forall|serial: Seq<char>| has_serial(after, serial) implies by_serial(after)[serial]
        == want[serial] by {
        let k = serial_index(after, serial);
        if serial == record.serial_number {
            if has_serial(results, record.serial_number) {
                let at = serial_index(results, record.serial_number);
                assert(after[at].serial_number == serial);
                assert(k == at);
            } else {
                if k < results.len() {
                    assert(results[k].serial_number == serial);
                }
            }
        } else {
            if has_serial(results, record.serial_number) {
                let at = serial_index(results, record.serial_number);
                assert(k != at);
            }
            assert(results[k].serial_number == serial);
            let m = serial_index(results, serial);
            assert(m == k);
        }
    }
    assert(by_serial(after) =~= want);
}

/// Searches accumulate. After any run of answers the serial numbers known
/// are those known before and those that came in, and no others; a serial
/// number that no answer carried stands for the record it stood for before;
/// and a serial number that came in stands for the last answer that carried
/// it.
pub proof fn lemma_answers_accumulate(
    results: Seq<SsdpResponseView>,
    answers: Seq<SsdpResponseView>,
)
    requires
        distinct_serials(results),
    ensures
        distinct_serials(absorb(results, answers)),
        forall|serial: Seq<char>|
            has_serial(absorb(results, answers), serial) <==> has_serial(results, serial)
                || has_serial(answers, serial),
        forall|serial: Seq<char>|
            has_serial(results, serial) && !has_serial(answers, serial) ==> by_serial(
                absorb(results, answers),
            )[serial] == by_serial(results)[serial],
        forall|i: int|
            0 <= i < answers.len() && (forall|j: int|
                i < j < answers.len() ==> (#[trigger] answers[j]).serial_number
                    != answers[i].serial_number) ==> by_serial(
                absorb(results, answers),
            )[(#[trigger] answers[i]).serial_number] == answers[i],
    decreases answers.len(),
{
    if answers.len() == 0 {
        assert forall|serial: Seq<char>| !has_serial(answers, serial) by {}
    } else {
        let init = answers.drop_last();
        let last = answers.last();
        let mid = absorb(results, init);
        let all = absorb(results, answers);
        lemma_answers_accumulate(results, init);
        lemma_upsert_keeps_distinct(mid, last);
        lemma_upsert_is_insert(mid, last);
        assert(by_serial(all) == by_serial(mid).insert(last.serial_number, last));
        assert forall|serial: Seq<char>| has_serial(answers, serial) <==> (has_serial(init, serial)
            || serial == last.serial_number) by {
            if has_serial(init, serial) {
                let k = serial_index(init, serial);
                assert(answers[k].serial_number == serial);
            }
            if serial == last.serial_number {
                assert(answers[answers.len() - 1].serial_number == serial);
            }
            if has_serial(answers, serial) {
                let k = serial_index(answers, serial);
                if k < answers.len() - 1 {
                    assert(init[k].serial_number == serial);
                }
            }
        }
        assert forall|serial: Seq<char>|
            has_serial(all, serial) <==> has_serial(results, serial) || has_serial(
                answers,
                serial,
            ) by {
            assert(by_serial(all).dom().contains(serial) == has_serial(all, serial));
            assert(by_serial(mid).dom().contains(serial) == has_serial(mid, serial));
        }
        assert forall|i: int|
            0 <= i < answers.len() && (forall|j: int|
                i < j < answers.len() ==> (#[trigger] answers[j]).serial_number
                    != answers[i].serial_number) implies by_serial(
            all,
        )[(#[trigger] answers[i]).serial_number] == answers[i] by {
            if i < answers.len() - 1 {
                assert(answers[answers.len() - 1].serial_number != answers[i].serial_number);
                assert(init[i] == answers[i]);
                assert forall|j: int| i < j < init.len() implies (#[trigger] init[j]).serial_number
                    != init[i].serial_number by {
                    assert(answers[j].serial_number != answers[i].serial_number);
                }
            }
        }
    }
}

} // verus!
