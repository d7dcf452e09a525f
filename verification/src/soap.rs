//! The control request sent to a device, and the bookkeeping of the one
//! exchange that a client makes.

use vstd::prelude::*;
use vstd::string::*;
use crate::text::{decimal_text, format_decimal};

verus! {

/// A SOAP request to a device.
#[derive(Clone, Debug)]
pub struct SoapRequest {
    pub request_path: String,
    pub soap_action: String,
    pub http_post_payload: String,
}

/// The HTTP text of a request: request line, content type, an empty `Accept`,
/// the quoted action, the payload's length in bytes, a blank line, the payload.
pub open spec fn http_request_text(path: Seq<char>, action: Seq<char>, payload: Seq<char>) -> Seq<
    char,
> {
    "POST "@ + path
        + " HTTP/1.1\r\nContent-Type: text/xml; charset=\"utf-8\"\r\nAccept:\r\nSOAPACTION: \""@
        + action + "\"\r\nContent-Length: "@ + decimal_text(vstd::utf8::encode_utf8(payload).len())
        + "\r\n\r\n"@ + payload
}

impl SoapRequest {
    /// The HTTP text of this request.
    pub open spec fn http_text(&self) -> Seq<char> {
        http_request_text(self.request_path@, self.soap_action@, self.http_post_payload@)
    }

    /// Writes the request as the HTTP text that goes on the wire.
    pub fn to_http(&self) -> (r: String)
        ensures
            r@ == self.http_text(),
    {
        let length: usize = self.http_post_payload.as_str().as_bytes().len();
        let mut out: String = "POST ".to_owned();
        out.append(self.request_path.as_str());
        out.append(
            " HTTP/1.1\r\nContent-Type: text/xml; charset=\"utf-8\"\r\nAccept:\r\nSOAPACTION: \"",
        );
        out.append(self.soap_action.as_str());
        out.append("\"\r\nContent-Length: ");
        out.append(format_decimal(length as u64).as_str());
        out.append("\r\n\r\n");
        out.append(self.http_post_payload.as_str());
        proof {
            assert(out@ =~= self.http_text());
        }
        out
    }
}

/// What a client does next when its socket is ready.
#[derive(Clone, Copy, Debug, PartialEq, Eq, Structural)]
pub enum SoapStep {
    /// Read the response until the peer closes.
    Read,
    /// Write the pending request.
    Write,
    /// Nothing to do.
    Wait,
}

/// The state of the single exchange that a client makes: the request not yet
/// written, and the response once it has been read whole.
#[derive(Debug)]
pub struct SoapClient {
    pub soap_request: Option<SoapRequest>,
    pub soap_response: Option<String>,
}

impl SoapClient {
    /// A client that has neither a request to send nor a response.
    pub fn new() -> (r: SoapClient)
        ensures
            r.soap_request is None,
            r.soap_response is None,
    {
        SoapClient { soap_request: None, soap_response: None }
    }

    /// Hands the client the request to send.
    pub fn post(&mut self, soap_request: SoapRequest)
        ensures
            final(self).soap_request == Some(soap_request),
            final(self).soap_response == old(self).soap_response,
    {
        self.soap_request = Some(soap_request);
    }

    /// Chooses what to do on a readiness event: reading comes before writing.
    pub fn ready(&self, readable: bool, writable: bool) -> (r: SoapStep)
        ensures
            readable ==> r == SoapStep::Read,
            !readable && writable ==> r == SoapStep::Write,
            !readable && !writable ==> r == SoapStep::Wait,
    {
        if readable {
            SoapStep::Read
        } else if writable {
            SoapStep::Write
        } else {
            SoapStep::Wait
        }
    }

    /// The text to write: that of the pending request, if there is one.
    pub fn write_request(&self) -> (r: Option<String>)
        ensures
            match self.soap_request {
                Some(request) => r is Some && r.unwrap()@ == request.http_text(),
                None => r is None,
            },
    {
        match &self.soap_request {
            Some(request) => Some(request.to_http()),
            None => None,
        }
    }

    /// Records how writing went. A request written whole is no longer
    /// pending; one that failed stays. Says whether to go on to reading.
    pub fn request_written(&mut self, written: bool) -> (listen: bool)
        ensures
            listen == written,
            written ==> final(self).soap_request is None,
            !written ==> final(self).soap_request == old(self).soap_request,
            final(self).soap_response == old(self).soap_response,
    {
        if written {
            self.soap_request = None;
        }
        written
    }

    /// Records what reading gave. A response read to the end is kept and
    /// ends the exchange; a failed read changes nothing. Says whether the
    /// exchange is over.
    pub fn read_response(&mut self, received: Option<String>) -> (done: bool)
        ensures
            done == received is Some,
            received is Some ==> final(self).soap_response == received,
            received is None ==> final(self).soap_response == old(self).soap_response,
            final(self).soap_request == old(self).soap_request,
    {
        match received {
            Some(body) => {
                self.soap_response = Some(body);
                true
            },
            None => false,
        }
    }

    /// Hands out the response, leaving none behind. After a timeout nothing
    /// was recorded, so nothing is handed out.
    pub fn take_response(&mut self) -> (r: Option<String>)
        ensures
            r == old(self).soap_response,
            final(self).soap_response is None,
            final(self).soap_request == old(self).soap_request,
    {
        self.soap_response.take()
    }
}

} // verus!
