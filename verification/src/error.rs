//! The failures that the library reports.

use vstd::prelude::*;

verus! {

/// `std::io::Error`, the failure of an operating-system call. Values of it
/// are carried through untouched; nothing is known of what they hold.
#[verifier::external_type_specification]
#[verifier::external_body]
pub struct ExIoError(std::io::Error);

/// Every kind of failure reported by the library.
#[derive(Debug)]
pub enum WemoError {
    /// The device answered, but not in a way that could be understood.
    BadResponseError,
    /// An I/O failure of the operating system.
    IoError { cause: std::io::Error },
    /// The text received from the device could not be parsed.
    ParsingError,
    /// The time allowed for the operation ran out.
    TimeoutError,
    /// The device reported a problem with the request.
    WemoError,
    /// The notification server could not be started or stopped.
    IronError,
    /// A lock could not be taken.
    LockError,
    /// A notification could not be matched to a subscription.
    SubscriptionError,
    /// No address of this machine on the local network was found.
    NoLocalIp,
}

impl WemoError {
    /// The text shown for an error, the same for every kind.
    pub fn to_string(&self) -> (r: String)
        ensures
            r@ == "WemoError"@,
    {
        "WemoError".to_owned()
    }

}

impl From<std::io::Error> for WemoError {
    fn from(error: std::io::Error) -> (r: WemoError)
        ensures
            r == (WemoError::IoError { cause: error }),
    {
        WemoError::IoError { cause: error }
    }
}

impl vstd::std_specs::convert::FromSpecImpl<std::io::Error> for WemoError {
    open spec fn obeys_from_spec() -> bool {
        true
    }

    open spec fn from_spec(error: std::io::Error) -> WemoError {
        WemoError::IoError { cause: error }
    }
}

} // verus!
