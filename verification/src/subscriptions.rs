//! Subscriptions to the events that switches push: the table of
//! subscriptions, the requests that start and renew them, and the choice of
//! the callback that an incoming notification goes to.

use vstd::prelude::*;
use vstd::string::*;
use crate::addr::Ipv4Addr;
use crate::error::WemoError;
use crate::parsing::{parse_state, state_of_capture, state_pattern};
use crate::pattern::{first_capture, regex_group_matches};
use crate::state::WemoState;
use crate::text::{decimal_text, format_decimal, same_text};

verus! {

/// The renewal loop sends its requests again after this many seconds,
/// whatever the time that a subscription lasts.
pub const RENEWAL_PERIOD_SEC: u64 = 30;

/// Each kind of notification.
#[derive(Clone, Copy, Debug, PartialEq, Eq, Structural)]
pub enum NotificationType {
    /// The switch changed to this state.
    State { state: WemoState },
}

/// One notification from a switch.
#[derive(Debug)]
pub struct Notification {
    pub notification_type: NotificationType,
    /// The host that was subscribed to, as `ip:port`.
    pub subscription_key: String,
}

/// One entry of the table: a host and what to call when it sends an event.
pub struct Subscription<C> {
    pub host: String,
    pub callback: Option<C>,
}

/// A notification together with the callback that it goes to.
pub struct Dispatch<'a, C> {
    pub notification: Notification,
    pub callback: &'a C,
}

/// The table of subscriptions and the settings of the notification server.
pub struct Subscriptions<C> {
    callback_port: u16,
    subscription_ttl_sec: u16,
    /// Whether the notification server is listening.
    serving: bool,
    /// Whether the renewal loop has been started.
    polling: bool,
    /// Whether the renewal loop is to go on.
    continue_polling: bool,
    subscriptions: Vec<Subscription<C>>,
}

/// The mathematical content of a [`Subscriptions`].
pub struct SubscriptionsView<C> {
    pub callback_port: u16,
    pub subscription_ttl_sec: u16,
    pub serving: bool,
    pub polling: bool,
    pub continue_polling: bool,
    /// The entries, in the order in which their hosts first came.
    pub table: Seq<Subscription<C>>,
}

impl<C> View for Subscriptions<C> {
    type V = SubscriptionsView<C>;

    closed spec fn view(&self) -> SubscriptionsView<C> {
        SubscriptionsView {
            callback_port: self.callback_port,
            subscription_ttl_sec: self.subscription_ttl_sec,
            serving: self.serving,
            polling: self.polling,
            continue_polling: self.continue_polling,
            table: self.subscriptions@,
        }
    }
}

/// The text of a subscription request: the callback URL made of the local
/// address, the callback port and the host; the time the subscription lasts;
/// and the host.
pub open spec fn subscribe_request_text(
    local_ip: Ipv4Addr,
    host: Seq<char>,
    subscription_ttl_sec: u16,
    callback_port: u16,
) -> Seq<char> {
    "SUBSCRIBE /upnp/event/basicevent1 HTTP/1.1\r\nCALLBACK: <http://"@ + local_ip.text() + ":"@
        + decimal_text(callback_port as nat) + "/?from="@ + host
        + ">\r\nNT: upnp:event\r\nTIMEOUT: Second-"@ + decimal_text(subscription_ttl_sec as nat)
        + "\r\nHost: "@ + host + "\r\n\r\n"@
}

/// The address that the notification server listens on.
pub open spec fn listen_address_text(callback_port: u16) -> Seq<char> {
    "0.0.0.0:"@ + decimal_text(callback_port as nat)
}

/// Writes the request that subscribes to the events of `host`, or renews
/// that subscription.
pub fn subscribe_request(
    local_ip: Ipv4Addr,
    host: &str,
    subscription_ttl_sec: u16,
    callback_port: u16,
) -> (r: String)
    ensures
        r@ == subscribe_request_text(local_ip, host@, subscription_ttl_sec, callback_port),
{
    let mut out: String = "SUBSCRIBE /upnp/event/basicevent1 HTTP/1.1\r\nCALLBACK: <http://".to_owned();
    out.append(local_ip.to_string().as_str());
    out.append(":");
    out.append(format_decimal(callback_port as u64).as_str());
    out.append("/?from=");
    out.append(host);
    out.append(">\r\nNT: upnp:event\r\nTIMEOUT: Second-");
    out.append(format_decimal(subscription_ttl_sec as u64).as_str());
    out.append("\r\nHost: ");
    out.append(host);
    out.append("\r\n\r\n");
    proof {
        assert(out@ =~= subscribe_request_text(
            local_ip,
            host@,
            subscription_ttl_sec,
            callback_port,
        ));
    }
    out
}

/// Whether the table has an entry for `host`.
pub open spec fn has_host<C>(table: Seq<Subscription<C>>, host: Seq<char>) -> bool {
    exists|i: int| 0 <= i < table.len() && (#[trigger] table[i]).host@ == host
}

/// The place of an entry for `host`.
pub open spec fn host_index<C>(table: Seq<Subscription<C>>, host: Seq<char>) -> int {
    choose|i: int| 0 <= i < table.len() && (#[trigger] table[i]).host@ == host
}

/// Whether no two entries are for the same host.
pub open spec fn distinct_hosts<C>(table: Seq<Subscription<C>>) -> bool {
    forall|i: int, j: int|
        0 <= i < table.len() && 0 <= j < table.len() && i != j ==> (#[trigger] table[i]).host@
            != (#[trigger] table[j]).host@
}

/// Whether `after` is `before` with an entry for `host` and `callback` put
/// in: in the place of the entry for that host, or at the end where there
/// was none. Every other entry stays where it was.
pub open spec fn is_put<C>(
    before: Seq<Subscription<C>>,
    after: Seq<Subscription<C>>,
    host: Seq<char>,
    callback: Option<C>,
) -> bool {
    let at = if has_host(before, host) {
        host_index(before, host)
    } else {
        before.len() as int
    };
    &&& after.len() == (if has_host(before, host) {
        before.len()
    } else {
        before.len() + 1
    })
    &&& after[at].host@ == host
    &&& after[at].callback == callback
    &&& forall|i: int| 0 <= i < before.len() && i != at ==> #[trigger] after[i] == before[i]
}

/// The callback registered for `host`, if the table has an entry for it and
/// the entry has a callback.
pub open spec fn callback_for<C>(table: Seq<Subscription<C>>, host: Seq<char>) -> Option<C> {
    if has_host(table, host) {
        table[host_index(table, host)].callback
    } else {
        None
    }
}

/// Where a notification goes: to the callback registered for the host named
/// in the request, provided the request names a host, its body holds a
/// state, and the host has a callback. The result is the host, the state and
/// the callback.
pub open spec fn dispatch_of<C>(
    table: Seq<Subscription<C>>,
    from: Option<Seq<char>>,
    state: Result<WemoState, WemoError>,
) -> Option<(Seq<char>, WemoState, C)> {
    if from is Some && state is Ok && callback_for(table, from.unwrap()) is Some {
        Some((from.unwrap(), state.unwrap(), callback_for(table, from.unwrap()).unwrap()))
    } else {
        None
    }
}

/// The host, state and callback of a dispatch.
pub open spec fn dispatch_view<C>(d: Option<Dispatch<'_, C>>) -> Option<(Seq<char>, WemoState, C)> {
    match d {
        Some(dispatch) => Some(
            (
                dispatch.notification.subscription_key@,
                match dispatch.notification.notification_type {
                    NotificationType::State { state } => state,
                },
                *dispatch.callback,
            ),
        ),
        None => None,
    }
}

impl<C> Subscriptions<C> {
    /// No two entries of the table are for the same host.
    pub open spec fn wf(&self) -> bool {
        distinct_hosts(self@.table)
    }

    /// An empty table, with the port that the notification server will
    /// listen on and the time in seconds that a subscription lasts. Nothing
    /// is running yet.
    pub fn new(callback_port: u16, subscription_ttl_sec: u16) -> (r: Subscriptions<C>)
        ensures
            r.wf(),
            r@.callback_port == callback_port,
            r@.subscription_ttl_sec == subscription_ttl_sec,
            !r@.serving,
            !r@.polling,
            !r@.continue_polling,
            r@.table.len() == 0,
    {
        Subscriptions {
            callback_port,
            subscription_ttl_sec,
            serving: false,
            polling: false,
            continue_polling: false,
            subscriptions: Vec::new(),
        }
    }

    /// The place of the entry for `host`, if there is one.
    pub fn find(&self, host: &String) -> (r: Option<usize>)
        requires
            self.wf(),
        ensures
            r is Some <==> has_host(self@.table, host@),
            r is Some ==> r.unwrap() as int == host_index(self@.table, host@) && r.unwrap()
                < self@.table.len(),
    {
        let mut i: usize = 0;
        while i < self.subscriptions.len()
            invariant
                i <= self.subscriptions.len(),
                self.wf(),
                forall|j: int| 0 <= j < i ==> (#[trigger] self@.table[j]).host@ != host@,
            decreases self.subscriptions.len() - i,
        {
            if same_text(&self.subscriptions[i].host, host) {
                proof {
                    assert(self@.table[i as int].host@ == host@);
                }
                return Some(i);
            }
            i += 1;
        }
        None
    }

    /// Whether the table has an entry for `host`.
    pub fn is_subscribed(&self, host: &str) -> (r: bool)
        requires
            self.wf(),
        ensures
            r == has_host(self@.table, host@),
    {
        let key: String = host.to_owned();
        self.find(&key).is_some()
    }

    /// The port that the notification server listens on.
    pub fn callback_port(&self) -> (r: u16)
        ensures
            r == self@.callback_port,
    {
        self.callback_port
    }

    /// The time in seconds that a subscription lasts.
    pub fn subscription_ttl_sec(&self) -> (r: u16)
        ensures
            r == self@.subscription_ttl_sec,
    {
        self.subscription_ttl_sec
    }

    /// Whether the notification server is listening.
    pub fn is_serving(&self) -> (r: bool)
        ensures
            r == self@.serving,
    {
        self.serving
    }

    /// Whether the renewal loop is to go on.
    pub fn is_polling(&self) -> (r: bool)
        ensures
            r == (self@.polling && self@.continue_polling),
    {
        self.polling && self.continue_polling
    }

    /// The number of entries in the table.
    pub fn len(&self) -> (r: usize)
        ensures
            r == self@.table.len(),
    {
        self.subscriptions.len()
    }

    /// Puts an entry into the table, in the place of an earlier one for the
    /// same host or else at the end.
    pub fn register_subscription(&mut self, subscription: Subscription<C>)
        requires
            old(self).wf(),
        ensures
            final(self).wf(),
            final(self)@.callback_port == old(self)@.callback_port,
            final(self)@.subscription_ttl_sec == old(self)@.subscription_ttl_sec,
            final(self)@.serving == old(self)@.serving,
            final(self)@.polling == old(self)@.polling,
            final(self)@.continue_polling == old(self)@.continue_polling,
            final(self)@.table == (if has_host(old(self)@.table, subscription.host@) {
                old(self)@.table.update(
                    host_index(old(self)@.table, subscription.host@),
                    subscription,
                )
            } else {
                old(self)@.table.push(subscription)
            }),
            callback_for(final(self)@.table, subscription.host@) == subscription.callback,
    {
        let ghost before = self@.table;
        match self.find(&subscription.host) {
            Some(at) => {
                self.subscriptions.set(at, subscription);
                proof {
                    let after = self@.table;
                    assert forall|i: int, j: int|
                        0 <= i < after.len() && 0 <= j < after.len() && i != j implies (#[trigger] after[i]).host@
                        != (#[trigger] after[j]).host@ by {
                        assert(before[i].host@ != before[j].host@);
                        assert(after[i].host@ == before[i].host@);
                        assert(after[j].host@ == before[j].host@);
                    }
                    assert(after[at as int].host@ == subscription.host@);
                }
            },
            None => {
                self.subscriptions.push(subscription);
                proof {
                    let after = self@.table;
                    assert forall|i: int, j: int|
                        0 <= i < after.len() && 0 <= j < after.len() && i != j implies (#[trigger] after[i]).host@
                        != (#[trigger] after[j]).host@ by {
                        if i < before.len() && j < before.len() {
                            assert(before[i].host@ != before[j].host@);
                        } else if i < before.len() {
                            assert(before[i].host@ != subscription.host@);
                        } else {
                            assert(before[j].host@ != subscription.host@);
                        }
                    }
                    assert(after[before.len() as int].host@ == subscription.host@);
                }
            },
        }
    }

    /// Finishes subscribing to `host`, given how sending the request went.
    /// A request that was sent registers the callback; a failure is handed
    /// back and nothing is registered.
    pub fn subscribe(&mut self, host: &str, callback: C, sent: Result<(), WemoError>) -> (r: Result<
        (),
        WemoError,
    >)
        requires
            old(self).wf(),
        ensures
            final(self).wf(),
            r == sent,
            final(self)@.callback_port == old(self)@.callback_port,
            final(self)@.subscription_ttl_sec == old(self)@.subscription_ttl_sec,
            final(self)@.serving == old(self)@.serving,
            final(self)@.polling == old(self)@.polling,
            final(self)@.continue_polling == old(self)@.continue_polling,
            sent is Err ==> final(self)@.table == old(self)@.table,
            sent is Ok ==> is_put(old(self)@.table, final(self)@.table, host@, Some(callback)),
            sent is Ok ==> callback_for(final(self)@.table, host@) == Some(callback)
                && forall|other: Seq<char>|
                other != host@ ==> has_host(final(self)@.table, other) == has_host(
                    old(self)@.table,
                    other,
                ) && callback_for(final(self)@.table, other) == callback_for(
                    old(self)@.table,
                    other,
                ),
    {
        if sent.is_ok() {
            let ghost before = self@.table;
            let subscription = Subscription { host: host.to_owned(), callback: Some(callback) };
            self.register_subscription(subscription);
            proof {
                lemma_put_keeps_others(before, self@.table, subscription);
            }
        }
        sent
    }

    /// Removes the entry for `host`, if there is one. Nothing is sent to the
    /// device, and the other entries stay.
    pub fn unsubscribe(&mut self, host: &str) -> (r: Result<(), WemoError>)
        requires
            old(self).wf(),
        ensures
            final(self).wf(),
            r is Ok,
            final(self)@.callback_port == old(self)@.callback_port,
            final(self)@.subscription_ttl_sec == old(self)@.subscription_ttl_sec,
            final(self)@.serving == old(self)@.serving,
            final(self)@.polling == old(self)@.polling,
            final(self)@.continue_polling == old(self)@.continue_polling,
            final(self)@.table == (if has_host(old(self)@.table, host@) {
                old(self)@.table.remove(host_index(old(self)@.table, host@))
            } else {
                old(self)@.table
            }),
            !has_host(final(self)@.table, host@),
    {
        let ghost before = self@.table;
        let key: String = host.to_owned();
        match self.find(&key) {
            None => {},
            Some(at) => {
                let _gone = self.subscriptions.remove(at);
                proof {
                    let after = self@.table;
                    assert(after =~= before.remove(at as int));
                    assert forall|i: int| 0 <= i < after.len() implies #[trigger] after[i] == before[if i
                        < at {
                        i
                    } else {
                        i + 1
                    }] by {}
                    assert forall|i: int, j: int|
                        0 <= i < after.len() && 0 <= j < after.len() && i != j implies (#[trigger] after[i]).host@
                        != (#[trigger] after[j]).host@ by {
                        let bi = if i < at { i } else { i + 1 };
                        let bj = if j < at { j } else { j + 1 };
                        assert(before[bi].host@ != before[bj].host@);
                    }
                    assert forall|i: int| 0 <= i < after.len() implies (#[trigger] after[i]).host@
                        != host@ by {
                        let bi = if i < at { i } else { i + 1 };
                        assert(before[bi].host@ != before[at as int].host@);
                    }
                }
            },
        }
        Ok(())
    }

    /// Says what starting the server takes: nothing where it is already
    /// listening, else the address to listen on.
    pub fn start_server(&self) -> (r: Option<String>)
        ensures
            self@.serving ==> r is None,
            !self@.serving ==> r is Some && r.unwrap()@ == listen_address_text(self@.callback_port),
    {
        if self.serving {
            None
        } else {
            let mut address: String = "0.0.0.0:".to_owned();
            address.append(format_decimal(self.callback_port as u64).as_str());
            Some(address)
        }
    }

    /// Records how starting the listener went. Once it listens, the renewal
    /// loop is to run as well, and the result says whether the caller has to
    /// launch it; where the listener could not be started, nothing changes
    /// and the failure is reported as `IronError`.
    pub fn server_started(&mut self, listening: bool) -> (r: Result<bool, WemoError>)
        ensures
            final(self)@.callback_port == old(self)@.callback_port,
            final(self)@.subscription_ttl_sec == old(self)@.subscription_ttl_sec,
            final(self)@.table == old(self)@.table,
            listening ==> r == Ok::<bool, WemoError>(!old(self)@.polling) && final(self)@.serving
                && final(self)@.polling && final(self)@.continue_polling == (old(self)@.polling
                ==> old(self)@.continue_polling),
            !listening ==> r == Err::<bool, WemoError>(WemoError::IronError) && *final(self)
                == *old(self),
    {
        if listening {
            self.serving = true;
            Ok(self.start_polling())
        } else {
            Err(WemoError::IronError)
        }
    }

    /// Marks the renewal loop as started and to go on; says whether the
    /// caller has to launch it, which is so unless it was started before.
    pub fn start_polling(&mut self) -> (launch: bool)
        ensures
            launch == !old(self)@.polling,
            final(self)@.polling,
            final(self)@.continue_polling == (old(self)@.polling ==> old(self)@.continue_polling),
            final(self)@.callback_port == old(self)@.callback_port,
            final(self)@.subscription_ttl_sec == old(self)@.subscription_ttl_sec,
            final(self)@.table == old(self)@.table,
            final(self)@.serving == old(self)@.serving,
    {
        if self.polling {
            return false;
        }
        self.continue_polling = true;
        self.polling = true;
        true
    }

    /// Marks the renewal loop as stopped.
    pub fn stop_polling(&mut self)
        ensures
            !final(self)@.polling,
            !final(self)@.continue_polling,
            final(self)@.callback_port == old(self)@.callback_port,
            final(self)@.subscription_ttl_sec == old(self)@.subscription_ttl_sec,
            final(self)@.table == old(self)@.table,
            final(self)@.serving == old(self)@.serving,
    {
        self.polling = false;
        self.continue_polling = false;
    }

    /// Begins stopping the server: where it is listening, the renewal loop
    /// is stopped and the caller has to close the listener; where it is not,
    /// nothing changes.
    pub fn stop_server(&mut self) -> (close: bool)
        ensures
            close == old(self)@.serving,
            !old(self)@.serving ==> *final(self) == *old(self),
            old(self)@.serving ==> !final(self)@.polling && !final(self)@.continue_polling
                && final(self)@.serving,
            final(self)@.callback_port == old(self)@.callback_port,
            final(self)@.subscription_ttl_sec == old(self)@.subscription_ttl_sec,
            final(self)@.table == old(self)@.table,
    {
        if !self.serving {
            return false;
        }
        self.stop_polling();
        true
    }

    /// Records how closing the listener went: once closed, the server is no
    /// longer listening; a failure is reported as `IronError`.
    pub fn server_stopped(&mut self, closed: bool) -> (r: Result<(), WemoError>)
        ensures
            final(self)@.callback_port == old(self)@.callback_port,
            final(self)@.subscription_ttl_sec == old(self)@.subscription_ttl_sec,
            final(self)@.table == old(self)@.table,
            final(self)@.polling == old(self)@.polling,
            final(self)@.continue_polling == old(self)@.continue_polling,
            closed ==> r is Ok && !final(self)@.serving,
            !closed ==> r == Err::<(), WemoError>(WemoError::IronError) && final(self)@.serving
                == old(self)@.serving,
    {
        if closed {
            self.serving = false;
            Ok(())
        } else {
            Err(WemoError::IronError)
        }
    }

    /// Chooses the callback for a notification whose request named the host
    /// `from` and whose body was read as `state`.
    pub fn dispatch(&self, from: Option<&str>, state: Result<WemoState, WemoError>) -> (r: Option<
        Dispatch<'_, C>,
    >)
        requires
            self.wf(),
        ensures
            dispatch_view(r) == dispatch_of(
                self@.table,
                match from {
                    Some(host) => Some(host@),
                    None => None,
                },
                state,
            ),
    {
        let host: String = match from {
            Some(h) => h.to_owned(),
            None => { return None; },
        };
        let state: WemoState = match state {
            Ok(s) => s,
            Err(_) => { return None; },
        };
        let at: usize = match self.find(&host) {
            Some(at) => at,
            None => { return None; },
        };
        match &self.subscriptions[at].callback {
            None => None,
            Some(callback) => Some(
                Dispatch {
                    notification: Notification {
                        notification_type: NotificationType::State { state },
                        subscription_key: host,
                    },
                    callback,
                },
            ),
        }
    }

    /// Reads an incoming notification: the host named by the request's
    /// `from` parameter and the body. Gives the notification and the
    /// callback it goes to, or nothing where the request names no host, the
    /// body holds no state, or no callback is registered for the host. The
    /// request is to be acknowledged either way.
    pub fn notification(&self, from: Option<&str>, body: &str) -> (r: Option<Dispatch<'_, C>>)
        requires
            self.wf(),
        ensures
            dispatch_view(r) == dispatch_of(
                self@.table,
                match from {
                    Some(host) => Some(host@),
                    None => None,
                },
                state_of_capture(first_capture(regex_group_matches(state_pattern(), body@, 1))),
            ),
    {
        let state: Result<WemoState, WemoError> = parse_state(body);
        self.dispatch(from, state)
    }

    /// The requests that renew every subscription of the table, each with
    /// the host it goes to, in the order of the table.
    pub fn renewal_requests(&self, local_ip: Ipv4Addr) -> (r: Vec<(String, String)>)
        ensures
            r@.len() == self@.table.len(),
            forall|i: int|
                0 <= i < r@.len() ==> (#[trigger] r@[i]).0@ == self@.table[i].host@
                    && r@[i].1@ == subscribe_request_text(
                    local_ip,
                    self@.table[i].host@,
                    self@.subscription_ttl_sec,
                    self@.callback_port,
                ),
    {
        let mut out: Vec<(String, String)> = Vec::new();
        let mut i: usize = 0;
        while i < self.subscriptions.len()
            invariant
                i <= self.subscriptions.len(),
                out@.len() == i,
                forall|k: int|
                    0 <= k < i ==> (#[trigger] out@[k]).0@ == self@.table[k].host@
                        && out@[k].1@ == subscribe_request_text(
                        local_ip,
                        self@.table[k].host@,
                        self.subscription_ttl_sec,
                        self.callback_port,
                    ),
            decreases self.subscriptions.len() - i,
        {
            let host: String = self.subscriptions[i].host.clone();
            let request: String = subscribe_request(
                local_ip,
                host.as_str(),
                self.subscription_ttl_sec,
                self.callback_port,
            );
            out.push((host, request));
            i += 1;
        }
        out
    }
}

/// Putting an entry into a table leaves every other host as it was.
pub proof fn lemma_put_keeps_others<C>(
    before: Seq<Subscription<C>>,
    after: Seq<Subscription<C>>,
    subscription: Subscription<C>,
)
    requires
        distinct_hosts(before),
        distinct_hosts(after),
        after == (if has_host(before, subscription.host@) {
            before.update(host_index(before, subscription.host@), subscription)
        } else {
            before.push(subscription)
        }),
    ensures
        forall|other: Seq<char>|
            other != subscription.host@ ==> has_host(after, other) == has_host(before, other)
                && callback_for(after, other) == callback_for(before, other),
{
    assert forall|other: Seq<char>| other != subscription.host@ implies has_host(after, other)
        == has_host(before, other) && callback_for(after, other) == callback_for(
        before,
        other,
    ) by {
        if has_host(before, other) {
            let k = host_index(before, other);
            assert(after[k].host@ == other);
            assert(after[k] == before[k]);
            let m = host_index(after, other);
            assert(m == k);
        }
        if has_host(after, other) {
            let m = host_index(after, other);
            assert(m < before.len());
            assert(before[m].host@ == other);
            let k = host_index(before, other);
            assert(k == m);
        }
    }
}

/// A notification for a host that is not in the table goes to no callback,
/// whatever its body holds.
pub proof fn lemma_unregistered_host_gets_no_callback<C>(
    table: Seq<Subscription<C>>,
    host: Seq<char>,
    state: Result<WemoState, WemoError>,
)
    requires
        !has_host(table, host),
    ensures
        dispatch_of(table, Some(host), state) is None,
{
}

} // verus!
