//! The address of this machine on the local network, chosen among the
//! interfaces that the `get_if_addrs` crate lists.

use vstd::prelude::*;
use crate::addr::Ipv4Addr;
use crate::error::WemoError;
use crate::text::{chars_of, contains, contains_text};

verus! {

/// The address of a network interface.
#[derive(Clone, Copy, Debug, PartialEq, Eq, Structural)]
pub enum InterfaceAddr {
    /// An IPv4 address.
    V4(Ipv4Addr),
    /// An IPv6 address; the library has no use for it.
    V6,
}

/// A network interface of this machine.
#[derive(Debug)]
pub struct Interface {
    /// The name that the system gives the interface.
    pub name: String,
    /// The address of the interface.
    pub addr: InterfaceAddr,
}

/// Whether an interface can be the one that devices call back: it has an
/// IPv4 address that is not a loopback address, and its name does not
/// contain `docker`.
pub open spec fn usable(iface: Interface) -> bool {
    match iface.addr {
        InterfaceAddr::V4(ip) => !ip.spec_is_loopback() && !contains(iface.name@, "docker"@),
        InterfaceAddr::V6 => false,
    }
}

/// The address of the first usable interface.
pub open spec fn local_ip_of(interfaces: Seq<Interface>) -> Option<Ipv4Addr>
    decreases interfaces.len(),
{
    if interfaces.len() == 0 {
        None
    } else if usable(interfaces[0]) {
        match interfaces[0].addr {
            InterfaceAddr::V4(ip) => Some(ip),
            InterfaceAddr::V6 => None,
        }
    } else {
        local_ip_of(interfaces.drop_first())
    }
}

/// Asks the system for its interfaces with `get_if_addrs::get_if_addrs` and
/// hands each out by its name and address, or hands out the system's error.
/// Nothing is claimed of the answer: it depends on the machine.
#[verifier::external_body]
pub(crate) fn system_interfaces() -> (r: Result<Vec<Interface>, std::io::Error>) {
    let found = get_if_addrs::get_if_addrs()?;
    Ok(
        found.into_iter().map(
            |i| Interface {
                name: i.name,
                addr: match i.addr {
                    get_if_addrs::IfAddr::V4(v4) => InterfaceAddr::V4(Ipv4Addr::from_octets(v4.ip.octets())),
                    get_if_addrs::IfAddr::V6(_) => InterfaceAddr::V6,
                },
            },
        ).collect(),
    )
}

/// Whether an interface can be the one that devices call back.
pub fn is_usable(iface: &Interface) -> (r: bool)
    ensures
        r == usable(*iface),
{
    match iface.addr {
        InterfaceAddr::V6 => false,
        InterfaceAddr::V4(ip) => {
            if ip.is_loopback() {
                false
            } else {
                let name: Vec<char> = chars_of(iface.name.as_str());
                let docker: Vec<char> = chars_of("docker");
                !contains_text(&name, &docker)
            }
        },
    }
}

/// Chooses the local address among the interfaces: the address of the first
/// that is usable. Fails with `NoLocalIp` where none is.
pub fn pick_local_ip(interfaces: &Vec<Interface>) -> (r: Result<Ipv4Addr, WemoError>)
    ensures
        r == (match local_ip_of(interfaces@) {
            Some(ip) => Ok::<Ipv4Addr, WemoError>(ip),
            None => Err::<Ipv4Addr, WemoError>(WemoError::NoLocalIp),
        }),
{
    let mut i: usize = 0;
    proof {
        assert(interfaces@.skip(0) =~= interfaces@);
    }
    while i < interfaces.len()
        invariant
            i <= interfaces.len(),
            local_ip_of(interfaces@) == local_ip_of(interfaces@.skip(i as int)),
        decreases interfaces.len() - i,
    {
        proof {
            assert(interfaces@.skip(i as int)[0] == interfaces@[i as int]);
            assert(interfaces@.skip(i as int).drop_first() =~= interfaces@.skip(i + 1));
        }
        if is_usable(&interfaces[i]) {
            match interfaces[i].addr {
                InterfaceAddr::V4(ip) => { return Ok(ip); },
                InterfaceAddr::V6 => {},
            }
        }
        i += 1;
    }
    Err(WemoError::NoLocalIp)
}

/// The local address for what listing the interfaces gave.
pub open spec fn local_ip_for(listing: Result<Vec<Interface>, std::io::Error>) -> Result<
    Ipv4Addr,
    WemoError,
> {
    match listing {
        Err(cause) => Err(WemoError::IoError { cause }),
        Ok(interfaces) => match local_ip_of(interfaces@) {
            Some(ip) => Ok(ip),
            None => Err(WemoError::NoLocalIp),
        },
    }
}

/// Turns what listing the interfaces gave into the local address. A listing
/// that failed gives the system's error as `IoError`; a listing with a
/// usable interface gives the address of the first such; any other listing
/// gives `NoLocalIp`.
pub fn local_ip_from(listing: Result<Vec<Interface>, std::io::Error>) -> (r: Result<
    Ipv4Addr,
    WemoError,
>)
    ensures
        r == local_ip_for(listing),
        r matches Ok(ip) ==> !ip.spec_is_loopback(),
        r matches Err(e) ==> e is IoError || e is NoLocalIp,
{
    match listing {
        Err(cause) => Err(WemoError::from(cause)),
        Ok(interfaces) => {
            proof {
                lemma_local_ip_is_usable(interfaces@);
            }
            pick_local_ip(&interfaces)
        },
    }
}

/// The address of this machine on the local network: that of the first
/// interface with an IPv4 address that is neither a loopback address nor a
/// docker interface. Fails with the system's error where the interfaces
/// cannot be listed, and with `NoLocalIp` where none of them will do.
/// Which of these comes out depends on the machine; `local_ip_from` says
/// what comes out for each listing.
pub fn get_local_ip() -> (r: Result<Ipv4Addr, WemoError>)
    ensures
        r matches Ok(ip) ==> !ip.spec_is_loopback(),
        r matches Err(e) ==> e is IoError || e is NoLocalIp,
{
    local_ip_from(system_interfaces())
}

/// The address chosen belongs to a usable interface of the list, and an
/// address is chosen exactly when the list holds a usable interface.
pub proof fn lemma_local_ip_is_usable(interfaces: Seq<Interface>)
    ensures
        local_ip_of(interfaces) is Some <==> exists|i: int|
            0 <= i < interfaces.len() && usable(#[trigger] interfaces[i]),
        local_ip_of(interfaces) is Some ==> !local_ip_of(interfaces).unwrap().spec_is_loopback(),
    decreases interfaces.len(),
{
    if interfaces.len() == 0 {
    } else if usable(interfaces[0]) {
    } else {
        let rest = interfaces.drop_first();
        lemma_local_ip_is_usable(rest);
        if local_ip_of(rest) is Some {
            let i = choose|i: int| 0 <= i < rest.len() && usable(#[trigger] rest[i]);
            assert(interfaces[i + 1] == rest[i]);
        }
        if exists|i: int| 0 <= i < interfaces.len() && usable(#[trigger] interfaces[i]) {
            let i = choose|i: int| 0 <= i < interfaces.len() && usable(#[trigger] interfaces[i]);
            assert(rest[i - 1] == interfaces[i]);
        }
    }
}

} // verus!
