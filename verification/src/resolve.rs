//! Interface resolution: enumerate the network interfaces visible to the
//! process and pick the first whose name exactly matches a requested name.

use vstd::prelude::*;
use crate::errors::SockError;

verus! {

#[verifier::external_type_specification]
#[verifier::external_body]
/// Declares pnet's interface descriptor so that values of it can run through
/// verified code; the descriptor itself stays opaque here.
pub struct ExNetworkInterface(pnet::datalink::NetworkInterface);

/// Relies on `pnet::datalink::interfaces` and the `NetworkInterface::name`
/// field: returns every interface currently visible to the process, each
/// paired with its own name. Which interfaces exist depends on the host, so
/// nothing more is promised of the result.
#[verifier::external_body]
pub fn enumerate_interfaces() -> (r: Vec<(String, pnet::datalink::NetworkInterface)>) {
    pnet::datalink::interfaces()
        .into_iter()
        .map(|iface| (iface.name.clone(), iface))
        .collect()
}

/// The name at position `i` of the enumeration is the first occurrence of
/// `name`.
pub open spec fn found_at(
    ifaces: Seq<(String, pnet::datalink::NetworkInterface)>,
    name: Seq<char>,
    i: int,
) -> bool {
    &&& 0 <= i < ifaces.len()
    &&& ifaces[i].0@ == name
    &&& forall|j: int| 0 <= j < i ==> #[trigger] ifaces[j].0@ != name
}

/// No entry of the enumeration carries `name`.
pub open spec fn absent(
    ifaces: Seq<(String, pnet::datalink::NetworkInterface)>,
    name: Seq<char>,
) -> bool {
    forall|j: int| 0 <= j < ifaces.len() ==> #[trigger] ifaces[j].0@ != name
}

/// Returns the position of the first interface whose name exactly matches
/// `name`, or `InterfaceNotFound` when no entry matches.
pub fn resolve(
    ifaces: &Vec<(String, pnet::datalink::NetworkInterface)>,
    name: &String,
) -> (r: Result<usize, SockError>)
    ensures
        match r {
            Ok(i) => found_at(ifaces@, name@, i as int),
            Err(e) => e == SockError::InterfaceNotFound && absent(ifaces@, name@),
        },
{
    let mut i: usize = 0;
    while i < ifaces.len()
        invariant
            i <= ifaces.len(),
            forall|j: int| 0 <= j < i ==> #[trigger] ifaces@[j].0@ != name@,
        decreases ifaces.len() - i,
    {
        if ifaces[i].0 == *name {
            return Ok(i);
        }
        i = i + 1;
    }
    Err(SockError::InterfaceNotFound)
}

} // verus!
