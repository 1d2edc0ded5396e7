//! Where the controller is reached.

use vstd::prelude::*;

verus! {

/// The controller's well-known port.
pub const PORT: u16 = 1741;

/// An IPv4 address and a port.
#[derive(Clone, Copy, Debug)]
pub struct Endpoint {
    pub octets: [u8; 4],
    pub port: u16,
}

/// The controller of team `n` sits at `10.(n / 100).(n % 100).2`; each
/// octet keeps the low eight bits of its value.
pub open spec fn is_endpoint_of(e: Endpoint, team: u16) -> bool {
    e.octets@ == seq![10u8, ((team / 100) % 256) as u8, (team % 100) as u8, 2u8] && e.port == PORT
}

/// The endpoint of team `team`'s controller.
pub fn get_addr(team: u16) -> (r: Endpoint)
    ensures
        is_endpoint_of(r, team),
{
    let r = Endpoint { octets: [10u8, ((team / 100) % 256) as u8, (team % 100) as u8, 2u8], port: PORT };
    assert(r.octets@ =~= seq![10u8, ((team / 100) % 256) as u8, (team % 100) as u8, 2u8]);
    r
}

} // verus!
