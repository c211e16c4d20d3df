//! Windows: the values read from the registry, the system APIs and `schtasks`.
pub mod network;
pub mod services;
pub mod software;
pub mod system;
pub mod tasks;
pub mod users;

use vstd::prelude::*;

use crate::error::HuginnError;
use crate::models::system_info::{NetworkInfo, ServicesInfo};

verus! {

/// Services are not gathered on Windows yet: the services are left as they
/// were.
pub fn collect_services(services: &mut ServicesInfo) -> (r: Result<(), HuginnError>)
    ensures
        r is Ok,
        final(services).services@ == old(services).services@,
{
    Ok(())
}

/// Network facts are not gathered on Windows yet: they are left as they
/// were.
pub fn collect_network(net: &mut NetworkInfo) -> (r: Result<(), HuginnError>)
    ensures
        r is Ok,
        final(net).interfaces@ == old(net).interfaces@,
        final(net).open_ports@ == old(net).open_ports@,
        final(net).firewall_profiles@ == old(net).firewall_profiles@,
        final(net).dns_servers@ == old(net).dns_servers@,
{
    Ok(())
}

} // verus!
