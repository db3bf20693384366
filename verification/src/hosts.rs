//! Target-environment resolution: a fixed closed table mapping an
//! environment name to the (api domain, connectivity-check domain)
//! pair that tests talk to, and the precedence between a per-run
//! override and the persisted setting.

use vstd::prelude::*;
use crate::errors::ArgsError;

verus! {

/// The resolved pair of domains for one target environment.
#[derive(PartialEq, Eq, Debug)]
pub struct HostPair {
    /// Domain of the API that the app under test talks to.
    pub api: String,
    /// Domain answering the connectivity check.
    pub conncheck: String,
}

impl Clone for HostPair {
    fn clone(&self) -> (res: Self)
        ensures
            res == *self,
    {
        HostPair { api: self.api.clone(), conncheck: self.conncheck.clone() }
    }
}

/// The closed environment table: the (api, connectivity-check) domain
/// pair of a recognized environment name, nothing for any other name.
pub open spec fn host_table(name: Seq<char>) -> Option<(Seq<char>, Seq<char>)> {
    if name == "mullvad.net"@ {
        Some(("api.mullvad.net"@, "ipv4.am.i.mullvad.net"@))
    } else if name == "stagemole.eu"@ {
        Some(("api.stagemole.eu"@, "ipv4.am.i.stagemole.eu"@))
    } else if name == "devmole.eu"@ {
        Some(("api.devmole.eu"@, "ipv4.am.i.devmole.eu"@))
    } else {
        None
    }
}

/// The environment used for a run: the per-run override when given,
/// else the persisted setting, else the production environment.
pub fn effective_host(cli: Option<String>, stored: &Option<String>) -> (r: String)
    ensures
        cli matches Some(h) ==> r == h,
        cli is None ==> (stored matches Some(h) ==> r@ == h@),
        cli is None && stored is None ==> r@ == "mullvad.net"@,
{
    match cli {
        Some(h) => h,
        None => match stored {
            Some(h) => h.clone(),
            None => String::from_str("mullvad.net"),
        },
    }
}

/// Resolves an environment name against the closed table, rejecting an
/// unrecognized name before any pipeline work starts.
pub fn resolve_host_pair(name: &String) -> (r: Result<HostPair, ArgsError>)
    ensures
        r matches Ok(hp) ==> host_table(name@) matches Some(pair) && hp.api@ == pair.0
            && hp.conncheck@ == pair.1,
        r is Ok <==> host_table(name@) is Some,
        r matches Err(e) ==> (e matches ArgsError::UnknownEnvironment(n) && n@ == name@),
{
    let production = String::from_str("mullvad.net");
    let staging = String::from_str("stagemole.eu");
    let development = String::from_str("devmole.eu");
    if *name == production {
        Ok(HostPair {
            api: String::from_str("api.mullvad.net"),
            conncheck: String::from_str("ipv4.am.i.mullvad.net"),
        })
    } else if *name == staging {
        Ok(HostPair {
            api: String::from_str("api.stagemole.eu"),
            conncheck: String::from_str("ipv4.am.i.stagemole.eu"),
        })
    } else if *name == development {
        Ok(HostPair {
            api: String::from_str("api.devmole.eu"),
            conncheck: String::from_str("ipv4.am.i.devmole.eu"),
        })
    } else {
        Err(ArgsError::UnknownEnvironment(name.clone()))
    }
}

} // verus!
