//! The public surface consumed by a presentation layer.
//!
//! Every call is a fresh, synchronous snapshot: the provider re-runs
//! its whole selection chain, and nothing is cached between calls.

use vstd::prelude::*;
use crate::filter::{filter_connections, spec_filter, lemma_unrecognized_selector_empty};
use crate::models::{ConnectionInfo, conns_view};
use crate::platform::{NetworkError, NetworkProvider, result_view};
use crate::unified::UnifiedNetworkProvider;

verus! {

/// What the host looks like to a caller: the chosen collector's label
/// and availability, and the machine's architecture and operating
/// system names as the caller knows them.
pub struct PlatformInfo {
    pub platform_name: String,
    pub supported: bool,
    pub arch: String,
    pub os: String,
}

/// Enumerates every active connection through the given provider.
pub fn enumerate_all(provider: &UnifiedNetworkProvider) -> (r: Result<
    Vec<ConnectionInfo>,
    NetworkError,
>)
    ensures
        result_view(r) == provider.spec_all_connections(),
{
    provider.get_all_connections()
}

/// Enumerates connections and filters them by protocol selector and
/// optional port.  An unrecognized selector fails closed: when the
/// enumeration itself succeeds, it yields an empty list, never an
/// error; an error is reported exactly when the enumeration fails.
pub fn enumerate_filtered(
    provider: &UnifiedNetworkProvider,
    protocol: &str,
    port: Option<u16>,
) -> (r: Result<Vec<ConnectionInfo>, NetworkError>)
    ensures
        provider.spec_all_connections() matches Ok(s) ==> r matches Ok(v) && conns_view(v@)
            == spec_filter(s, protocol@, port),
        provider.spec_all_connections() matches Err(e) ==> r matches Err(e2) && e2@ == e,
        (provider.spec_all_connections() is Ok && protocol@ != "tcp"@ && protocol@ != "udp"@
            && protocol@ != "all"@) ==> (r matches Ok(v) && v@.len() == 0),
{
    match provider.get_all_connections() {
        Ok(all) => {
            let filtered = filter_connections(&all, protocol, port);
            proof {
                if protocol@ != "tcp"@ && protocol@ != "udp"@ && protocol@ != "all"@ {
                    lemma_unrecognized_selector_empty(conns_view(all@), protocol@, port);
                }
            }
            Ok(filtered)
        },
        Err(e) => Err(e),
    }
}

/// Describes the running platform: the provider's label and
/// availability beside the architecture and operating-system names
/// handed in by the caller.
pub fn platform_info(provider: &UnifiedNetworkProvider, arch: &str, os: &str) -> (r: PlatformInfo)
    ensures
        r.platform_name@ == provider.spec_platform_name(),
        r.supported == provider.spec_supported(),
        r.arch@ == arch@,
        r.os@ == os@,
{
    PlatformInfo {
        platform_name: String::from_str(provider.platform_name()),
        supported: provider.is_supported(),
        arch: String::from_str(arch),
        os: String::from_str(os),
    }
}

} // verus!
