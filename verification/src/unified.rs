//! The selection/fallback orchestrator.
//!
//! The native collector for the running platform — a closed set of
//! tagged variants, chosen by the caller once from the platform name —
//! is attempted first.  On an error, or on a successful but empty
//! result, the orchestrator falls through; the generic fallback
//! deliberately degrades to an `UnsupportedPlatform` error rather than
//! fabricating plausible-looking connections.  Nothing is cached:
//! every call re-runs the whole chain.

use vstd::prelude::*;
use crate::filter::{filter_connections, spec_filter};
use crate::linux::LinuxNetworkProvider;
use crate::macos::MacOSNetworkProvider;
use crate::models::{ConnectionInfo, ConnectionRec, conns_view};
use crate::platform::{NetworkError, NetworkProvider, ErrorRec, result_view};
use crate::windows::WindowsNetworkProvider;

verus! {

/// The closed set of native collectors, one per platform.
pub enum NativeProvider {
    Windows(WindowsNetworkProvider),
    Linux(LinuxNetworkProvider),
    MacOS(MacOSNetworkProvider),
}

/// Which list or error a native collector yields for a full
/// enumeration.
pub open spec fn spec_native_all(n: NativeProvider) -> Result<Seq<ConnectionRec>, ErrorRec> {
    match n {
        NativeProvider::Windows(w) => w.spec_all_connections(),
        NativeProvider::Linux(l) => l.spec_all_connections(),
        NativeProvider::MacOS(m) => m.spec_all_connections(),
    }
}

/// The platform label of a native collector.
pub open spec fn spec_native_name(n: NativeProvider) -> Seq<char> {
    match n {
        NativeProvider::Windows(w) => w.spec_platform_name(),
        NativeProvider::Linux(l) => l.spec_platform_name(),
        NativeProvider::MacOS(m) => m.spec_platform_name(),
    }
}

/// The orchestrating collector: tries the native collector, and
/// degrades to `UnsupportedPlatform` when there is none, when it
/// errors, or when it reports nothing.
pub struct UnifiedNetworkProvider {
    pub native: Option<NativeProvider>,
}

impl UnifiedNetworkProvider {
    /// Wraps the native collector chosen for the running platform, or
    /// none when the platform has no native source.
    pub fn new(native: Option<NativeProvider>) -> (r: Self)
        ensures
            r.native == native,
    {
        UnifiedNetworkProvider { native }
    }

    /// Attempts the native collector and falls through on error or on
    /// an empty result.
    fn get_connections_with_fallback(&self) -> (r: Result<Vec<ConnectionInfo>, NetworkError>)
        ensures
            result_view(r) == self.spec_all_connections(),
    {
        let attempt: Result<Vec<ConnectionInfo>, NetworkError> = match &self.native {
            None => {
                return Err(
                    NetworkError::UnsupportedPlatform(
                        String::from_str("no native connection source produced data"),
                    ),
                );
            },
            Some(NativeProvider::Windows(w)) => w.get_all_connections(),
            Some(NativeProvider::Linux(l)) => l.get_all_connections(),
            Some(NativeProvider::MacOS(m)) => m.get_all_connections(),
        };
        match attempt {
            Ok(v) => {
                if v.len() > 0 {
                    Ok(v)
                } else {
                    Err(
                        NetworkError::UnsupportedPlatform(
                            String::from_str("no native connection source produced data"),
                        ),
                    )
                }
            },
            Err(_) => Err(
                NetworkError::UnsupportedPlatform(
                    String::from_str("no native connection source produced data"),
                ),
            ),
        }
    }
}

impl NetworkProvider for UnifiedNetworkProvider {
    open spec fn spec_all_connections(&self) -> Result<Seq<ConnectionRec>, ErrorRec> {
        match self.native {
            None => Err(
                ErrorRec::UnsupportedPlatform("no native connection source produced data"@),
            ),
            Some(n) => match spec_native_all(n) {
                Ok(s) => if s.len() > 0 {
                    Ok(s)
                } else {
                    Err(
                        ErrorRec::UnsupportedPlatform(
                            "no native connection source produced data"@,
                        ),
                    )
                },
                Err(_) => Err(
                    ErrorRec::UnsupportedPlatform("no native connection source produced data"@),
                ),
            },
        }
    }

    open spec fn spec_tcp_connections(&self) -> Result<Seq<ConnectionRec>, ErrorRec> {
        match self.spec_all_connections() {
            Ok(s) => Ok(spec_filter(s, "tcp"@, None)),
            Err(e) => Err(e),
        }
    }

    open spec fn spec_udp_connections(&self) -> Result<Seq<ConnectionRec>, ErrorRec> {
        match self.spec_all_connections() {
            Ok(s) => Ok(spec_filter(s, "udp"@, None)),
            Err(e) => Err(e),
        }
    }

    open spec fn spec_platform_name(&self) -> Seq<char> {
        match self.native {
            None => "Unknown"@,
            Some(n) => spec_native_name(n),
        }
    }

    open spec fn spec_supported(&self) -> bool {
        self.native is Some
    }

    fn get_all_connections(&self) -> (r: Result<Vec<ConnectionInfo>, NetworkError>) {
        self.get_connections_with_fallback()
    }

    fn get_tcp_connections(&self) -> (r: Result<Vec<ConnectionInfo>, NetworkError>) {
        match self.get_connections_with_fallback() {
            Ok(all) => Ok(filter_connections(&all, "tcp", None)),
            Err(e) => Err(e),
        }
    }

    fn get_udp_connections(&self) -> (r: Result<Vec<ConnectionInfo>, NetworkError>) {
        match self.get_connections_with_fallback() {
            Ok(all) => Ok(filter_connections(&all, "udp", None)),
            Err(e) => Err(e),
        }
    }

    fn platform_name(&self) -> (r: &'static str) {
        match &self.native {
            None => "Unknown",
            Some(NativeProvider::Windows(_)) => "Windows",
            Some(NativeProvider::Linux(_)) => "Linux",
            Some(NativeProvider::MacOS(_)) => "macOS",
        }
    }

    fn is_supported(&self) -> (r: bool) {
        match &self.native {
            None => false,
            Some(_) => true,
        }
    }
}

} // verus!
