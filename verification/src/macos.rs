//! Collector that decodes the output of the external `lsof` command.
//!
//! The raw source is injected: the text the command printed for each
//! query, or the text of the failure that kept it from running.  A
//! failed command is a hard error carrying that text; output that ran
//! is decoded row by row by the shared [`LsofParser`].

use vstd::prelude::*;
use crate::lsof_parser::{LsofParser, spec_mixed_rows, spec_tcp_rows, spec_udp_rows, spec_body_lines};
use crate::models::{ConnectionInfo, ConnectionRec};
use crate::platform::{NetworkError, NetworkProvider, ErrorRec};

verus! {

/// Collector for `lsof` output.
pub struct MacOSNetworkProvider {
    pub parser: LsofParser,
    pub all_source: Result<String, String>,
    pub tcp_source: Result<String, String>,
    pub udp_source: Result<String, String>,
    pub lsof_available: bool,
}

impl MacOSNetworkProvider {
    /// Wraps the injected command outputs: one per query, each either
    /// the printed text or the failure that kept the command from
    /// running.
    pub fn new(
        all_source: Result<String, String>,
        tcp_source: Result<String, String>,
        udp_source: Result<String, String>,
        lsof_available: bool,
    ) -> (r: Self)
        ensures
            r.all_source == all_source,
            r.tcp_source == tcp_source,
            r.udp_source == udp_source,
            r.lsof_available == lsof_available,
    {
        MacOSNetworkProvider {
            parser: LsofParser::new(),
            all_source,
            tcp_source,
            udp_source,
            lsof_available,
        }
    }
}

impl NetworkProvider for MacOSNetworkProvider {
    open spec fn spec_all_connections(&self) -> Result<Seq<ConnectionRec>, ErrorRec> {
        match self.all_source {
            Err(e) => Err(ErrorRec::CommandFailed(e@)),
            Ok(out) => Ok(spec_mixed_rows(spec_body_lines(out@))),
        }
    }

    open spec fn spec_tcp_connections(&self) -> Result<Seq<ConnectionRec>, ErrorRec> {
        match self.tcp_source {
            Err(e) => Err(ErrorRec::CommandFailed(e@)),
            Ok(out) => Ok(spec_tcp_rows(spec_body_lines(out@))),
        }
    }

    open spec fn spec_udp_connections(&self) -> Result<Seq<ConnectionRec>, ErrorRec> {
        match self.udp_source {
            Err(e) => Err(ErrorRec::CommandFailed(e@)),
            Ok(out) => Ok(spec_udp_rows(spec_body_lines(out@))),
        }
    }

    open spec fn spec_platform_name(&self) -> Seq<char> {
        "macOS"@
    }

    open spec fn spec_supported(&self) -> bool {
        self.lsof_available
    }

    fn get_all_connections(&self) -> (r: Result<Vec<ConnectionInfo>, NetworkError>) {
        match &self.all_source {
            Err(e) => Err(NetworkError::CommandFailed(e.clone())),
            Ok(out) => self.parser.parse_all_connections(out.as_str()),
        }
    }

    fn get_tcp_connections(&self) -> (r: Result<Vec<ConnectionInfo>, NetworkError>) {
        match &self.tcp_source {
            Err(e) => Err(NetworkError::CommandFailed(e.clone())),
            Ok(out) => self.parser.parse_tcp_connections(out.as_str()),
        }
    }

    fn get_udp_connections(&self) -> (r: Result<Vec<ConnectionInfo>, NetworkError>) {
        match &self.udp_source {
            Err(e) => Err(NetworkError::CommandFailed(e.clone())),
            Ok(out) => self.parser.parse_udp_connections(out.as_str()),
        }
    }

    fn platform_name(&self) -> (r: &'static str) {
        "macOS"
    }

    fn is_supported(&self) -> (r: bool) {
        self.lsof_available
    }
}

} // verus!
