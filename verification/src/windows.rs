//! Collector for the binary kernel connection tables.
//!
//! The raw source is injected as the two filled table buffers together
//! with the status each fill call returned.  An empty buffer means the
//! size query reported nothing to read and yields an empty list; a
//! non-zero fill status is a hard error; otherwise the buffer is
//! decoded row by row.

use vstd::prelude::*;
use crate::models::{ConnectionInfo, ConnectionRec, conns_view};
use crate::network::{get_tcp_connections, get_udp_connections, spec_tcp_table, spec_udp_table};
use crate::platform::{NetworkError, NetworkProvider, ErrorRec};
use crate::process::ProcessNameTable;
use crate::text::{dec_str, u32_to_string};

verus! {

/// Collector for the binary kernel tables.
pub struct WindowsNetworkProvider {
    pub tcp_status: u32,
    pub tcp_table: Vec<u8>,
    pub udp_status: u32,
    pub udp_table: Vec<u8>,
    pub names: ProcessNameTable,
}

impl WindowsNetworkProvider {
    /// Wraps the injected table snapshot: each table's bytes and the
    /// status its fill call returned, with the name snapshot.
    pub fn new(
        tcp_status: u32,
        tcp_table: Vec<u8>,
        udp_status: u32,
        udp_table: Vec<u8>,
        names: ProcessNameTable,
    ) -> (r: Self)
        ensures
            r.tcp_status == tcp_status,
            r.tcp_table@ == tcp_table@,
            r.udp_status == udp_status,
            r.udp_table@ == udp_table@,
            r.names == names,
    {
        WindowsNetworkProvider { tcp_status, tcp_table, udp_status, udp_table, names }
    }

    /// Which list or error the TCP enumeration yields: an empty table
    /// is silently empty, a non-zero fill status is a hard error, and
    /// otherwise the table decodes row by row.
    pub open spec fn spec_tcp_result(&self) -> Result<Seq<ConnectionRec>, ErrorRec> {
        if self.tcp_table@.len() == 0 {
            Ok(Seq::empty())
        } else if self.tcp_status != 0 {
            Err(
                ErrorRec::SystemCallFailed(
                    "GetExtendedTcpTable failed with code: "@ + dec_str(self.tcp_status as nat),
                ),
            )
        } else {
            Ok(spec_tcp_table(self.tcp_table@, self.names.view_entries()))
        }
    }

    /// Which list or error the UDP enumeration yields.
    pub open spec fn spec_udp_result(&self) -> Result<Seq<ConnectionRec>, ErrorRec> {
        if self.udp_table@.len() == 0 {
            Ok(Seq::empty())
        } else if self.udp_status != 0 {
            Err(
                ErrorRec::SystemCallFailed(
                    "GetExtendedUdpTable failed with code: "@ + dec_str(self.udp_status as nat),
                ),
            )
        } else {
            Ok(spec_udp_table(self.udp_table@, self.names.view_entries()))
        }
    }
}

impl NetworkProvider for WindowsNetworkProvider {
    open spec fn spec_all_connections(&self) -> Result<Seq<ConnectionRec>, ErrorRec> {
        match self.spec_tcp_result() {
            Err(e) => Err(e),
            Ok(t) => match self.spec_udp_result() {
                Err(e) => Err(e),
                Ok(u) => Ok(t + u),
            },
        }
    }

    open spec fn spec_tcp_connections(&self) -> Result<Seq<ConnectionRec>, ErrorRec> {
        self.spec_tcp_result()
    }

    open spec fn spec_udp_connections(&self) -> Result<Seq<ConnectionRec>, ErrorRec> {
        self.spec_udp_result()
    }

    open spec fn spec_platform_name(&self) -> Seq<char> {
        "Windows"@
    }

    open spec fn spec_supported(&self) -> bool {
        true
    }

    fn get_all_connections(&self) -> (r: Result<Vec<ConnectionInfo>, NetworkError>) {
        let mut tcp = match self.get_tcp_connections() {
            Err(e) => {
                return Err(e);
            },
            Ok(v) => v,
        };
        let mut udp = match self.get_udp_connections() {
            Err(e) => {
                return Err(e);
            },
            Ok(v) => v,
        };
        let ghost tv = conns_view(tcp@);
        let ghost uv = conns_view(udp@);
        tcp.append(&mut udp);
        proof {
            assert(conns_view(tcp@) =~= tv + uv);
        }
        Ok(tcp)
    }

    fn get_tcp_connections(&self) -> (r: Result<Vec<ConnectionInfo>, NetworkError>) {
        if self.tcp_table.len() == 0 {
            let v: Vec<ConnectionInfo> = Vec::new();
            assert(conns_view(v@) =~= Seq::<ConnectionRec>::empty());
            return Ok(v);
        }
        if self.tcp_status != 0 {
            return Err(
                NetworkError::SystemCallFailed(
                    String::from_str("GetExtendedTcpTable failed with code: ").concat(
                        u32_to_string(self.tcp_status).as_str(),
                    ),
                ),
            );
        }
        Ok(get_tcp_connections(&self.tcp_table, &self.names))
    }

    fn get_udp_connections(&self) -> (r: Result<Vec<ConnectionInfo>, NetworkError>) {
        if self.udp_table.len() == 0 {
            let v: Vec<ConnectionInfo> = Vec::new();
            assert(conns_view(v@) =~= Seq::<ConnectionRec>::empty());
            return Ok(v);
        }
        if self.udp_status != 0 {
            return Err(
                NetworkError::SystemCallFailed(
                    String::from_str("GetExtendedUdpTable failed with code: ").concat(
                        u32_to_string(self.udp_status).as_str(),
                    ),
                ),
            );
        }
        Ok(get_udp_connections(&self.udp_table, &self.names))
    }

    fn platform_name(&self) -> (r: &'static str) {
        "Windows"
    }

    fn is_supported(&self) -> (r: bool) {
        true
    }
}

} // verus!
