//! Decoder for the binary kernel connection tables.
//!
//! The raw source is a length-prefixed table: a 32-bit entry count
//! followed by fixed-size rows, every 32-bit field stored least
//! significant byte first.  A TCP row holds state, local address,
//! local port, remote address, remote port and owning pid, in that
//! order; a UDP row holds local address, local port and owning pid.
//! Port fields keep their 16 significant bits big-endian, so the two
//! low-address bytes are swapped into host order.  The declared entry
//! count is never trusted beyond the bytes actually present: a row
//! that the buffer cannot cover is dropped, and a buffer too short for
//! its count yields just the covered rows.

use vstd::prelude::*;
use vstd::arithmetic::div_mod::lemma_fundamental_div_mod;
use crate::models::{
    ConnectionInfo, ConnectionRec, Protocol, ConnectionState, conns_view, spec_state_from_code,
};
use crate::process::{ProcessNameTable, ip_dotted, format_ip_address, spec_resolve};

verus! {

/// The 32-bit value stored least significant byte first at `off`.
pub open spec fn le32(b: Seq<u8>, off: int) -> nat {
    (b[off] + 256 * b[off + 1] + 65536 * b[off + 2] + 16777216 * b[off + 3]) as nat
}

/// The 16-bit port stored big-endian in the two low-address bytes of
/// the field at `off`.
pub open spec fn be_port(b: Seq<u8>, off: int) -> nat {
    (256 * b[off] + b[off + 1]) as nat
}

/// Reads the 32-bit little-endian value at `off`.
pub fn read_le32(b: &Vec<u8>, off: usize) -> (v: u32)
    requires
        off + 4 <= b@.len(),
    ensures
        v as nat == le32(b@, off as int),
{
    let n = b.len();
    (b[off] as u32) + 256 * (b[off + 1] as u32) + 65536 * (b[off + 2] as u32) + 16777216 * (b[off
        + 3] as u32)
}

/// Reads the big-endian port in the field at `off`.
pub fn read_be_port(b: &Vec<u8>, off: usize) -> (v: u16)
    requires
        off + 2 <= b@.len(),
    ensures
        v as nat == be_port(b@, off as int),
{
    let n = b.len();
    256 * (b[off] as u16) + (b[off + 1] as u16)
}

/// How many TCP rows the buffer really covers: the declared count,
/// capped by the rows whose 24 bytes are all present.
pub open spec fn tcp_row_count(b: Seq<u8>) -> int {
    if b.len() < 4 {
        0
    } else {
        let declared = le32(b, 0) as int;
        let covered = (b.len() - 4) / 24;
        if declared <= covered {
            declared
        } else {
            covered
        }
    }
}

/// The record decoded from the TCP row starting at `base`.
pub open spec fn spec_tcp_row(b: Seq<u8>, names: Seq<(u32, Seq<char>)>, base: int) -> ConnectionRec {
    ConnectionRec {
        protocol: Protocol::TCP,
        local_address: ip_dotted(le32(b, base + 4) as u32),
        local_port: be_port(b, base + 8) as u16,
        remote_address: ip_dotted(le32(b, base + 12) as u32),
        remote_port: be_port(b, base + 16) as u16,
        state: spec_state_from_code(le32(b, base) as u32),
        pid: le32(b, base + 20) as u32,
        process_name: spec_resolve(names, le32(b, base + 20) as u32),
    }
}

/// What decoding the binary TCP table yields.
pub open spec fn spec_tcp_table(b: Seq<u8>, names: Seq<(u32, Seq<char>)>) -> Seq<ConnectionRec> {
    Seq::new(tcp_row_count(b) as nat, |i: int| spec_tcp_row(b, names, 4 + 24 * i))
}

/// How many UDP rows the buffer really covers.
pub open spec fn udp_row_count(b: Seq<u8>) -> int {
    if b.len() < 4 {
        0
    } else {
        let declared = le32(b, 0) as int;
        let covered = (b.len() - 4) / 12;
        if declared <= covered {
            declared
        } else {
            covered
        }
    }
}

/// The record decoded from the UDP row starting at `base`: the remote
/// endpoint is the wildcard sentinel and the state is `Listening`.
pub open spec fn spec_udp_row(b: Seq<u8>, names: Seq<(u32, Seq<char>)>, base: int) -> ConnectionRec {
    ConnectionRec {
        protocol: Protocol::UDP,
        local_address: ip_dotted(le32(b, base) as u32),
        local_port: be_port(b, base + 4) as u16,
        remote_address: "*"@,
        remote_port: 0,
        state: ConnectionState::Listening,
        pid: le32(b, base + 8) as u32,
        process_name: spec_resolve(names, le32(b, base + 8) as u32),
    }
}

/// What decoding the binary UDP table yields.
pub open spec fn spec_udp_table(b: Seq<u8>, names: Seq<(u32, Seq<char>)>) -> Seq<ConnectionRec> {
    Seq::new(udp_row_count(b) as nat, |i: int| spec_udp_row(b, names, 4 + 12 * i))
}

/// Decodes the binary TCP table against a name snapshot.
#[verifier::loop_isolation(false)]
pub fn get_tcp_connections(table: &Vec<u8>, names: &ProcessNameTable) -> (r: Vec<ConnectionInfo>)
    ensures
        conns_view(r@) == spec_tcp_table(table@, names.view_entries()),
{
    let mut r: Vec<ConnectionInfo> = Vec::new();
    if table.len() < 4 {
        assert(conns_view(r@) =~= spec_tcp_table(table@, names.view_entries()));
        return r;
    }
    let declared = read_le32(table, 0);
    let covered = (table.len() - 4) / 24;
    let count: usize = if (declared as usize) <= covered {
        declared as usize
    } else {
        covered
    };
    proof {
        lemma_fundamental_div_mod(table@.len() - 4, 24);
    }
    let mut i: usize = 0;
    while i < count
        invariant
            count == tcp_row_count(table@),
            24 * count <= table@.len() - 4,
            i <= count,
            conns_view(r@) =~= spec_tcp_table(table@, names.view_entries()).take(i as int),
        decreases count - i,
    {
        let base: usize = 4 + 24 * i;
        let state = ConnectionState::from_code(read_le32(table, base));
        let local_addr = format_ip_address(read_le32(table, base + 4));
        let local_port = read_be_port(table, base + 8);
        let remote_addr = format_ip_address(read_le32(table, base + 12));
        let remote_port = read_be_port(table, base + 16);
        let pid = read_le32(table, base + 20);
        let process_name = names.resolve(pid);
        r.push(
            ConnectionInfo::new(
                Protocol::TCP,
                local_addr,
                local_port,
                remote_addr,
                remote_port,
                state,
                pid,
                process_name,
            ),
        );
        proof {
            assert(conns_view(r@) =~= spec_tcp_table(table@, names.view_entries()).take(i + 1));
        }
        i = i + 1;
    }
    proof {
        assert(spec_tcp_table(table@, names.view_entries()).take(count as int) =~= spec_tcp_table(
            table@,
            names.view_entries(),
        ));
    }
    r
}

/// Decodes the binary UDP table against a name snapshot.
#[verifier::loop_isolation(false)]
pub fn get_udp_connections(table: &Vec<u8>, names: &ProcessNameTable) -> (r: Vec<ConnectionInfo>)
    ensures
        conns_view(r@) == spec_udp_table(table@, names.view_entries()),
{
    let mut r: Vec<ConnectionInfo> = Vec::new();
    if table.len() < 4 {
        assert(conns_view(r@) =~= spec_udp_table(table@, names.view_entries()));
        return r;
    }
    let declared = read_le32(table, 0);
    let covered = (table.len() - 4) / 12;
    let count: usize = if (declared as usize) <= covered {
        declared as usize
    } else {
        covered
    };
    proof {
        lemma_fundamental_div_mod(table@.len() - 4, 12);
    }
    let mut i: usize = 0;
    while i < count
        invariant
            count == udp_row_count(table@),
            12 * count <= table@.len() - 4,
            i <= count,
            conns_view(r@) =~= spec_udp_table(table@, names.view_entries()).take(i as int),
        decreases count - i,
    {
        let base: usize = 4 + 12 * i;
        let local_addr = format_ip_address(read_le32(table, base));
        let local_port = read_be_port(table, base + 4);
        let pid = read_le32(table, base + 8);
        let process_name = names.resolve(pid);
        r.push(
            ConnectionInfo::new(
                Protocol::UDP,
                local_addr,
                local_port,
                String::from_str("*"),
                0,
                ConnectionState::Listening,
                pid,
                process_name,
            ),
        );
        proof {
            assert(conns_view(r@) =~= spec_udp_table(table@, names.view_entries()).take(i + 1));
        }
        i = i + 1;
    }
    proof {
        assert(spec_udp_table(table@, names.view_entries()).take(count as int) =~= spec_udp_table(
            table@,
            names.view_entries(),
        ));
    }
    r
}

/// Decodes both binary tables: all TCP rows, then all UDP rows.
pub fn get_all_connections(
    tcp_table: &Vec<u8>,
    udp_table: &Vec<u8>,
    names: &ProcessNameTable,
) -> (r: Vec<ConnectionInfo>)
    ensures
        conns_view(r@) == spec_tcp_table(tcp_table@, names.view_entries()) + spec_udp_table(
            udp_table@,
            names.view_entries(),
        ),
{
    let mut r = get_tcp_connections(tcp_table, names);
    let mut udp = get_udp_connections(udp_table, names);
    r.append(&mut udp);
    assert(conns_view(r@) =~= spec_tcp_table(tcp_table@, names.view_entries()) + spec_udp_table(
        udp_table@,
        names.view_entries(),
    ));
    r
}

} // verus!
