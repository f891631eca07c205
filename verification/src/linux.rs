//! Decoder for the `/proc/net` pseudo-file connection tables.
//!
//! Each row of `/proc/net/tcp` and `/proc/net/udp` is a
//! whitespace-delimited line; the leading header row is recognized by
//! its literal first column `sl`, not by position.  An IPv4 address is
//! eight hexadecimal digits holding a 32-bit value whose four bytes
//! are emitted low-to-high to form the dotted-decimal text; a port is
//! four hexadecimal digits read directly as a base-16 number.  The
//! state column is a two-digit hexadecimal code with its own fixed
//! table.  Ownership is indirect: each row carries a socket inode, and
//! a separately gathered inode-to-pid map names the owner; a row whose
//! inode is absent yields owner `0`.  A row that is too short or
//! malformed is dropped and decoding continues; only an unreadable
//! source file is an error.

use vstd::prelude::*;
use crate::models::{ConnectionInfo, ConnectionRec, Protocol, ConnectionState, conns_view};
use crate::platform::{NetworkError, NetworkProvider, ErrorRec, result_view};
use crate::process::{ProcessNameTable, ip_dotted, format_ip_address, spec_resolve};
use crate::text::{
    spec_split_ws, spec_lines, spec_find_char, spec_parse_radix, prefix_of, chars_of, split_ws,
    split_lines, find_char, subvec, string_of, parse_dec_u64, parse_hex_u16, parse_hex_u32,
    parse_radix_bounded, starts_with_chars, toks_view, chars_eq_str,
};

verus! {

/// The fixed lookup table of the pseudo-file source: hexadecimal codes
/// `0x01` through `0x0B` name the kernel socket states, with `0x0A`
/// (LISTEN) reported as `Listening`; anything else is kept verbatim as
/// `Unknown`.
pub open spec fn spec_proc_state(code: u32) -> ConnectionState {
    if code == 0x01 {
        ConnectionState::Established
    } else if code == 0x02 {
        ConnectionState::SynSent
    } else if code == 0x03 {
        ConnectionState::SynRcvd
    } else if code == 0x04 {
        ConnectionState::FinWait1
    } else if code == 0x05 {
        ConnectionState::FinWait2
    } else if code == 0x06 {
        ConnectionState::TimeWait
    } else if code == 0x07 {
        ConnectionState::Closed
    } else if code == 0x08 {
        ConnectionState::CloseWait
    } else if code == 0x09 {
        ConnectionState::LastAck
    } else if code == 0x0A {
        ConnectionState::Listening
    } else if code == 0x0B {
        ConnectionState::Closing
    } else {
        ConnectionState::Unknown(code)
    }
}

/// Every code the pseudo-file table defines maps to a definite state,
/// and every other code is preserved inside `Unknown`.
pub proof fn lemma_proc_state_table_complete(code: u32)
    ensures
        1 <= code <= 0x0B ==> !(spec_proc_state(code) is Unknown),
        !(1 <= code <= 0x0B) ==> spec_proc_state(code) == ConnectionState::Unknown(code),
{
}

/// What parsing an eight-digit hexadecimal address yields: the
/// dotted-decimal text of its bytes, low byte first; any other text is
/// a parse error carrying the offending token.
pub open spec fn spec_parse_hex_ip(h: Seq<char>) -> Result<Seq<char>, ErrorRec> {
    if h.len() != 8 {
        Err(ErrorRec::ParseError(h))
    } else {
        match spec_parse_radix(h, 16, 0xFFFF_FFFF) {
            Some(v) => Ok(ip_dotted(v as u32)),
            None => Err(ErrorRec::ParseError(h)),
        }
    }
}

/// The owning pid recorded for a socket inode, if any.
pub open spec fn spec_find_pid(m: Seq<(u64, u32)>, inode: u64) -> Option<u32>
    decreases m.len(),
{
    if m.len() == 0 {
        None
    } else if m[0].0 == inode {
        Some(m[0].1)
    } else {
        spec_find_pid(m.drop_first(), inode)
    }
}

/// The inode-map entry contributed by one file-descriptor link: a
/// target of the shape `socket:[N]` yields `(N, pid)`.
pub open spec fn spec_inode_entry(pid: u32, link: Seq<char>) -> Option<(u64, u32)> {
    if prefix_of("socket:["@, link) && link.len() > 9 && link.last() == ']' {
        match spec_parse_radix(link.subrange(8, link.len() - 1), 10, 0xFFFF_FFFF_FFFF_FFFF) {
            Some(inode) => Some((inode, pid)),
            None => None,
        }
    } else {
        None
    }
}

/// The inode-to-pid map built from a scan of every process's open
/// file-descriptor links.
pub open spec fn spec_inode_map(entries: Seq<(u32, Seq<char>)>) -> Seq<(u64, u32)>
    decreases entries.len(),
{
    if entries.len() == 0 {
        Seq::empty()
    } else {
        let rest = spec_inode_map(entries.drop_first());
        match spec_inode_entry(entries[0].0, entries[0].1) {
            Some(e) => seq![e] + rest,
            None => rest,
        }
    }
}

/// What decoding one TCP pseudo-file row yields: the record, `None`
/// for the header row or a row with too few columns, and a parse
/// error, carrying the offending token, for a row whose address, port,
/// state or inode field is malformed.
pub open spec fn spec_parse_tcp_line(
    line: Seq<char>,
    pmap: Seq<(u64, u32)>,
    names: Seq<(u32, Seq<char>)>,
) -> Result<Option<ConnectionRec>, ErrorRec> {
    let fields = spec_split_ws(line);
    if fields.len() < 10 {
        Ok(None)
    } else if fields[0] == "sl"@ {
        Ok(None)
    } else {
        match spec_endpoint(fields[1]) {
            Err(e) => Err(e),
            Ok((local_ip, local_port)) => match spec_endpoint(fields[2]) {
                Err(e) => Err(e),
                Ok((remote_ip, remote_port)) => match spec_parse_radix(fields[3], 16, 255) {
                    None => Err(ErrorRec::ParseError(fields[3])),
                    Some(code) => match spec_parse_radix(
                        fields[9],
                        10,
                        0xFFFF_FFFF_FFFF_FFFF,
                    ) {
                        None => Err(ErrorRec::ParseError(fields[9])),
                        Some(inode) => {
                            let pid = match spec_find_pid(pmap, inode as u64) {
                                Some(p) => p,
                                None => 0,
                            };
                            Ok(
                                Some(
                                    ConnectionRec {
                                        protocol: Protocol::TCP,
                                        local_address: local_ip,
                                        local_port,
                                        remote_address: remote_ip,
                                        remote_port,
                                        state: spec_proc_state(code as u32),
                                        pid,
                                        process_name: spec_resolve(names, pid),
                                    },
                                ),
                            )
                        },
                    },
                },
            },
        }
    }
}

/// What parsing one `ADDRESS:PORT` column yields: the column must hold
/// exactly one colon, an eight-digit hexadecimal address before it and
/// a hexadecimal port after it.
pub open spec fn spec_endpoint(f: Seq<char>) -> Result<(Seq<char>, u16), ErrorRec> {
    match spec_find_char(f, ':') {
        None => Err(ErrorRec::ParseError(f)),
        Some(i) => if spec_find_char(f.skip(i + 1), ':') is Some {
            Err(ErrorRec::ParseError(f))
        } else {
            match spec_parse_hex_ip(f.take(i)) {
                Err(e) => Err(e),
                Ok(ip) => match spec_parse_radix(f.skip(i + 1), 16, 65535) {
                    None => Err(ErrorRec::ParseError(f.skip(i + 1))),
                    Some(p) => Ok((ip, p as u16)),
                },
            }
        },
    }
}

/// What decoding one UDP pseudo-file row yields: as for TCP, but only
/// the local endpoint and inode are read; the remote endpoint is the
/// wildcard sentinel and the state is always `Listening`.
pub open spec fn spec_parse_udp_line(
    line: Seq<char>,
    pmap: Seq<(u64, u32)>,
    names: Seq<(u32, Seq<char>)>,
) -> Result<Option<ConnectionRec>, ErrorRec> {
    let fields = spec_split_ws(line);
    if fields.len() < 10 {
        Ok(None)
    } else if fields[0] == "sl"@ {
        Ok(None)
    } else {
        match spec_endpoint(fields[1]) {
            Err(e) => Err(e),
            Ok((local_ip, local_port)) => match spec_parse_radix(
                fields[9],
                10,
                0xFFFF_FFFF_FFFF_FFFF,
            ) {
                None => Err(ErrorRec::ParseError(fields[9])),
                Some(inode) => {
                    let pid = match spec_find_pid(pmap, inode as u64) {
                        Some(p) => p,
                        None => 0,
                    };
                    Ok(
                        Some(
                            ConnectionRec {
                                protocol: Protocol::UDP,
                                local_address: local_ip,
                                local_port,
                                remote_address: "*"@,
                                remote_port: 0,
                                state: ConnectionState::Listening,
                                pid,
                                process_name: spec_resolve(names, pid),
                            },
                        ),
                    )
                },
            },
        }
    }
}

/// The records of a whole TCP pseudo-file: every row that decodes to a
/// record, in order; header rows, short rows and malformed rows
/// contribute nothing.
pub open spec fn spec_tcp_file_rows(
    lines: Seq<Seq<char>>,
    pmap: Seq<(u64, u32)>,
    names: Seq<(u32, Seq<char>)>,
) -> Seq<ConnectionRec>
    decreases lines.len(),
{
    if lines.len() == 0 {
        Seq::empty()
    } else {
        let rest = spec_tcp_file_rows(lines.drop_first(), pmap, names);
        match spec_parse_tcp_line(lines[0], pmap, names) {
            Ok(Some(c)) => seq![c] + rest,
            _ => rest,
        }
    }
}

/// The records of a whole UDP pseudo-file.
pub open spec fn spec_udp_file_rows(
    lines: Seq<Seq<char>>,
    pmap: Seq<(u64, u32)>,
    names: Seq<(u32, Seq<char>)>,
) -> Seq<ConnectionRec>
    decreases lines.len(),
{
    if lines.len() == 0 {
        Seq::empty()
    } else {
        let rest = spec_udp_file_rows(lines.drop_first(), pmap, names);
        match spec_parse_udp_line(lines[0], pmap, names) {
            Ok(Some(c)) => seq![c] + rest,
            _ => rest,
        }
    }
}

/// Decoder robustness: a row that yields no record — the header, a row
/// with too few columns, or a malformed row — can be struck from the
/// file without changing what decoding yields; the rows around it are
/// decoded exactly as before.
pub proof fn lemma_bad_tcp_row_dropped(
    lines: Seq<Seq<char>>,
    i: int,
    pmap: Seq<(u64, u32)>,
    names: Seq<(u32, Seq<char>)>,
)
    requires
        0 <= i < lines.len(),
        !(spec_parse_tcp_line(lines[i], pmap, names) matches Ok(Some(_))),
    ensures
        spec_tcp_file_rows(lines, pmap, names) == spec_tcp_file_rows(lines.remove(i), pmap, names),
    decreases i,
{
    if i == 0 {
        assert(lines.remove(0) =~= lines.drop_first());
    } else {
        lemma_bad_tcp_row_dropped(lines.drop_first(), i - 1, pmap, names);
        assert(lines.remove(i).drop_first() =~= lines.drop_first().remove(i - 1));
        assert(lines.remove(i)[0] == lines[0]);
    }
}

/// Decoder robustness for the UDP pseudo-file, as for TCP.
pub proof fn lemma_bad_udp_row_dropped(
    lines: Seq<Seq<char>>,
    i: int,
    pmap: Seq<(u64, u32)>,
    names: Seq<(u32, Seq<char>)>,
)
    requires
        0 <= i < lines.len(),
        !(spec_parse_udp_line(lines[i], pmap, names) matches Ok(Some(_))),
    ensures
        spec_udp_file_rows(lines, pmap, names) == spec_udp_file_rows(lines.remove(i), pmap, names),
    decreases i,
{
    if i == 0 {
        assert(lines.remove(0) =~= lines.drop_first());
    } else {
        lemma_bad_udp_row_dropped(lines.drop_first(), i - 1, pmap, names);
        assert(lines.remove(i).drop_first() =~= lines.drop_first().remove(i - 1));
        assert(lines.remove(i)[0] == lines[0]);
    }
}

/// The image of a row-decoder result.
pub open spec fn row_view(r: Result<Option<ConnectionInfo>, NetworkError>) -> Result<
    Option<ConnectionRec>,
    ErrorRec,
> {
    match r {
        Ok(Some(c)) => Ok(Some(c@)),
        Ok(None) => Ok(None),
        Err(e) => Err(e@),
    }
}

/// Collector for the `/proc/net` pseudo-files.
///
/// The raw sources are injected: each pseudo-file's text, or the text
/// of the read failure that kept it from being read, together with the
/// inode-to-pid map and the process-name snapshot gathered beside it.
pub struct LinuxNetworkProvider {
    pub tcp_source: Result<String, String>,
    pub tcp6_source: Result<String, String>,
    pub udp_source: Result<String, String>,
    pub udp6_source: Result<String, String>,
    pub inode_map: Vec<(u64, u32)>,
    pub names: ProcessNameTable,
    pub proc_available: bool,
}

impl LinuxNetworkProvider {
    /// Wraps the injected pseudo-file snapshot.
    pub fn new(
        tcp_source: Result<String, String>,
        tcp6_source: Result<String, String>,
        udp_source: Result<String, String>,
        udp6_source: Result<String, String>,
        inode_map: Vec<(u64, u32)>,
        names: ProcessNameTable,
        proc_available: bool,
    ) -> (r: Self)
        ensures
            r.tcp_source == tcp_source,
            r.tcp6_source == tcp6_source,
            r.udp_source == udp_source,
            r.udp6_source == udp6_source,
            r.inode_map@ == inode_map@,
            r.names == names,
            r.proc_available == proc_available,
    {
        LinuxNetworkProvider {
            tcp_source,
            tcp6_source,
            udp_source,
            udp6_source,
            inode_map,
            names,
            proc_available,
        }
    }

    /// Builds the inode-to-pid map from a scan of file-descriptor
    /// links: each `(pid, target)` pair whose target reads `socket:[N]`
    /// contributes `(N, pid)`.
    #[verifier::loop_isolation(false)]
    pub fn build_process_inode_map(entries: &Vec<(u32, String)>) -> (r: Vec<(u64, u32)>)
        ensures
            r@ == spec_inode_map(entries@.map_values(|e: (u32, String)| (e.0, e.1@))),
    {
        let ghost evs = entries@.map_values(|e: (u32, String)| (e.0, e.1@));
        let mut r: Vec<(u64, u32)> = Vec::new();
        let mut i: usize = 0;
        assert(evs.skip(0) =~= evs);
        let sock_pat = chars_of("socket:[");
        proof {
            reveal_strlit("socket:[");
        }
        while i < entries.len()
            invariant
                i <= evs.len(),
                evs.len() == entries@.len(),
                sock_pat@ == "socket:["@,
                sock_pat@.len() == 8,
                r@ + spec_inode_map(evs.skip(i as int)) == spec_inode_map(evs),
            decreases evs.len() - i,
        {
            proof {
                assert(evs.skip(i as int)[0] == evs[i as int]);
                assert(evs.skip(i as int).drop_first() =~= evs.skip(i + 1));
            }
            let pid = entries[i].0;
            let link = chars_of(entries[i].1.as_str());
            let n = link.len();
            if starts_with_chars(&link, &sock_pat) && n > 9 && link[n - 1] == ']' {
                let middle = subvec(&link, 8, n - 1);
                assert(middle@ =~= link@.subrange(8, link@.len() - 1));
                match parse_dec_u64(&middle) {
                    Some(inode) => {
                        r.push((inode, pid));
                        proof {
                            assert(r@ =~= r@.drop_last().push((inode, pid)));
                            assert(r@.drop_last() + (seq![(inode, pid)] + spec_inode_map(
                                evs.skip(i + 1),
                            )) =~= r@ + spec_inode_map(evs.skip(i + 1)));
                        }
                    },
                    None => {},
                }
            }
            i = i + 1;
        }
        proof {
            assert(evs.skip(i as int) =~= Seq::<(u32, Seq<char>)>::empty());
            assert(r@ + Seq::<(u64, u32)>::empty() =~= r@);
        }
        r
    }

    /// Looks a socket inode up in this provider's inode-to-pid map.
    #[verifier::loop_isolation(false)]
    pub fn find_pid_by_inode(&self, target_inode: u64) -> (r: Option<u32>)
        ensures
            r == spec_find_pid(self.inode_map@, target_inode),
    {
        let m = Ghost(self.inode_map@);
        let mut i: usize = 0;
        assert(m@.skip(0) =~= m@);
        while i < self.inode_map.len()
            invariant
                i <= m@.len(),
                m@.len() == self.inode_map@.len(),
                spec_find_pid(m@, target_inode) == spec_find_pid(m@.skip(i as int), target_inode),
            decreases m@.len() - i,
        {
            proof {
                assert(m@.skip(i as int)[0] == m@[i as int]);
                assert(m@.skip(i as int).drop_first() =~= m@.skip(i + 1));
            }
            if self.inode_map[i].0 == target_inode {
                return Some(self.inode_map[i].1);
            }
            i = i + 1;
        }
        assert(m@.skip(i as int) =~= Seq::<(u64, u32)>::empty());
        None
    }

    /// Resolves an owner pid to a name through this provider's
    /// snapshot.
    pub fn get_process_name(&self, pid: u32) -> (r: String)
        ensures
            r@ == spec_resolve(self.names.view_entries(), pid),
    {
        self.names.resolve(pid)
    }

    /// Maps a pseudo-file state code to a connection state.
    pub fn convert_tcp_state(&self, code: u32) -> (r: ConnectionState)
        ensures
            r == spec_proc_state(code),
    {
        match code {
            0x01 => ConnectionState::Established,
            0x02 => ConnectionState::SynSent,
            0x03 => ConnectionState::SynRcvd,
            0x04 => ConnectionState::FinWait1,
            0x05 => ConnectionState::FinWait2,
            0x06 => ConnectionState::TimeWait,
            0x07 => ConnectionState::Closed,
            0x08 => ConnectionState::CloseWait,
            0x09 => ConnectionState::LastAck,
            0x0A => ConnectionState::Listening,
            0x0B => ConnectionState::Closing,
            _ => ConnectionState::Unknown(code),
        }
    }

    /// Parses an eight-digit hexadecimal address into dotted-decimal
    /// text.
    pub fn parse_hex_ip(&self, hex_ip: &Vec<char>) -> (r: Result<String, NetworkError>)
        ensures
            match r {
                Ok(ip) => spec_parse_hex_ip(hex_ip@) == Ok::<_, ErrorRec>(ip@),
                Err(e) => spec_parse_hex_ip(hex_ip@) == Err::<Seq<char>, _>(e@),
            },
    {
        if hex_ip.len() != 8 {
            return Err(NetworkError::ParseError(string_of(hex_ip)));
        }
        match parse_hex_u32(hex_ip) {
            Some(v) => Ok(format_ip_address(v)),
            None => Err(NetworkError::ParseError(string_of(hex_ip))),
        }
    }

    /// Parses one `ADDRESS:PORT` column.
    fn parse_endpoint(&self, f: &Vec<char>) -> (r: Result<(String, u16), NetworkError>)
        ensures
            match r {
                Ok((ip, p)) => spec_endpoint(f@) == Ok::<_, ErrorRec>((ip@, p)),
                Err(e) => spec_endpoint(f@) matches Err(se) && se == e@,
            },
    {
        let n = f.len();
        match find_char(f, ':') {
            None => Err(NetworkError::ParseError(string_of(f))),
            Some(i) => {
                let after = subvec(f, i + 1, n);
                assert(after@ =~= f@.skip(i + 1));
                match find_char(&after, ':') {
                    Some(_) => Err(NetworkError::ParseError(string_of(f))),
                    None => {
                        let addr_part = subvec(f, 0, i);
                        assert(addr_part@ =~= f@.take(i as int));
                        match self.parse_hex_ip(&addr_part) {
                            Err(e) => Err(e),
                            Ok(ip) => match parse_hex_u16(&after) {
                                None => Err(NetworkError::ParseError(string_of(&after))),
                                Some(p) => Ok((ip, p)),
                            },
                        }
                    },
                }
            },
        }
    }

    /// Decodes one TCP pseudo-file row against an explicit inode map.
    pub fn parse_tcp_line_with_procfs(&self, line: &str, process_map: &Vec<(u64, u32)>) -> (r:
        Result<Option<ConnectionInfo>, NetworkError>)
        ensures
            row_view(r) == spec_parse_tcp_line(line@, process_map@, self.names.view_entries()),
    {
        let lv = chars_of(line);
        let fields = split_ws(&lv);
        if fields.len() < 10 {
            return Ok(None);
        }
        if chars_eq_str(&fields[0], "sl") {
            return Ok(None);
        }
        let local = match self.parse_endpoint(&fields[1]) {
            Err(e) => {
                return Err(e);
            },
            Ok(x) => x,
        };
        let remote = match self.parse_endpoint(&fields[2]) {
            Err(e) => {
                return Err(e);
            },
            Ok(x) => x,
        };
        let code = match parse_radix_bounded(&fields[3], 16, 255) {
            None => {
                return Err(NetworkError::ParseError(string_of(&fields[3])));
            },
            Some(c) => c,
        };
        let inode = match parse_dec_u64(&fields[9]) {
            None => {
                return Err(NetworkError::ParseError(string_of(&fields[9])));
            },
            Some(x) => x,
        };
        let pid = match self.find_pid_by_inode_in(process_map, inode) {
            Some(p) => p,
            None => 0,
        };
        let process_name = self.names.resolve(pid);
        let (local_ip, local_port) = local;
        let (remote_ip, remote_port) = remote;
        Ok(
            Some(
                ConnectionInfo::new(
                    Protocol::TCP,
                    local_ip,
                    local_port,
                    remote_ip,
                    remote_port,
                    self.convert_tcp_state(code as u32),
                    pid,
                    process_name,
                ),
            ),
        )
    }

    /// Decodes one TCP pseudo-file row against this provider's own
    /// inode map.
    pub fn parse_tcp_line(&self, line: &str) -> (r: Result<Option<ConnectionInfo>, NetworkError>)
        ensures
            row_view(r) == spec_parse_tcp_line(line@, self.inode_map@, self.names.view_entries()),
    {
        self.parse_tcp_line_with_procfs(line, &self.inode_map)
    }

    /// Decodes one UDP pseudo-file row against an explicit inode map.
    pub fn parse_udp_line_with_procfs(&self, line: &str, process_map: &Vec<(u64, u32)>) -> (r:
        Result<Option<ConnectionInfo>, NetworkError>)
        ensures
            row_view(r) == spec_parse_udp_line(line@, process_map@, self.names.view_entries()),
    {
        let lv = chars_of(line);
        let fields = split_ws(&lv);
        if fields.len() < 10 {
            return Ok(None);
        }
        if chars_eq_str(&fields[0], "sl") {
            return Ok(None);
        }
        let local = match self.parse_endpoint(&fields[1]) {
            Err(e) => {
                return Err(e);
            },
            Ok(x) => x,
        };
        let inode = match parse_dec_u64(&fields[9]) {
            None => {
                return Err(NetworkError::ParseError(string_of(&fields[9])));
            },
            Some(x) => x,
        };
        let pid = match self.find_pid_by_inode_in(process_map, inode) {
            Some(p) => p,
            None => 0,
        };
        let process_name = self.names.resolve(pid);
        let (local_ip, local_port) = local;
        Ok(
            Some(
                ConnectionInfo::new(
                    Protocol::UDP,
                    local_ip,
                    local_port,
                    String::from_str("*"),
                    0,
                    ConnectionState::Listening,
                    pid,
                    process_name,
                ),
            ),
        )
    }

    /// Looks a socket inode up in an explicit inode-to-pid map.
    #[verifier::loop_isolation(false)]
    fn find_pid_by_inode_in(&self, m: &Vec<(u64, u32)>, target_inode: u64) -> (r: Option<u32>)
        ensures
            r == spec_find_pid(m@, target_inode),
    {
        let mv = Ghost(m@);
        let mut i: usize = 0;
        assert(mv@.skip(0) =~= mv@);
        while i < m.len()
            invariant
                i <= mv@.len(),
                mv@.len() == m@.len(),
                spec_find_pid(mv@, target_inode) == spec_find_pid(mv@.skip(i as int), target_inode),
            decreases mv@.len() - i,
        {
            proof {
                assert(mv@.skip(i as int)[0] == mv@[i as int]);
                assert(mv@.skip(i as int).drop_first() =~= mv@.skip(i + 1));
            }
            if m[i].0 == target_inode {
                return Some(m[i].1);
            }
            i = i + 1;
        }
        assert(mv@.skip(i as int) =~= Seq::<(u64, u32)>::empty());
        None
    }

    /// Decodes a whole TCP pseudo-file, dropping rows that fail to
    /// parse.
    #[verifier::loop_isolation(false)]
    #[verifier::rlimit(80)]
    fn parse_tcp_content(&self, content: &str, process_map: &Vec<(u64, u32)>) -> (r: Vec<
        ConnectionInfo,
    >)
        ensures
            conns_view(r@) == spec_tcp_file_rows(
                spec_lines(content@),
                process_map@,
                self.names.view_entries(),
            ),
    {
        let cv = chars_of(content);
        let lines = split_lines(&cv);
        let ghost lv = toks_view(lines@);
        let mut r: Vec<ConnectionInfo> = Vec::new();
        let mut i: usize = 0;
        proof {
            assert(lv.skip(0) =~= lv);
        }
        while i < lines.len()
            invariant
                i <= lv.len(),
                lv.len() == lines@.len(),
                conns_view(r@) + spec_tcp_file_rows(
                    lv.skip(i as int),
                    process_map@,
                    self.names.view_entries(),
                ) == spec_tcp_file_rows(lv, process_map@, self.names.view_entries()),
            decreases lv.len() - i,
        {
            proof {
                assert(lv.skip(i as int)[0] == lv[i as int]);
                assert(lv.skip(i as int).drop_first() =~= lv.skip(i + 1));
            }
            let line_str = string_of(&lines[i]);
            match self.parse_tcp_line_with_procfs(line_str.as_str(), process_map) {
                Ok(Some(conn)) => {
                    r.push(conn);
                    proof {
                        assert(conns_view(r@) =~= conns_view(r@.drop_last()).push(
                            r@.last()@,
                        ));
                        assert(conns_view(r@.drop_last()) + (seq![r@.last()@]
                            + spec_tcp_file_rows(
                            lv.skip(i + 1),
                            process_map@,
                            self.names.view_entries(),
                        )) =~= conns_view(r@) + spec_tcp_file_rows(
                            lv.skip(i + 1),
                            process_map@,
                            self.names.view_entries(),
                        ));
                    }
                },
                _ => {},
            }
            i = i + 1;
        }
        proof {
            assert(lv.skip(i as int) =~= Seq::<Seq<char>>::empty());
            assert(conns_view(r@) + Seq::<ConnectionRec>::empty() =~= conns_view(r@));
        }
        r
    }

    /// Decodes a whole UDP pseudo-file, dropping rows that fail to
    /// parse.
    #[verifier::loop_isolation(false)]
    #[verifier::rlimit(80)]
    fn parse_udp_content(&self, content: &str, process_map: &Vec<(u64, u32)>) -> (r: Vec<
        ConnectionInfo,
    >)
        ensures
            conns_view(r@) == spec_udp_file_rows(
                spec_lines(content@),
                process_map@,
                self.names.view_entries(),
            ),
    {
        let cv = chars_of(content);
        let lines = split_lines(&cv);
        let ghost lv = toks_view(lines@);
        let mut r: Vec<ConnectionInfo> = Vec::new();
        let mut i: usize = 0;
        proof {
            assert(lv.skip(0) =~= lv);
        }
        while i < lines.len()
            invariant
                i <= lv.len(),
                lv.len() == lines@.len(),
                conns_view(r@) + spec_udp_file_rows(
                    lv.skip(i as int),
                    process_map@,
                    self.names.view_entries(),
                ) == spec_udp_file_rows(lv, process_map@, self.names.view_entries()),
            decreases lv.len() - i,
        {
            proof {
                assert(lv.skip(i as int)[0] == lv[i as int]);
                assert(lv.skip(i as int).drop_first() =~= lv.skip(i + 1));
            }
            let line_str = string_of(&lines[i]);
            match self.parse_udp_line_with_procfs(line_str.as_str(), process_map) {
                Ok(Some(conn)) => {
                    r.push(conn);
                    proof {
                        assert(conns_view(r@) =~= conns_view(r@.drop_last()).push(
                            r@.last()@,
                        ));
                        assert(conns_view(r@.drop_last()) + (seq![r@.last()@]
                            + spec_udp_file_rows(
                            lv.skip(i + 1),
                            process_map@,
                            self.names.view_entries(),
                        )) =~= conns_view(r@) + spec_udp_file_rows(
                            lv.skip(i + 1),
                            process_map@,
                            self.names.view_entries(),
                        ));
                    }
                },
                _ => {},
            }
            i = i + 1;
        }
        proof {
            assert(lv.skip(i as int) =~= Seq::<Seq<char>>::empty());
            assert(conns_view(r@) + Seq::<ConnectionRec>::empty() =~= conns_view(r@));
        }
        r
    }

    /// Which list or error the TCP enumeration yields against the
    /// given inode map: an unreadable source file is an error;
    /// otherwise the rows of the IPv4 file, then those of the IPv6
    /// file.
    pub open spec fn spec_tcp_result_with(&self, pmap: Seq<(u64, u32)>) -> Result<
        Seq<ConnectionRec>,
        ErrorRec,
    > {
        match self.tcp_source {
            Err(e) => Err(ErrorRec::FileSystemError("Failed to read /proc/net/tcp: "@ + e@)),
            Ok(c4) => match self.tcp6_source {
                Err(e) => Err(ErrorRec::FileSystemError("Failed to read /proc/net/tcp6: "@ + e@)),
                Ok(c6) => Ok(
                    spec_tcp_file_rows(spec_lines(c4@), pmap, self.names.view_entries())
                        + spec_tcp_file_rows(spec_lines(c6@), pmap, self.names.view_entries()),
                ),
            },
        }
    }

    /// Which list or error the TCP enumeration yields against this
    /// provider's own inode map.
    pub open spec fn spec_tcp_result(&self) -> Result<Seq<ConnectionRec>, ErrorRec> {
        self.spec_tcp_result_with(self.inode_map@)
    }

    /// Which list or error the UDP enumeration yields against the
    /// given inode map.
    pub open spec fn spec_udp_result_with(&self, pmap: Seq<(u64, u32)>) -> Result<
        Seq<ConnectionRec>,
        ErrorRec,
    > {
        match self.udp_source {
            Err(e) => Err(ErrorRec::FileSystemError("Failed to read /proc/net/udp: "@ + e@)),
            Ok(c4) => match self.udp6_source {
                Err(e) => Err(ErrorRec::FileSystemError("Failed to read /proc/net/udp6: "@ + e@)),
                Ok(c6) => Ok(
                    spec_udp_file_rows(spec_lines(c4@), pmap, self.names.view_entries())
                        + spec_udp_file_rows(spec_lines(c6@), pmap, self.names.view_entries()),
                ),
            },
        }
    }

    /// Which list or error the UDP enumeration yields against this
    /// provider's own inode map.
    pub open spec fn spec_udp_result(&self) -> Result<Seq<ConnectionRec>, ErrorRec> {
        self.spec_udp_result_with(self.inode_map@)
    }

    /// Decodes both TCP pseudo-files against an explicit inode map.
    pub fn get_tcp_connections_with_procfs(&self, process_map: &Vec<(u64, u32)>) -> (r: Result<
        Vec<ConnectionInfo>,
        NetworkError,
    >)
        ensures
            result_view(r) == self.spec_tcp_result_with(process_map@),
    {
        let c4 = match &self.tcp_source {
            Err(e) => {
                return Err(
                    NetworkError::FileSystemError(
                        String::from_str("Failed to read /proc/net/tcp: ").concat(e.as_str()),
                    ),
                );
            },
            Ok(c) => c,
        };
        let c6 = match &self.tcp6_source {
            Err(e) => {
                return Err(
                    NetworkError::FileSystemError(
                        String::from_str("Failed to read /proc/net/tcp6: ").concat(e.as_str()),
                    ),
                );
            },
            Ok(c) => c,
        };
        let mut r = self.parse_tcp_content(c4.as_str(), process_map);
        let mut r6 = self.parse_tcp_content(c6.as_str(), process_map);
        r.append(&mut r6);
        proof {
            assert(conns_view(r@) =~= spec_tcp_file_rows(
                spec_lines(c4@),
                process_map@,
                self.names.view_entries(),
            ) + spec_tcp_file_rows(spec_lines(c6@), process_map@, self.names.view_entries()));
        }
        Ok(r)
    }

    /// Decodes both UDP pseudo-files against an explicit inode map.
    pub fn get_udp_connections_with_procfs(&self, process_map: &Vec<(u64, u32)>) -> (r: Result<
        Vec<ConnectionInfo>,
        NetworkError,
    >)
        ensures
            result_view(r) == self.spec_udp_result_with(process_map@),
    {
        let c4 = match &self.udp_source {
            Err(e) => {
                return Err(
                    NetworkError::FileSystemError(
                        String::from_str("Failed to read /proc/net/udp: ").concat(e.as_str()),
                    ),
                );
            },
            Ok(c) => c,
        };
        let c6 = match &self.udp6_source {
            Err(e) => {
                return Err(
                    NetworkError::FileSystemError(
                        String::from_str("Failed to read /proc/net/udp6: ").concat(e.as_str()),
                    ),
                );
            },
            Ok(c) => c,
        };
        let mut r = self.parse_udp_content(c4.as_str(), process_map);
        let mut r6 = self.parse_udp_content(c6.as_str(), process_map);
        r.append(&mut r6);
        proof {
            assert(conns_view(r@) =~= spec_udp_file_rows(
                spec_lines(c4@),
                process_map@,
                self.names.view_entries(),
            ) + spec_udp_file_rows(spec_lines(c6@), process_map@, self.names.view_entries()));
        }
        Ok(r)
    }
}

impl NetworkProvider for LinuxNetworkProvider {
    open spec fn spec_all_connections(&self) -> Result<Seq<ConnectionRec>, ErrorRec> {
        match self.spec_tcp_result() {
            Err(e) => Err(e),
            Ok(t) => match self.spec_udp_result() {
                Err(e) => Err(e),
                Ok(u) => Ok(t + u),
            },
        }
    }

    open spec fn spec_tcp_connections(&self) -> Result<Seq<ConnectionRec>, ErrorRec> {
        self.spec_tcp_result()
    }

    open spec fn spec_udp_connections(&self) -> Result<Seq<ConnectionRec>, ErrorRec> {
        self.spec_udp_result()
    }

    open spec fn spec_platform_name(&self) -> Seq<char> {
        "Linux"@
    }

    open spec fn spec_supported(&self) -> bool {
        self.proc_available
    }

    fn get_all_connections(&self) -> (r: Result<Vec<ConnectionInfo>, NetworkError>) {
        let mut tcp = match self.get_tcp_connections_with_procfs(&self.inode_map) {
            Err(e) => {
                return Err(e);
            },
            Ok(v) => v,
        };
        let mut udp = match self.get_udp_connections_with_procfs(&self.inode_map) {
            Err(e) => {
                return Err(e);
            },
            Ok(v) => v,
        };
        let ghost tv = conns_view(tcp@);
        let ghost uv = conns_view(udp@);
        tcp.append(&mut udp);
        proof {
            assert(conns_view(tcp@) =~= tv + uv);
        }
        Ok(tcp)
    }

    fn get_tcp_connections(&self) -> (r: Result<Vec<ConnectionInfo>, NetworkError>) {
        self.get_tcp_connections_with_procfs(&self.inode_map)
    }

    fn get_udp_connections(&self) -> (r: Result<Vec<ConnectionInfo>, NetworkError>) {
        self.get_udp_connections_with_procfs(&self.inode_map)
    }

    fn platform_name(&self) -> (r: &'static str) {
        "Linux"
    }

    fn is_supported(&self) -> (r: bool) {
        self.proc_available
    }
}

} // verus!
