//! Decoder for the tabular output of the external `lsof` diagnostic
//! command, shared by the platforms that invoke it.
//!
//! Rows are split on whitespace and classified as TCP or UDP by a
//! protocol marker embedded in the ninth column, not by column
//! position.  The endpoint text is either `local->remote` for an
//! established connection or a single `address:port` (or
//! `address.port`) for a listening socket; a bracketed address
//! (`[addr]:port`) is matched first, then the rightmost separator is
//! split on, `:` when present, else `.`.  A parenthetical after the
//! endpoint names the connection state; without one a UDP socket is
//! `Listening` and a TCP socket `Unknown(0)`.  A row that fails any of
//! these steps is dropped, and decoding of the remaining rows
//! continues.

use vstd::prelude::*;
use crate::models::{ConnectionInfo, ConnectionRec, Protocol, ConnectionState, conns_view};
use crate::platform::NetworkError;
use crate::text::{
    spec_split_ws, spec_lines, spec_find_char, spec_rfind_char, spec_find_sub, contains_sub,
    spec_parse_radix, upper_seq, chars_of, split_ws, split_lines, find_char, rfind_char, find_sub,
    contains_chars, to_upper_chars, chars_eq_str, subvec, string_of, parse_dec_u32, parse_radix_bounded,
    toks_view,
};

verus! {

/// Decoder for `lsof` output rows.
pub struct LsofParser;

/// The state named by a parenthetical state word, after ASCII
/// upper-casing; an unrecognized word is `Unknown(0)`.
pub open spec fn spec_parse_tcp_state(s: Seq<char>) -> ConnectionState {
    let u = upper_seq(s);
    if u == "ESTABLISHED"@ {
        ConnectionState::Established
    } else if u == "SYN_SENT"@ {
        ConnectionState::SynSent
    } else if u == "SYN_RCVD"@ {
        ConnectionState::SynRcvd
    } else if u == "FIN_WAIT_1"@ {
        ConnectionState::FinWait1
    } else if u == "FIN_WAIT_2"@ {
        ConnectionState::FinWait2
    } else if u == "TIME_WAIT"@ {
        ConnectionState::TimeWait
    } else if u == "CLOSED"@ {
        ConnectionState::Closed
    } else if u == "CLOSE_WAIT"@ {
        ConnectionState::CloseWait
    } else if u == "LAST_ACK"@ {
        ConnectionState::LastAck
    } else if u == "LISTEN"@ {
        ConnectionState::Listening
    } else if u == "CLOSING"@ {
        ConnectionState::Closing
    } else {
        ConnectionState::Unknown(0)
    }
}

/// The state carried parenthetically in the endpoint column: the word
/// between the first `(` and the first `)`, when both are present in
/// that order; otherwise `Unknown(0)`.
pub open spec fn spec_extract_state(ci: Seq<char>) -> ConnectionState {
    match spec_find_char(ci, '(') {
        Some(i) => match spec_find_char(ci, ')') {
            Some(j) => if i + 1 <= j {
                spec_parse_tcp_state(ci.subrange(i + 1, j))
            } else {
                ConnectionState::Unknown(0)
            },
            None => ConnectionState::Unknown(0),
        },
        None => ConnectionState::Unknown(0),
    }
}

/// What parsing one endpoint yields: the address text and the decimal
/// port.  A bracketed address is split at the first `]:`; otherwise
/// the split is at the rightmost `:` when the text has one, else the
/// rightmost `.`.
pub open spec fn spec_parse_address(a: Seq<char>) -> Option<(Seq<char>, u16)> {
    if a.len() > 0 && a[0] == '[' {
        match spec_find_sub(a, "]:"@) {
            Some(i) => match spec_parse_radix(a.skip(i + 2), 10, 65535) {
                Some(p) => Some((a.subrange(1, i), p as u16)),
                None => None,
            },
            None => None,
        }
    } else {
        let sep: char = if spec_find_char(a, ':') is Some {
            ':'
        } else {
            '.'
        };
        match spec_rfind_char(a, sep) {
            Some(i) => match spec_parse_radix(a.skip(i + 1), 10, 65535) {
                Some(p) => Some((a.take(i), p as u16)),
                None => None,
            },
            None => None,
        }
    }
}

/// What decoding one row as a TCP connection yields, or nothing when
/// the row is not a well-formed TCP row.
pub open spec fn spec_tcp_line(line: Seq<char>) -> Option<ConnectionRec> {
    let fields = spec_split_ws(line);
    if fields.len() < 9 {
        None
    } else {
        match spec_parse_radix(fields[1], 10, 0xFFFF_FFFF) {
            None => None,
            Some(pid) => {
                let ci = fields[8];
                if !contains_sub(ci, "TCP"@) {
                    None
                } else {
                    let cp = match spec_find_char(ci, '(') {
                        Some(k) => ci.take(k),
                        None => ci,
                    };
                    let state = spec_extract_state(ci);
                    match spec_find_sub(cp, "->"@) {
                        Some(m) => {
                            let left = cp.take(m);
                            let right = cp.skip(m + 2);
                            if contains_sub(right, "->"@) {
                                None
                            } else {
                                match (spec_parse_address(left), spec_parse_address(right)) {
                                    (Some((lip, lp)), Some((rip, rp))) => Some(
                                        ConnectionRec {
                                            protocol: Protocol::TCP,
                                            local_address: lip,
                                            local_port: lp,
                                            remote_address: rip,
                                            remote_port: rp,
                                            state,
                                            pid: pid as u32,
                                            process_name: fields[0],
                                        },
                                    ),
                                    _ => None,
                                }
                            }
                        },
                        None => match spec_parse_address(cp) {
                            Some((lip, lp)) => Some(
                                ConnectionRec {
                                    protocol: Protocol::TCP,
                                    local_address: lip,
                                    local_port: lp,
                                    remote_address: "*"@,
                                    remote_port: 0,
                                    state,
                                    pid: pid as u32,
                                    process_name: fields[0],
                                },
                            ),
                            None => None,
                        },
                    }
                }
            },
        }
    }
}

/// What decoding one row as a UDP connection yields, or nothing when
/// the row is not a well-formed UDP row.
pub open spec fn spec_udp_line(line: Seq<char>) -> Option<ConnectionRec> {
    let fields = spec_split_ws(line);
    if fields.len() < 9 {
        None
    } else {
        match spec_parse_radix(fields[1], 10, 0xFFFF_FFFF) {
            None => None,
            Some(pid) => {
                let ci = fields[8];
                if !contains_sub(ci, "UDP"@) {
                    None
                } else {
                    let cp = match spec_find_char(ci, '(') {
                        Some(k) => ci.take(k),
                        None => ci,
                    };
                    match spec_parse_address(cp) {
                        Some((lip, lp)) => Some(
                            ConnectionRec {
                                protocol: Protocol::UDP,
                                local_address: lip,
                                local_port: lp,
                                remote_address: "*"@,
                                remote_port: 0,
                                state: ConnectionState::Listening,
                                pid: pid as u32,
                                process_name: fields[0],
                            },
                        ),
                        None => None,
                    }
                }
            },
        }
    }
}

/// The records of a row block where each row may be TCP or UDP: rows
/// are tried as TCP first, then as UDP, and rows that are neither are
/// dropped.
pub open spec fn spec_mixed_rows(lines: Seq<Seq<char>>) -> Seq<ConnectionRec>
    decreases lines.len(),
{
    if lines.len() == 0 {
        Seq::empty()
    } else {
        let rest = spec_mixed_rows(lines.drop_first());
        match spec_tcp_line(lines[0]) {
            Some(c) => seq![c] + rest,
            None => match spec_udp_line(lines[0]) {
                Some(c) => seq![c] + rest,
                None => rest,
            },
        }
    }
}

/// The TCP records of a row block; other rows are dropped.
pub open spec fn spec_tcp_rows(lines: Seq<Seq<char>>) -> Seq<ConnectionRec>
    decreases lines.len(),
{
    if lines.len() == 0 {
        Seq::empty()
    } else {
        let rest = spec_tcp_rows(lines.drop_first());
        match spec_tcp_line(lines[0]) {
            Some(c) => seq![c] + rest,
            None => rest,
        }
    }
}

/// The UDP records of a row block; other rows are dropped.
pub open spec fn spec_udp_rows(lines: Seq<Seq<char>>) -> Seq<ConnectionRec>
    decreases lines.len(),
{
    if lines.len() == 0 {
        Seq::empty()
    } else {
        let rest = spec_udp_rows(lines.drop_first());
        match spec_udp_line(lines[0]) {
            Some(c) => seq![c] + rest,
            None => rest,
        }
    }
}

/// Decoder robustness: a row that decodes neither as TCP nor as UDP —
/// one cut short, or one without a protocol marker — can be struck
/// from the output without changing what decoding yields; the rows
/// around it are decoded exactly as before.
pub proof fn lemma_unparsed_row_dropped(lines: Seq<Seq<char>>, i: int)
    requires
        0 <= i < lines.len(),
        spec_tcp_line(lines[i]) is None,
        spec_udp_line(lines[i]) is None,
    ensures
        spec_mixed_rows(lines) == spec_mixed_rows(lines.remove(i)),
    decreases i,
{
    if i == 0 {
        assert(lines.remove(0) =~= lines.drop_first());
    } else {
        lemma_unparsed_row_dropped(lines.drop_first(), i - 1);
        assert(lines.remove(i).drop_first() =~= lines.drop_first().remove(i - 1));
        assert(lines.remove(i)[0] == lines[0]);
    }
}

/// The rows of a whole output: its lines after the leading header
/// line.
pub open spec fn spec_body_lines(output: Seq<char>) -> Seq<Seq<char>> {
    let ls = spec_lines(output);
    if ls.len() == 0 {
        Seq::empty()
    } else {
        ls.drop_first()
    }
}

impl LsofParser {
    /// A decoder for `lsof` output.
    pub fn new() -> (r: Self) {
        LsofParser
    }

    /// Parses one endpoint into its address text and port.
    fn parse_address(&self, a: &Vec<char>) -> (r: Option<(String, u16)>)
        ensures
            match r {
                Some((ip, p)) => spec_parse_address(a@) == Some((ip@, p)),
                None => spec_parse_address(a@) is None,
            },
    {
        if a.len() > 0 && a[0] == '[' {
            let pat = chars_of("]:");
            proof {
                reveal_strlit("]:");
            }
            match find_sub(a, &pat) {
                Some(i) => {
                    let port_part = subvec(a, i + 2, a.len());
                    assert(port_part@ =~= a@.skip(i + 2));
                    match parse_radix_bounded(&port_part, 10, 65535) {
                        Some(p) => {
                            proof {
                                crate::text::lemma_find_sub(a@, pat@);
                                if i == 0 {
                                    assert(a@.subrange(0, 2)[0] == a@[0]);
                                }
                            }
                            let ip_part = subvec(a, 1, i);
                            Some((string_of(&ip_part), p as u16))
                        },
                        None => None,
                    }
                },
                None => None,
            }
        } else {
            let sep: char = match find_char(a, ':') {
                Some(_) => ':',
                None => '.',
            };
            match rfind_char(a, sep) {
                Some(i) => {
                    let port_part = subvec(a, i + 1, a.len());
                    assert(port_part@ =~= a@.skip(i + 1));
                    match parse_radix_bounded(&port_part, 10, 65535) {
                        Some(p) => {
                            let ip_part = subvec(a, 0, i);
                            assert(ip_part@ =~= a@.take(i as int));
                            Some((string_of(&ip_part), p as u16))
                        },
                        None => None,
                    }
                },
                None => None,
            }
        }
    }

    /// Maps a state word to a connection state.
    fn parse_tcp_state(&self, state_str: &Vec<char>) -> (r: ConnectionState)
        ensures
            r == spec_parse_tcp_state(state_str@),
    {
        let u = to_upper_chars(state_str);
        if chars_eq_str(&u, "ESTABLISHED") {
            ConnectionState::Established
        } else if chars_eq_str(&u, "SYN_SENT") {
            ConnectionState::SynSent
        } else if chars_eq_str(&u, "SYN_RCVD") {
            ConnectionState::SynRcvd
        } else if chars_eq_str(&u, "FIN_WAIT_1") {
            ConnectionState::FinWait1
        } else if chars_eq_str(&u, "FIN_WAIT_2") {
            ConnectionState::FinWait2
        } else if chars_eq_str(&u, "TIME_WAIT") {
            ConnectionState::TimeWait
        } else if chars_eq_str(&u, "CLOSED") {
            ConnectionState::Closed
        } else if chars_eq_str(&u, "CLOSE_WAIT") {
            ConnectionState::CloseWait
        } else if chars_eq_str(&u, "LAST_ACK") {
            ConnectionState::LastAck
        } else if chars_eq_str(&u, "LISTEN") {
            ConnectionState::Listening
        } else if chars_eq_str(&u, "CLOSING") {
            ConnectionState::Closing
        } else {
            ConnectionState::Unknown(0)
        }
    }

    /// Pulls the parenthetical state out of the endpoint column.
    fn extract_tcp_state_from_lsof(&self, connection_info: &Vec<char>) -> (r: ConnectionState)
        ensures
            r == spec_extract_state(connection_info@),
    {
        let n = connection_info.len();
        match find_char(connection_info, '(') {
            Some(i) => match find_char(connection_info, ')') {
                Some(j) => {
                    if i + 1 <= j {
                        let w = subvec(connection_info, i + 1, j);
                        self.parse_tcp_state(&w)
                    } else {
                        ConnectionState::Unknown(0)
                    }
                },
                None => ConnectionState::Unknown(0),
            },
            None => ConnectionState::Unknown(0),
        }
    }

    /// Decodes one row as a TCP connection, if it is one.
    fn parse_lsof_tcp_line(&self, line: &Vec<char>) -> (r: Option<ConnectionInfo>)
        ensures
            match r {
                Some(c) => spec_tcp_line(line@) == Some(c@),
                None => spec_tcp_line(line@) is None,
            },
    {
        let fields = split_ws(line);
        if fields.len() < 9 {
            return None;
        }
        let pid = match parse_dec_u32(&fields[1]) {
            Some(p) => p,
            None => {
                return None;
            },
        };
        let ci = &fields[8];
        let tcp_pat = chars_of("TCP");
        if !contains_chars(ci, &tcp_pat) {
            return None;
        }
        let cp: Vec<char> = match find_char(ci, '(') {
            Some(k) => {
                let v = subvec(ci, 0, k);
                assert(v@ =~= ci@.take(k as int));
                v
            },
            None => subvec(ci, 0, ci.len()),
        };
        assert(cp@ == (match spec_find_char(ci@, '(') {
            Some(k) => ci@.take(k),
            None => ci@,
        })) by {
            if spec_find_char(ci@, '(') is None {
                assert(ci@.subrange(0, ci@.len() as int) =~= ci@);
            }
        }
        let state = self.extract_tcp_state_from_lsof(ci);
        let arrow = chars_of("->");
        proof {
            reveal_strlit("->");
        }
        match find_sub(&cp, &arrow) {
            Some(m) => {
                let left = subvec(&cp, 0, m);
                let right = subvec(&cp, m + 2, cp.len());
                assert(left@ =~= cp@.take(m as int));
                assert(right@ =~= cp@.skip(m + 2));
                if contains_chars(&right, &arrow) {
                    return None;
                }
                let local = match self.parse_address(&left) {
                    Some(x) => x,
                    None => {
                        return None;
                    },
                };
                let remote = match self.parse_address(&right) {
                    Some(x) => x,
                    None => {
                        return None;
                    },
                };
                let (local_ip, local_port) = local;
                let (remote_ip, remote_port) = remote;
                Some(
                    ConnectionInfo::new(
                        Protocol::TCP,
                        local_ip,
                        local_port,
                        remote_ip,
                        remote_port,
                        state,
                        pid,
                        string_of(&fields[0]),
                    ),
                )
            },
            None => {
                let local = match self.parse_address(&cp) {
                    Some(x) => x,
                    None => {
                        return None;
                    },
                };
                let (local_ip, local_port) = local;
                Some(
                    ConnectionInfo::new(
                        Protocol::TCP,
                        local_ip,
                        local_port,
                        String::from_str("*"),
                        0,
                        state,
                        pid,
                        string_of(&fields[0]),
                    ),
                )
            },
        }
    }

    /// Decodes one row as a UDP connection, if it is one.
    fn parse_lsof_udp_line(&self, line: &Vec<char>) -> (r: Option<ConnectionInfo>)
        ensures
            match r {
                Some(c) => spec_udp_line(line@) == Some(c@),
                None => spec_udp_line(line@) is None,
            },
    {
        let fields = split_ws(line);
        if fields.len() < 9 {
            return None;
        }
        let pid = match parse_dec_u32(&fields[1]) {
            Some(p) => p,
            None => {
                return None;
            },
        };
        let ci = &fields[8];
        let udp_pat = chars_of("UDP");
        if !contains_chars(ci, &udp_pat) {
            return None;
        }
        let cp: Vec<char> = match find_char(ci, '(') {
            Some(k) => {
                let v = subvec(ci, 0, k);
                assert(v@ =~= ci@.take(k as int));
                v
            },
            None => subvec(ci, 0, ci.len()),
        };
        assert(cp@ == (match spec_find_char(ci@, '(') {
            Some(k) => ci@.take(k),
            None => ci@,
        })) by {
            if spec_find_char(ci@, '(') is None {
                assert(ci@.subrange(0, ci@.len() as int) =~= ci@);
            }
        }
        let local = match self.parse_address(&cp) {
            Some(x) => x,
            None => {
                return None;
            },
        };
        let (local_ip, local_port) = local;
        Some(
            ConnectionInfo::new(
                Protocol::UDP,
                local_ip,
                local_port,
                String::from_str("*"),
                0,
                ConnectionState::Listening,
                pid,
                string_of(&fields[0]),
            ),
        )
    }

    /// Decodes a whole output: every row after the header, each tried
    /// as TCP, then as UDP; rows that are neither are dropped.
    #[verifier::loop_isolation(false)]
    #[verifier::rlimit(80)]
    pub fn parse_all_connections(&self, output: &str) -> (r: Result<
        Vec<ConnectionInfo>,
        NetworkError,
    >)
        ensures
            r matches Ok(v) && conns_view(v@) == spec_mixed_rows(spec_body_lines(output@)),
    {
        let ov = chars_of(output);
        let lines = split_lines(&ov);
        let body = Ghost(spec_body_lines(output@));
        let mut connections: Vec<ConnectionInfo> = Vec::new();
        let mut i: usize = 1;
        proof {
            if toks_view(lines@).len() == 0 {
            } else {
                assert(toks_view(lines@).drop_first() =~= body@);
            }
            if 1 <= lines@.len() {
                assert(body@.skip(i - 1) =~= body@);
            }
        }
        while i < lines.len()
            invariant
                1 <= i <= lines@.len() || lines@.len() == 0,
                lines@.len() > 0 ==> conns_view(connections@) + spec_mixed_rows(
                    body@.skip(i - 1),
                ) == spec_mixed_rows(body@),
                lines@.len() == 0 ==> conns_view(connections@) =~= Seq::<ConnectionRec>::empty(),
            decreases lines@.len() - i,
        {
            let suffix = Ghost(body@.skip(i - 1));
            proof {
                assert(suffix@[0] == body@[i - 1]);
                assert(body@[i - 1] == toks_view(lines@)[i as int]);
                assert(suffix@.drop_first() =~= body@.skip(i as int));
            }
            if let Some(conn) = self.parse_lsof_tcp_line(&lines[i]) {
                connections.push(conn);
                proof {
                    assert(conns_view(connections@) =~= conns_view(connections@.drop_last()).push(
                        conn@,
                    ));
                    assert(conns_view(connections@.drop_last()) + (seq![conn@] + spec_mixed_rows(
                        body@.skip(i as int),
                    )) =~= conns_view(connections@) + spec_mixed_rows(body@.skip(i as int)));
                }
            } else if let Some(conn) = self.parse_lsof_udp_line(&lines[i]) {
                connections.push(conn);
                proof {
                    assert(conns_view(connections@) =~= conns_view(connections@.drop_last()).push(
                        conn@,
                    ));
                    assert(conns_view(connections@.drop_last()) + (seq![conn@] + spec_mixed_rows(
                        body@.skip(i as int),
                    )) =~= conns_view(connections@) + spec_mixed_rows(body@.skip(i as int)));
                }
            }
            i = i + 1;
        }
        proof {
            if lines@.len() > 0 {
                assert(body@.skip(i - 1) =~= Seq::<Seq<char>>::empty());
                assert(conns_view(connections@) + Seq::<ConnectionRec>::empty() =~= conns_view(
                    connections@,
                ));
            }
        }
        Ok(connections)
    }

    /// Decodes a whole output, keeping the TCP rows alone.
    #[verifier::loop_isolation(false)]
    #[verifier::rlimit(80)]
    pub fn parse_tcp_connections(&self, output: &str) -> (r: Result<
        Vec<ConnectionInfo>,
        NetworkError,
    >)
        ensures
            r matches Ok(v) && conns_view(v@) == spec_tcp_rows(spec_body_lines(output@)),
    {
        let ov = chars_of(output);
        let lines = split_lines(&ov);
        let body = Ghost(spec_body_lines(output@));
        let mut connections: Vec<ConnectionInfo> = Vec::new();
        let mut i: usize = 1;
        proof {
            if toks_view(lines@).len() == 0 {
            } else {
                assert(toks_view(lines@).drop_first() =~= body@);
            }
            if 1 <= lines@.len() {
                assert(body@.skip(i - 1) =~= body@);
            }
        }
        while i < lines.len()
            invariant
                1 <= i <= lines@.len() || lines@.len() == 0,
                lines@.len() > 0 ==> conns_view(connections@) + spec_tcp_rows(body@.skip(i - 1))
                    == spec_tcp_rows(body@),
                lines@.len() == 0 ==> conns_view(connections@) =~= Seq::<ConnectionRec>::empty(),
            decreases lines@.len() - i,
        {
            let suffix = Ghost(body@.skip(i - 1));
            proof {
                assert(suffix@[0] == body@[i - 1]);
                assert(body@[i - 1] == toks_view(lines@)[i as int]);
                assert(suffix@.drop_first() =~= body@.skip(i as int));
            }
            if let Some(conn) = self.parse_lsof_tcp_line(&lines[i]) {
                connections.push(conn);
                proof {
                    assert(conns_view(connections@) =~= conns_view(connections@.drop_last()).push(
                        conn@,
                    ));
                    assert(conns_view(connections@.drop_last()) + (seq![conn@] + spec_tcp_rows(
                        body@.skip(i as int),
                    )) =~= conns_view(connections@) + spec_tcp_rows(body@.skip(i as int)));
                }
            }
            i = i + 1;
        }
        proof {
            if lines@.len() > 0 {
                assert(body@.skip(i - 1) =~= Seq::<Seq<char>>::empty());
                assert(conns_view(connections@) + Seq::<ConnectionRec>::empty() =~= conns_view(
                    connections@,
                ));
            }
        }
        Ok(connections)
    }

    /// Decodes a whole output, keeping the UDP rows alone.
    #[verifier::loop_isolation(false)]
    #[verifier::rlimit(80)]
    pub fn parse_udp_connections(&self, output: &str) -> (r: Result<
        Vec<ConnectionInfo>,
        NetworkError,
    >)
        ensures
            r matches Ok(v) && conns_view(v@) == spec_udp_rows(spec_body_lines(output@)),
    {
        let ov = chars_of(output);
        let lines = split_lines(&ov);
        let body = Ghost(spec_body_lines(output@));
        let mut connections: Vec<ConnectionInfo> = Vec::new();
        let mut i: usize = 1;
        proof {
            if toks_view(lines@).len() == 0 {
            } else {
                assert(toks_view(lines@).drop_first() =~= body@);
            }
            if 1 <= lines@.len() {
                assert(body@.skip(i - 1) =~= body@);
            }
        }
        while i < lines.len()
            invariant
                1 <= i <= lines@.len() || lines@.len() == 0,
                lines@.len() > 0 ==> conns_view(connections@) + spec_udp_rows(body@.skip(i - 1))
                    == spec_udp_rows(body@),
                lines@.len() == 0 ==> conns_view(connections@) =~= Seq::<ConnectionRec>::empty(),
            decreases lines@.len() - i,
        {
            let suffix = Ghost(body@.skip(i - 1));
            proof {
                assert(suffix@[0] == body@[i - 1]);
                assert(body@[i - 1] == toks_view(lines@)[i as int]);
                assert(suffix@.drop_first() =~= body@.skip(i as int));
            }
            if let Some(conn) = self.parse_lsof_udp_line(&lines[i]) {
                connections.push(conn);
                proof {
                    assert(conns_view(connections@) =~= conns_view(connections@.drop_last()).push(
                        conn@,
                    ));
                    assert(conns_view(connections@.drop_last()) + (seq![conn@] + spec_udp_rows(
                        body@.skip(i as int),
                    )) =~= conns_view(connections@) + spec_udp_rows(body@.skip(i as int)));
                }
            }
            i = i + 1;
        }
        proof {
            if lines@.len() > 0 {
                assert(body@.skip(i - 1) =~= Seq::<Seq<char>>::empty());
                assert(conns_view(connections@) + Seq::<ConnectionRec>::empty() =~= conns_view(
                    connections@,
                ));
            }
        }
        Ok(connections)
    }
}

} // verus!
