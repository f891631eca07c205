//! The canonical connection record and its protocol / state enumerations.
//!
//! Every collector, whatever raw source it decodes, produces values of
//! [`ConnectionInfo`].  A record is always fully populated: absence is
//! encoded through sentinels (wildcard remote endpoint, pid `0`,
//! process name `"unknown"`), never through missing fields.

use vstd::prelude::*;
use crate::text::{dec_str, u32_to_string};

verus! {

/// Transport protocol of a socket.
#[derive(Clone, Copy, Debug, PartialEq, Eq, Structural)]
pub enum Protocol {
    TCP,
    UDP,
}

/// State of a connection.
///
/// The TCP state space is reused for UDP sockets, which are always
/// reported as `Listening`.  An unrecognized numeric state code is kept
/// as `Unknown` with the raw code, never turned into an error.
#[derive(Clone, Copy, Debug, PartialEq, Eq, Structural)]
pub enum ConnectionState {
    Closed,
    Listen,
    SynSent,
    SynRcvd,
    Established,
    FinWait1,
    FinWait2,
    CloseWait,
    Closing,
    LastAck,
    TimeWait,
    DeleteTcb,
    Listening,
    Unknown(u32),
}

/// Mathematical image of a [`ConnectionInfo`]: the same fields with the
/// strings abstracted to character sequences.
pub ghost struct ConnectionRec {
    pub protocol: Protocol,
    pub local_address: Seq<char>,
    pub local_port: u16,
    pub remote_address: Seq<char>,
    pub remote_port: u16,
    pub state: ConnectionState,
    pub pid: u32,
    pub process_name: Seq<char>,
}

/// One active socket, normalized from whichever raw source reported it.
pub struct ConnectionInfo {
    pub protocol: Protocol,
    pub local_address: String,
    pub local_port: u16,
    pub remote_address: String,
    pub remote_port: u16,
    pub state: ConnectionState,
    pub pid: u32,
    pub process_name: String,
}

impl View for ConnectionInfo {
    type V = ConnectionRec;

    open spec fn view(&self) -> ConnectionRec {
        ConnectionRec {
            protocol: self.protocol,
            local_address: self.local_address@,
            local_port: self.local_port,
            remote_address: self.remote_address@,
            remote_port: self.remote_port,
            state: self.state,
            pid: self.pid,
            process_name: self.process_name@,
        }
    }
}

impl ConnectionInfo {
    /// Assembles a record from its eight fields.
    pub fn new(
        protocol: Protocol,
        local_address: String,
        local_port: u16,
        remote_address: String,
        remote_port: u16,
        state: ConnectionState,
        pid: u32,
        process_name: String,
    ) -> (r: Self)
        ensures
            r@ == (ConnectionRec {
                protocol,
                local_address: local_address@,
                local_port,
                remote_address: remote_address@,
                remote_port,
                state,
                pid,
                process_name: process_name@,
            }),
    {
        Self {
            protocol,
            local_address,
            local_port,
            remote_address,
            remote_port,
            state,
            pid,
            process_name,
        }
    }
}

impl Clone for ConnectionInfo {
    fn clone(&self) -> (r: Self)
        ensures
            r == *self,
    {
        ConnectionInfo {
            protocol: self.protocol,
            local_address: self.local_address.clone(),
            local_port: self.local_port,
            remote_address: self.remote_address.clone(),
            remote_port: self.remote_port,
            state: self.state,
            pid: self.pid,
            process_name: self.process_name.clone(),
        }
    }
}

/// The image of a sequence of connections: each element replaced by its view.
pub open spec fn conns_view(s: Seq<ConnectionInfo>) -> Seq<ConnectionRec> {
    s.map_values(|c: ConnectionInfo| c@)
}

/// The fixed lookup table of the binary kernel source: numeric codes
/// `1` through `12` name the twelve TCP states; anything else is kept
/// verbatim as `Unknown`.
pub open spec fn spec_state_from_code(code: u32) -> ConnectionState {
    if code == 1 {
        ConnectionState::Closed
    } else if code == 2 {
        ConnectionState::Listen
    } else if code == 3 {
        ConnectionState::SynSent
    } else if code == 4 {
        ConnectionState::SynRcvd
    } else if code == 5 {
        ConnectionState::Established
    } else if code == 6 {
        ConnectionState::FinWait1
    } else if code == 7 {
        ConnectionState::FinWait2
    } else if code == 8 {
        ConnectionState::CloseWait
    } else if code == 9 {
        ConnectionState::Closing
    } else if code == 10 {
        ConnectionState::LastAck
    } else if code == 11 {
        ConnectionState::TimeWait
    } else if code == 12 {
        ConnectionState::DeleteTcb
    } else {
        ConnectionState::Unknown(code)
    }
}

impl ConnectionState {
    /// Maps a numeric state code of the binary kernel table to a state.
    pub fn from_code(code: u32) -> (s: Self)
        ensures
            s == spec_state_from_code(code),
    {
        match code {
            1 => ConnectionState::Closed,
            2 => ConnectionState::Listen,
            3 => ConnectionState::SynSent,
            4 => ConnectionState::SynRcvd,
            5 => ConnectionState::Established,
            6 => ConnectionState::FinWait1,
            7 => ConnectionState::FinWait2,
            8 => ConnectionState::CloseWait,
            9 => ConnectionState::Closing,
            10 => ConnectionState::LastAck,
            11 => ConnectionState::TimeWait,
            12 => ConnectionState::DeleteTcb,
            _ => ConnectionState::Unknown(code),
        }
    }
}

/// Every code the binary kernel table defines maps to a definite state,
/// and every other code is preserved inside `Unknown`.
pub proof fn lemma_binary_state_table_complete(code: u32)
    ensures
        1 <= code <= 12 ==> !(spec_state_from_code(code) is Unknown),
        !(1 <= code <= 12) ==> spec_state_from_code(code) == ConnectionState::Unknown(code),
{
}

impl From<u32> for ConnectionState {
    /// The binary kernel table's numeric code, as a state.
    fn from(state: u32) -> (r: Self) {
        ConnectionState::from_code(state)
    }
}

impl vstd::std_specs::convert::FromSpecImpl<u32> for ConnectionState {
    open spec fn obeys_from_spec() -> bool {
        true
    }

    open spec fn from_spec(t: u32) -> Self {
        spec_state_from_code(t)
    }
}

/// The display word of a protocol.
pub open spec fn spec_protocol_label(p: Protocol) -> Seq<char> {
    match p {
        Protocol::TCP => "TCP"@,
        Protocol::UDP => "UDP"@,
    }
}

impl Protocol {
    /// The display word of this protocol.
    pub fn label(&self) -> (r: String)
        ensures
            r@ == spec_protocol_label(*self),
    {
        match self {
            Protocol::TCP => String::from_str("TCP"),
            Protocol::UDP => String::from_str("UDP"),
        }
    }
}

/// The display word of a connection state; an unknown state carries
/// its raw code in parentheses.
pub open spec fn spec_state_label(s: ConnectionState) -> Seq<char> {
    match s {
        ConnectionState::Closed => "CLOSED"@,
        ConnectionState::Listen => "LISTEN"@,
        ConnectionState::SynSent => "SYN_SENT"@,
        ConnectionState::SynRcvd => "SYN_RCVD"@,
        ConnectionState::Established => "ESTABLISHED"@,
        ConnectionState::FinWait1 => "FIN_WAIT1"@,
        ConnectionState::FinWait2 => "FIN_WAIT2"@,
        ConnectionState::CloseWait => "CLOSE_WAIT"@,
        ConnectionState::Closing => "CLOSING"@,
        ConnectionState::LastAck => "LAST_ACK"@,
        ConnectionState::TimeWait => "TIME_WAIT"@,
        ConnectionState::DeleteTcb => "DELETE_TCB"@,
        ConnectionState::Listening => "LISTENING"@,
        ConnectionState::Unknown(code) => "UNKNOWN("@ + dec_str(code as nat) + ")"@,
    }
}

impl ConnectionState {
    /// The display word of this state.
    pub fn label(&self) -> (r: String)
        ensures
            r@ == spec_state_label(*self),
    {
        match self {
            ConnectionState::Closed => String::from_str("CLOSED"),
            ConnectionState::Listen => String::from_str("LISTEN"),
            ConnectionState::SynSent => String::from_str("SYN_SENT"),
            ConnectionState::SynRcvd => String::from_str("SYN_RCVD"),
            ConnectionState::Established => String::from_str("ESTABLISHED"),
            ConnectionState::FinWait1 => String::from_str("FIN_WAIT1"),
            ConnectionState::FinWait2 => String::from_str("FIN_WAIT2"),
            ConnectionState::CloseWait => String::from_str("CLOSE_WAIT"),
            ConnectionState::Closing => String::from_str("CLOSING"),
            ConnectionState::LastAck => String::from_str("LAST_ACK"),
            ConnectionState::TimeWait => String::from_str("TIME_WAIT"),
            ConnectionState::DeleteTcb => String::from_str("DELETE_TCB"),
            ConnectionState::Listening => String::from_str("LISTENING"),
            ConnectionState::Unknown(code) => String::from_str("UNKNOWN(").concat(
                u32_to_string(*code).as_str(),
            ).concat(")"),
        }
    }
}

/// Renders a binary-table state code as its display word.
pub fn format_tcp_state(state: u32) -> (r: String)
    ensures
        r@ == spec_state_label(spec_state_from_code(state)),
{
    ConnectionState::from_code(state).label()
}

} // verus!
