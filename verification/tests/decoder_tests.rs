use portview::linux::LinuxNetworkProvider;
use portview::lsof_parser::LsofParser;
use portview::models::{ConnectionState, Protocol};
use portview::network::{get_all_connections, get_tcp_connections, get_udp_connections};
use portview::platform::{NetworkError, NetworkProvider};
use portview::process::ProcessNameTable;

fn names() -> ProcessNameTable {
    ProcessNameTable::new(vec![
        (1234, "test.exe".to_string()),
        (5678, "dns.exe".to_string()),
    ])
}

// One TCP row: state LISTEN (2), local 127.0.0.1:80, remote 0.0.0.0:0,
// owning pid 1234.  Fields are little-endian; ports keep their two low
// bytes big-endian.
fn tcp_table_one_row() -> Vec<u8> {
    vec![
        1, 0, 0, 0, // entry count
        2, 0, 0, 0, // state: LISTEN
        127, 0, 0, 1, // local 127.0.0.1
        0, 80, 0, 0, // local port 80
        0, 0, 0, 0, // remote 0.0.0.0
        0, 0, 0, 0, // remote port 0
        210, 4, 0, 0, // pid 1234
    ]
}

fn udp_table_one_row() -> Vec<u8> {
    vec![
        1, 0, 0, 0, // entry count
        127, 0, 0, 1, // local 127.0.0.1
        0, 53, 0, 0, // local port 53
        46, 22, 0, 0, // pid 5678
    ]
}

#[test]
fn test_binary_tcp_decode() {
    let table = tcp_table_one_row();
    let conns = get_tcp_connections(&table, &names());
    assert_eq!(conns.len(), 1);
    let c = &conns[0];
    assert_eq!(c.protocol, Protocol::TCP);
    assert_eq!(c.local_address, "127.0.0.1");
    assert_eq!(c.local_port, 80);
    assert_eq!(c.remote_address, "0.0.0.0");
    assert_eq!(c.remote_port, 0);
    assert_eq!(c.state, ConnectionState::Listen);
    assert_eq!(c.pid, 1234);
    assert_eq!(c.process_name, "test.exe");
}

#[test]
fn test_binary_udp_decode() {
    let table = udp_table_one_row();
    let conns = get_udp_connections(&table, &names());
    assert_eq!(conns.len(), 1);
    let c = &conns[0];
    assert_eq!(c.protocol, Protocol::UDP);
    assert_eq!(c.local_address, "127.0.0.1");
    assert_eq!(c.local_port, 53);
    assert_eq!(c.remote_address, "*");
    assert_eq!(c.remote_port, 0);
    assert_eq!(c.state, ConnectionState::Listening);
    assert_eq!(c.pid, 5678);
    assert_eq!(c.process_name, "dns.exe");
}

#[test]
fn test_binary_all_concatenates_tcp_then_udp() {
    let conns = get_all_connections(&tcp_table_one_row(), &udp_table_one_row(), &names());
    assert_eq!(conns.len(), 2);
    assert_eq!(conns[0].protocol, Protocol::TCP);
    assert_eq!(conns[1].protocol, Protocol::UDP);
}

#[test]
fn test_binary_declared_count_is_not_trusted() {
    // The count claims two rows but only one row of bytes follows.
    let mut table = tcp_table_one_row();
    table[0] = 2;
    let conns = get_tcp_connections(&table, &names());
    assert_eq!(conns.len(), 1);
}

#[test]
fn test_binary_truncated_row_yields_nothing() {
    // The count claims one row but the row's bytes are cut short.
    let mut table = tcp_table_one_row();
    table.truncate(20);
    let conns = get_tcp_connections(&table, &names());
    assert_eq!(conns.len(), 0);
}

#[test]
fn test_binary_empty_and_short_buffers() {
    let empty: Vec<u8> = Vec::new();
    assert_eq!(get_tcp_connections(&empty, &names()).len(), 0);
    let short: Vec<u8> = vec![1, 0];
    assert_eq!(get_tcp_connections(&short, &names()).len(), 0);
}

#[test]
fn test_binary_unknown_state_code_is_preserved() {
    let mut table = tcp_table_one_row();
    table[4] = 77;
    let conns = get_tcp_connections(&table, &names());
    assert_eq!(conns[0].state, ConnectionState::Unknown(77));
}

fn linux_provider_with_tcp(content: &str) -> LinuxNetworkProvider {
    LinuxNetworkProvider::new(
        Ok(content.to_string()),
        Ok(String::new()),
        Ok(String::new()),
        Ok(String::new()),
        vec![(12345, 1234), (23456, 5678)],
        names(),
        true,
    )
}

const TCP_HEADER: &str =
    "  sl  local_address rem_address   st tx_queue rx_queue tr tm->when retrnsmt   uid  timeout inode";
const TCP_ROW: &str =
    "   0: 0100007F:0050 00000000:0000 0A 00000000:00000000 00:00000000 00000000     0        0 12345 1 0000000000000000 100 0 0 10 0";

#[test]
fn test_proc_tcp_line_decode() {
    let provider = linux_provider_with_tcp("");
    let parsed = provider.parse_tcp_line(TCP_ROW).unwrap().unwrap();
    assert_eq!(parsed.protocol, Protocol::TCP);
    assert_eq!(parsed.local_address, "127.0.0.1");
    assert_eq!(parsed.local_port, 80);
    assert_eq!(parsed.remote_address, "0.0.0.0");
    assert_eq!(parsed.remote_port, 0);
    assert_eq!(parsed.state, ConnectionState::Listening);
    assert_eq!(parsed.pid, 1234);
    assert_eq!(parsed.process_name, "test.exe");
}

#[test]
fn test_proc_header_and_short_lines_are_skipped() {
    let provider = linux_provider_with_tcp("");
    assert!(provider.parse_tcp_line(TCP_HEADER).unwrap().is_none());
    assert!(provider.parse_tcp_line("garbage").unwrap().is_none());
    assert!(provider.parse_tcp_line("").unwrap().is_none());
}

#[test]
fn test_proc_malformed_fields_are_row_errors() {
    let provider = linux_provider_with_tcp("");
    // Address with the wrong number of hex digits.
    let bad_addr =
        "   0: 0100007:0050 00000000:0000 0A 00000000:00000000 00:00000000 00000000 0 0 12345 1";
    assert!(matches!(
        provider.parse_tcp_line(bad_addr),
        Err(NetworkError::ParseError(_))
    ));
    // Port that is not hexadecimal.
    let bad_port =
        "   0: 0100007F:00ZZ 00000000:0000 0A 00000000:00000000 00:00000000 00000000 0 0 12345 1";
    assert!(matches!(
        provider.parse_tcp_line(bad_port),
        Err(NetworkError::ParseError(_))
    ));
    // Inode that is not decimal.
    let bad_inode =
        "   0: 0100007F:0050 00000000:0000 0A 00000000:00000000 00:00000000 00000000 0 0 bad 1";
    assert!(matches!(
        provider.parse_tcp_line(bad_inode),
        Err(NetworkError::ParseError(_))
    ));
}

#[test]
fn test_proc_bad_row_does_not_abort_decoding() {
    let content = format!(
        "{}\n{}\n{}\n",
        TCP_HEADER, "   1: XYZXYZXY:0050 00000000:0000 0A 00:00 00:00 0 0 0 99 1", TCP_ROW
    );
    let provider = linux_provider_with_tcp(&content);
    let conns = provider.get_tcp_connections().unwrap();
    assert_eq!(conns.len(), 1);
    assert_eq!(conns[0].local_port, 80);
}

#[test]
fn test_proc_unknown_inode_yields_owner_zero() {
    let provider = LinuxNetworkProvider::new(
        Ok(String::new()),
        Ok(String::new()),
        Ok(String::new()),
        Ok(String::new()),
        Vec::new(),
        names(),
        true,
    );
    let parsed = provider.parse_tcp_line(TCP_ROW).unwrap().unwrap();
    assert_eq!(parsed.pid, 0);
    assert_eq!(parsed.process_name, "unknown");
}

#[test]
fn test_proc_udp_line_decode() {
    let provider = linux_provider_with_tcp("");
    let row =
        "   1: 0100007F:0035 00000000:0000 07 00000000:00000000 00:00000000 00000000     0        0 23456 2 0000000000000000 0";
    let parsed = provider
        .parse_udp_line_with_procfs(row, &vec![(23456, 5678)])
        .unwrap()
        .unwrap();
    assert_eq!(parsed.protocol, Protocol::UDP);
    assert_eq!(parsed.local_address, "127.0.0.1");
    assert_eq!(parsed.local_port, 53);
    assert_eq!(parsed.remote_address, "*");
    assert_eq!(parsed.remote_port, 0);
    assert_eq!(parsed.state, ConnectionState::Listening);
    assert_eq!(parsed.pid, 5678);
    assert_eq!(parsed.process_name, "dns.exe");
}

#[test]
fn test_inode_map_built_from_socket_links() {
    let entries = vec![
        (10, "socket:[100]".to_string()),
        (11, "/dev/null".to_string()),
        (12, "socket:[abc]".to_string()),
        (13, "socket:[200]".to_string()),
        (14, "socket:[]".to_string()),
    ];
    let map = LinuxNetworkProvider::build_process_inode_map(&entries);
    assert_eq!(map, vec![(100, 10), (200, 13)]);
}

#[test]
fn test_proc_decode_against_explicit_map() {
    let provider = linux_provider_with_tcp(&format!("{}\n{}\n", TCP_HEADER, TCP_ROW));
    let other_map = vec![(12345u64, 5678u32)];
    let conns = provider.get_tcp_connections_with_procfs(&other_map).unwrap();
    assert_eq!(conns.len(), 1);
    assert_eq!(conns[0].pid, 5678);
    assert_eq!(conns[0].process_name, "dns.exe");
}

#[test]
fn test_find_pid_by_inode() {
    let provider = linux_provider_with_tcp("");
    assert_eq!(provider.find_pid_by_inode(12345), Some(1234));
    assert_eq!(provider.find_pid_by_inode(23456), Some(5678));
    assert_eq!(provider.find_pid_by_inode(7), None);
}

#[test]
fn test_parse_hex_ip() {
    let provider = linux_provider_with_tcp("");
    let chars: Vec<char> = "0100007F".chars().collect();
    assert_eq!(provider.parse_hex_ip(&chars).unwrap(), "127.0.0.1");
    let short: Vec<char> = "0100".chars().collect();
    assert!(provider.parse_hex_ip(&short).is_err());
    let bad: Vec<char> = "0100007G".chars().collect();
    assert!(provider.parse_hex_ip(&bad).is_err());
}

const LSOF_HEADER: &str = "COMMAND PID USER FD TYPE DEVICE SIZE/OFF NODE NAME";

#[test]
fn test_lsof_established_tcp_row() {
    let parser = LsofParser::new();
    let output = format!(
        "{}\n{}\n",
        LSOF_HEADER, "app 42 u 3u IPv4 0 0t0 n TCP:10.0.0.1:8080->10.0.0.2:80(ESTABLISHED)"
    );
    let conns = parser.parse_tcp_connections(&output).unwrap();
    assert_eq!(conns.len(), 1);
    let c = &conns[0];
    assert_eq!(c.protocol, Protocol::TCP);
    assert_eq!(c.local_address, "TCP:10.0.0.1");
    assert_eq!(c.local_port, 8080);
    assert_eq!(c.remote_address, "10.0.0.2");
    assert_eq!(c.remote_port, 80);
    assert_eq!(c.state, ConnectionState::Established);
    assert_eq!(c.pid, 42);
    assert_eq!(c.process_name, "app");
}

#[test]
fn test_lsof_listening_tcp_row() {
    let parser = LsofParser::new();
    let output = format!("{}\n{}\n", LSOF_HEADER, "web 7 u 3u IPv4 0 0t0 n TCP:*:8080(LISTEN)");
    let conns = parser.parse_tcp_connections(&output).unwrap();
    assert_eq!(conns.len(), 1);
    let c = &conns[0];
    assert_eq!(c.local_address, "TCP:*");
    assert_eq!(c.local_port, 8080);
    assert_eq!(c.remote_address, "*");
    assert_eq!(c.remote_port, 0);
    assert_eq!(c.state, ConnectionState::Listening);
}

#[test]
fn test_lsof_bracketed_remote_address() {
    let parser = LsofParser::new();
    let output = format!(
        "{}\n{}\n",
        LSOF_HEADER, "app 42 u 3u IPv6 0 0t0 n TCP:[::1]:8080->[::2]:80(CLOSE_WAIT)"
    );
    let conns = parser.parse_tcp_connections(&output).unwrap();
    assert_eq!(conns.len(), 1);
    let c = &conns[0];
    assert_eq!(c.remote_address, "::2");
    assert_eq!(c.remote_port, 80);
    assert_eq!(c.state, ConnectionState::CloseWait);
}

#[test]
fn test_lsof_udp_row() {
    let parser = LsofParser::new();
    let output = format!("{}\n{}\n", LSOF_HEADER, "dns 5678 u 3u IPv4 0 0t0 n UDP:127.0.0.1:53");
    let conns = parser.parse_udp_connections(&output).unwrap();
    assert_eq!(conns.len(), 1);
    let c = &conns[0];
    assert_eq!(c.protocol, Protocol::UDP);
    assert_eq!(c.local_address, "UDP:127.0.0.1");
    assert_eq!(c.local_port, 53);
    assert_eq!(c.remote_address, "*");
    assert_eq!(c.remote_port, 0);
    assert_eq!(c.state, ConnectionState::Listening);
}

#[test]
fn test_lsof_mixed_rows_and_bad_rows() {
    let parser = LsofParser::new();
    let output = format!(
        "{}\n{}\n{}\n{}\n{}\n",
        LSOF_HEADER,
        "short row",
        "app 42 u 3u IPv4 0 0t0 n TCP:10.0.0.1:8080->10.0.0.2:80(ESTABLISHED)",
        "noise 9 u 3u IPv4 0 0t0 n raw:1.2.3.4:5",
        "dns 5678 u 3u IPv4 0 0t0 n UDP:127.0.0.1:53"
    );
    let conns = parser.parse_all_connections(&output).unwrap();
    assert_eq!(conns.len(), 2);
    assert_eq!(conns[0].protocol, Protocol::TCP);
    assert_eq!(conns[1].protocol, Protocol::UDP);
}

#[test]
fn test_lsof_header_line_is_skipped() {
    let parser = LsofParser::new();
    // Even a parseable first line is treated as the header.
    let output = "app 42 u 3u IPv4 0 0t0 n TCP:10.0.0.1:8080->10.0.0.2:80(ESTABLISHED)\n";
    let conns = parser.parse_all_connections(output).unwrap();
    assert_eq!(conns.len(), 0);
}

#[test]
fn test_lsof_state_words() {
    let parser = LsofParser::new();
    let cases = [
        ("ESTABLISHED", ConnectionState::Established),
        ("SYN_SENT", ConnectionState::SynSent),
        ("SYN_RCVD", ConnectionState::SynRcvd),
        ("FIN_WAIT_1", ConnectionState::FinWait1),
        ("FIN_WAIT_2", ConnectionState::FinWait2),
        ("TIME_WAIT", ConnectionState::TimeWait),
        ("CLOSED", ConnectionState::Closed),
        ("CLOSE_WAIT", ConnectionState::CloseWait),
        ("LAST_ACK", ConnectionState::LastAck),
        ("LISTEN", ConnectionState::Listening),
        ("CLOSING", ConnectionState::Closing),
        ("listen", ConnectionState::Listening),
        ("NOT_A_STATE", ConnectionState::Unknown(0)),
    ];
    for (word, expected) in cases {
        let output = format!(
            "{}\nappp 1 u 3u IPv4 0 0t0 n TCP:1.2.3.4:80({})\n",
            LSOF_HEADER, word
        );
        let conns = parser.parse_tcp_connections(&output).unwrap();
        assert_eq!(conns.len(), 1, "state word {word}");
        assert_eq!(conns[0].state, expected, "state word {word}");
    }
}

#[test]
fn test_lsof_tcp_without_state_is_unknown() {
    let parser = LsofParser::new();
    let output = format!("{}\napp 42 u 3u IPv4 0 0t0 n TCP:1.2.3.4:80\n", LSOF_HEADER);
    let conns = parser.parse_tcp_connections(&output).unwrap();
    assert_eq!(conns.len(), 1);
    assert_eq!(conns[0].state, ConnectionState::Unknown(0));
}
