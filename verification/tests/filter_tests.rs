use portview::filter::filter_connections;
use portview::models::{ConnectionInfo, ConnectionState, Protocol};

fn sample_connections() -> Vec<ConnectionInfo> {
    vec![
        ConnectionInfo::new(
            Protocol::TCP,
            "127.0.0.1".to_string(),
            80,
            "0.0.0.0".to_string(),
            0,
            ConnectionState::Listening,
            1234,
            "test.exe".to_string(),
        ),
        ConnectionInfo::new(
            Protocol::UDP,
            "127.0.0.1".to_string(),
            53,
            "*".to_string(),
            0,
            ConnectionState::Listening,
            5678,
            "dns.exe".to_string(),
        ),
    ]
}

#[test]
fn test_filter_by_protocol() {
    let connections = vec![
        ConnectionInfo::new(
            Protocol::TCP,
            "127.0.0.1".to_string(),
            80,
            "0.0.0.0".to_string(),
            0,
            ConnectionState::Listening,
            1234,
            "test.exe".to_string(),
        ),
        ConnectionInfo::new(
            Protocol::UDP,
            "127.0.0.1".to_string(),
            53,
            "*".to_string(),
            0,
            ConnectionState::Listening,
            5678,
            "dns.exe".to_string(),
        ),
    ];

    let tcp_filtered = filter_connections(&connections, "tcp", None);
    assert_eq!(tcp_filtered.len(), 1);
    assert_eq!(tcp_filtered[0].protocol, Protocol::TCP);

    let udp_filtered = filter_connections(&connections, "udp", None);
    assert_eq!(udp_filtered.len(), 1);
    assert_eq!(udp_filtered[0].protocol, Protocol::UDP);

    let all_filtered = filter_connections(&connections, "all", None);
    assert_eq!(all_filtered.len(), 2);
}

#[test]
fn test_filter_by_port() {
    let connections = vec![
        ConnectionInfo::new(
            Protocol::TCP,
            "127.0.0.1".to_string(),
            80,
            "0.0.0.0".to_string(),
            0,
            ConnectionState::Listening,
            1234,
            "test.exe".to_string(),
        ),
        ConnectionInfo::new(
            Protocol::UDP,
            "127.0.0.1".to_string(),
            53,
            "*".to_string(),
            0,
            ConnectionState::Listening,
            5678,
            "dns.exe".to_string(),
        ),
    ];

    let port_80_filtered = filter_connections(&connections, "all", Some(80));
    assert_eq!(port_80_filtered.len(), 1);
    assert_eq!(port_80_filtered[0].local_port, 80);

    let port_53_filtered = filter_connections(&connections, "all", Some(53));
    assert_eq!(port_53_filtered.len(), 1);
    assert_eq!(port_53_filtered[0].local_port, 53);

    let port_999_filtered = filter_connections(&connections, "all", Some(999));
    assert_eq!(port_999_filtered.len(), 0);
}

#[test]
fn test_filter_all_is_identity() {
    let connections = sample_connections();
    let filtered = filter_connections(&connections, "all", None);
    assert_eq!(filtered.len(), connections.len());
    for (a, b) in filtered.iter().zip(connections.iter()) {
        assert_eq!(a.protocol, b.protocol);
        assert_eq!(a.local_address, b.local_address);
        assert_eq!(a.local_port, b.local_port);
        assert_eq!(a.remote_address, b.remote_address);
        assert_eq!(a.remote_port, b.remote_port);
        assert_eq!(a.state, b.state);
        assert_eq!(a.pid, b.pid);
        assert_eq!(a.process_name, b.process_name);
    }
}

#[test]
fn test_filter_unrecognized_protocol_matches_nothing() {
    let connections = sample_connections();
    let filtered = filter_connections(&connections, "bogus-protocol", None);
    assert_eq!(filtered.len(), 0);
    let filtered_with_port = filter_connections(&connections, "bogus-protocol", Some(8));
    assert_eq!(filtered_with_port.len(), 0);
    let empty: Vec<ConnectionInfo> = Vec::new();
    assert_eq!(filter_connections(&empty, "bogus-protocol", None).len(), 0);
}

#[test]
fn test_filter_port_prefix_matching() {
    let mut connections = Vec::new();
    for port in [8u16, 80, 89, 800, 8080, 18, 28, 100] {
        connections.push(ConnectionInfo::new(
            Protocol::TCP,
            "10.0.0.1".to_string(),
            port,
            "0.0.0.0".to_string(),
            0,
            ConnectionState::Listen,
            1,
            "p".to_string(),
        ));
    }
    let filtered = filter_connections(&connections, "all", Some(8));
    let kept: Vec<u16> = filtered.iter().map(|c| c.local_port).collect();
    assert_eq!(kept, vec![8, 80, 89, 800, 8080]);
}

#[test]
fn test_filter_port_prefix_matches_remote_port_too() {
    let conn = ConnectionInfo::new(
        Protocol::TCP,
        "10.0.0.1".to_string(),
        443,
        "10.0.0.2".to_string(),
        8080,
        ConnectionState::Established,
        1,
        "p".to_string(),
    );
    let filtered = filter_connections(&vec![conn], "all", Some(80));
    assert_eq!(filtered.len(), 1);
    assert_eq!(filtered[0].remote_port, 8080);
}

#[test]
fn test_filter_protocol_partition() {
    let connections = sample_connections();
    let tcp = filter_connections(&connections, "tcp", None);
    let udp = filter_connections(&connections, "udp", None);
    let all = filter_connections(&connections, "all", None);
    assert_eq!(tcp.len() + udp.len(), all.len());
    for c in tcp.iter() {
        assert_eq!(c.protocol, Protocol::TCP);
    }
    for c in udp.iter() {
        assert_eq!(c.protocol, Protocol::UDP);
    }
}
