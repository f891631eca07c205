use portview::api::{enumerate_all, enumerate_filtered, platform_info};
use portview::linux::LinuxNetworkProvider;
use portview::macos::MacOSNetworkProvider;
use portview::models::{ConnectionState, Protocol};
use portview::platform::{create_network_provider, NetworkError, NetworkProvider};
use portview::process::ProcessNameTable;
use portview::unified::{NativeProvider, UnifiedNetworkProvider};
use portview::windows::WindowsNetworkProvider;

const TCP_HEADER: &str =
    "  sl  local_address rem_address   st tx_queue rx_queue tr tm->when retrnsmt   uid  timeout inode";
const TCP_LISTEN_ROW: &str =
    "   0: 0100007F:0050 00000000:0000 0A 00000000:00000000 00:00000000 00000000     0        0 12345 1 0000000000000000 100 0 0 10 0";
const UDP_ROW: &str =
    "   1: 0100007F:0035 00000000:0000 07 00000000:00000000 00:00000000 00000000     0        0 23456 2 0000000000000000 0";

fn scenario_provider() -> LinuxNetworkProvider {
    LinuxNetworkProvider::new(
        Ok(format!("{}\n{}\n", TCP_HEADER, TCP_LISTEN_ROW)),
        Ok(String::new()),
        Ok(format!("{}\n{}\n", TCP_HEADER, UDP_ROW)),
        Ok(String::new()),
        vec![(12345, 1234), (23456, 5678)],
        ProcessNameTable::new(vec![
            (1234, "test.exe".to_string()),
            (5678, "dns.exe".to_string()),
        ]),
        true,
    )
}

fn scenario_unified() -> UnifiedNetworkProvider {
    create_network_provider(Some(NativeProvider::Linux(scenario_provider())))
}

#[test]
fn test_end_to_end_enumerate_all() {
    let unified = scenario_unified();
    let conns = enumerate_all(&unified).unwrap();
    assert_eq!(conns.len(), 2);

    let tcp = &conns[0];
    assert_eq!(tcp.protocol, Protocol::TCP);
    assert_eq!(tcp.local_address, "127.0.0.1");
    assert_eq!(tcp.local_port, 80);
    assert_eq!(tcp.remote_address, "0.0.0.0");
    assert_eq!(tcp.remote_port, 0);
    assert_eq!(tcp.state, ConnectionState::Listening);
    assert_eq!(tcp.pid, 1234);
    assert_eq!(tcp.process_name, "test.exe");

    let udp = &conns[1];
    assert_eq!(udp.protocol, Protocol::UDP);
    assert_eq!(udp.local_address, "127.0.0.1");
    assert_eq!(udp.local_port, 53);
    assert_eq!(udp.remote_address, "*");
    assert_eq!(udp.remote_port, 0);
    assert_eq!(udp.state, ConnectionState::Listening);
    assert_eq!(udp.pid, 5678);
    assert_eq!(udp.process_name, "dns.exe");
}

#[test]
fn test_end_to_end_enumerate_filtered_by_protocol() {
    let unified = scenario_unified();
    let tcp_only = enumerate_filtered(&unified, "tcp", None).unwrap();
    assert_eq!(tcp_only.len(), 1);
    assert_eq!(tcp_only[0].protocol, Protocol::TCP);
    assert_eq!(tcp_only[0].local_port, 80);

    let udp_only = enumerate_filtered(&unified, "udp", None).unwrap();
    assert_eq!(udp_only.len(), 1);
    assert_eq!(udp_only[0].protocol, Protocol::UDP);
}

#[test]
fn test_end_to_end_enumerate_filtered_by_port() {
    let unified = scenario_unified();
    let port_80 = enumerate_filtered(&unified, "all", Some(80)).unwrap();
    assert_eq!(port_80.len(), 1);
    assert_eq!(port_80[0].protocol, Protocol::TCP);
    assert_eq!(port_80[0].local_port, 80);

    let port_999 = enumerate_filtered(&unified, "all", Some(999)).unwrap();
    assert_eq!(port_999.len(), 0);
}

#[test]
fn test_bogus_protocol_fails_closed_when_source_works() {
    let unified = scenario_unified();
    let filtered = enumerate_filtered(&unified, "bogus-protocol", None).unwrap();
    assert_eq!(filtered.len(), 0);
    let filtered_port = enumerate_filtered(&unified, "bogus-protocol", Some(8)).unwrap();
    assert_eq!(filtered_port.len(), 0);
}

#[test]
fn test_bogus_protocol_still_reports_source_failure() {
    // With every source broken the error is reported, bogus selector or
    // not: failure is signalled explicitly and consistently.
    let unified = create_network_provider(None);
    assert!(matches!(
        enumerate_filtered(&unified, "bogus-protocol", None),
        Err(NetworkError::UnsupportedPlatform(_))
    ));
}

#[test]
fn test_unreadable_source_is_a_filesystem_error() {
    let provider = LinuxNetworkProvider::new(
        Err("permission denied".to_string()),
        Ok(String::new()),
        Ok(String::new()),
        Ok(String::new()),
        Vec::new(),
        ProcessNameTable::new(Vec::new()),
        true,
    );
    let r = provider.get_all_connections();
    match r {
        Err(NetworkError::FileSystemError(m)) => {
            assert_eq!(m, "Failed to read /proc/net/tcp: permission denied");
        }
        other => panic!("expected FileSystemError, got {:?}", other.map(|v| v.len())),
    }
}

#[test]
fn test_orchestrator_degrades_on_error_and_on_empty() {
    // Native collector errors out.
    let broken = LinuxNetworkProvider::new(
        Err("boom".to_string()),
        Ok(String::new()),
        Ok(String::new()),
        Ok(String::new()),
        Vec::new(),
        ProcessNameTable::new(Vec::new()),
        true,
    );
    let unified = create_network_provider(Some(NativeProvider::Linux(broken)));
    assert!(matches!(
        enumerate_all(&unified),
        Err(NetworkError::UnsupportedPlatform(_))
    ));

    // Native collector succeeds but reports nothing.
    let empty = LinuxNetworkProvider::new(
        Ok(String::new()),
        Ok(String::new()),
        Ok(String::new()),
        Ok(String::new()),
        Vec::new(),
        ProcessNameTable::new(Vec::new()),
        true,
    );
    let unified = create_network_provider(Some(NativeProvider::Linux(empty)));
    assert!(matches!(
        enumerate_all(&unified),
        Err(NetworkError::UnsupportedPlatform(_))
    ));

    // No native collector at all.
    let unified = create_network_provider(None);
    assert!(matches!(
        enumerate_all(&unified),
        Err(NetworkError::UnsupportedPlatform(_))
    ));
}

#[test]
fn test_platform_info_fields() {
    let unified = scenario_unified();
    let info = platform_info(&unified, "x86_64", "linux");
    assert_eq!(info.platform_name, "Linux");
    assert!(info.supported);
    assert_eq!(info.arch, "x86_64");
    assert_eq!(info.os, "linux");

    let none = create_network_provider(None);
    let info = platform_info(&none, "arm", "redox");
    assert_eq!(info.platform_name, "Unknown");
    assert!(!info.supported);
}

#[test]
fn test_unified_protocol_queries_filter_the_full_list() {
    let unified = scenario_unified();
    let tcp = unified.get_tcp_connections().unwrap();
    assert_eq!(tcp.len(), 1);
    assert_eq!(tcp[0].protocol, Protocol::TCP);
    let udp = unified.get_udp_connections().unwrap();
    assert_eq!(udp.len(), 1);
    assert_eq!(udp[0].protocol, Protocol::UDP);
}

#[test]
fn test_windows_provider_decodes_and_errors() {
    let names = ProcessNameTable::new(vec![(1234, "test.exe".to_string())]);
    let tcp_table = vec![
        1, 0, 0, 0, 2, 0, 0, 0, 127, 0, 0, 1, 0, 80, 0, 0, 0, 0, 0, 0, 0, 0, 0, 0, 210, 4, 0, 0,
    ];
    let provider = WindowsNetworkProvider::new(0, tcp_table.clone(), 0, Vec::new(), names);
    let conns = provider.get_all_connections().unwrap();
    assert_eq!(conns.len(), 1);
    assert_eq!(conns[0].local_address, "127.0.0.1");
    assert_eq!(conns[0].state, ConnectionState::Listen);
    assert_eq!(provider.platform_name(), "Windows");
    assert!(provider.is_supported());

    // A non-zero fill status is a hard error naming the failed call.
    let names = ProcessNameTable::new(Vec::new());
    let failing = WindowsNetworkProvider::new(5, tcp_table, 0, Vec::new(), names);
    match failing.get_tcp_connections() {
        Err(NetworkError::SystemCallFailed(m)) => {
            assert_eq!(m, "GetExtendedTcpTable failed with code: 5");
        }
        other => panic!("expected SystemCallFailed, got {:?}", other.map(|v| v.len())),
    }

    // An empty table is silently empty, whatever the status.
    let names = ProcessNameTable::new(Vec::new());
    let empty = WindowsNetworkProvider::new(5, Vec::new(), 0, Vec::new(), names);
    assert_eq!(empty.get_tcp_connections().unwrap().len(), 0);
}

#[test]
fn test_macos_provider_decodes_and_errors() {
    let header = "COMMAND PID USER FD TYPE DEVICE SIZE/OFF NODE NAME";
    let out = format!("{}\ndns 5678 u 3u IPv4 0 0t0 n UDP:127.0.0.1:53\n", header);
    let provider = MacOSNetworkProvider::new(
        Ok(out.clone()),
        Ok(format!("{}\n", header)),
        Ok(out),
        true,
    );
    let conns = provider.get_all_connections().unwrap();
    assert_eq!(conns.len(), 1);
    assert_eq!(conns[0].protocol, Protocol::UDP);
    assert_eq!(provider.get_tcp_connections().unwrap().len(), 0);
    assert_eq!(provider.get_udp_connections().unwrap().len(), 1);
    assert_eq!(provider.platform_name(), "macOS");

    let failing = MacOSNetworkProvider::new(
        Err("lsof command failed: not found".to_string()),
        Ok(String::new()),
        Ok(String::new()),
        false,
    );
    match failing.get_all_connections() {
        Err(NetworkError::CommandFailed(m)) => {
            assert_eq!(m, "lsof command failed: not found");
        }
        other => panic!("expected CommandFailed, got {:?}", other.map(|v| v.len())),
    }
    assert!(!failing.is_supported());
}

#[test]
fn test_error_messages() {
    let e = NetworkError::FileSystemError("no such file".to_string());
    assert_eq!(e.message(), "File system error: no such file");
    let e = NetworkError::UnsupportedPlatform("plan9".to_string());
    assert_eq!(e.message(), "Unsupported platform: plan9");
    let e = NetworkError::ParseError("00ZZ".to_string());
    assert_eq!(e.message(), "Parse error: 00ZZ");
    let cloned = e.clone();
    assert_eq!(cloned.message(), "Parse error: 00ZZ");
    let e = NetworkError::PermissionDenied("socket table".to_string());
    assert_eq!(e.message(), "Permission denied: socket table");
    let e = NetworkError::SystemCallFailed("code 5".to_string());
    assert_eq!(e.message(), "System call failed: code 5");
    let e = NetworkError::CommandFailed("lsof".to_string());
    assert_eq!(e.message(), "Command failed: lsof");
    let e = NetworkError::IoError("pipe closed".to_string());
    assert_eq!(e.message(), "I/O error: pipe closed");
}
