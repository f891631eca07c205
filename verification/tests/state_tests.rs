use portview::linux::LinuxNetworkProvider;
use portview::models::{format_tcp_state, ConnectionState, Protocol};
use portview::process::{format_ip_address, ProcessNameTable};

fn empty_linux_provider() -> LinuxNetworkProvider {
    LinuxNetworkProvider::new(
        Ok(String::new()),
        Ok(String::new()),
        Ok(String::new()),
        Ok(String::new()),
        Vec::new(),
        ProcessNameTable::new(Vec::new()),
        true,
    )
}

#[test]
fn test_binary_state_table_is_complete() {
    for code in 1u32..=12 {
        let state = ConnectionState::from_code(code);
        assert!(!matches!(state, ConnectionState::Unknown(_)), "code {code}");
    }
    assert_eq!(ConnectionState::from_code(0), ConnectionState::Unknown(0));
    assert_eq!(ConnectionState::from_code(13), ConnectionState::Unknown(13));
    assert_eq!(ConnectionState::from_code(99), ConnectionState::Unknown(99));
}

#[test]
fn test_binary_state_table_values() {
    assert_eq!(ConnectionState::from_code(1), ConnectionState::Closed);
    assert_eq!(ConnectionState::from_code(2), ConnectionState::Listen);
    assert_eq!(ConnectionState::from_code(5), ConnectionState::Established);
    assert_eq!(ConnectionState::from_code(11), ConnectionState::TimeWait);
    assert_eq!(ConnectionState::from_code(12), ConnectionState::DeleteTcb);
    assert_eq!(ConnectionState::from(5u32), ConnectionState::Established);
}

#[test]
fn test_proc_state_table_is_complete() {
    let provider = empty_linux_provider();
    for code in 1u32..=0x0B {
        let state = provider.convert_tcp_state(code);
        assert!(!matches!(state, ConnectionState::Unknown(_)), "code {code}");
    }
    assert_eq!(provider.convert_tcp_state(0x01), ConnectionState::Established);
    assert_eq!(provider.convert_tcp_state(0x0A), ConnectionState::Listening);
    assert_eq!(provider.convert_tcp_state(0x0B), ConnectionState::Closing);
    assert_eq!(provider.convert_tcp_state(0x0C), ConnectionState::Unknown(12));
    assert_eq!(provider.convert_tcp_state(0), ConnectionState::Unknown(0));
}

#[test]
fn test_format_tcp_state_words() {
    assert_eq!(format_tcp_state(1), "CLOSED");
    assert_eq!(format_tcp_state(2), "LISTEN");
    assert_eq!(format_tcp_state(5), "ESTABLISHED");
    assert_eq!(format_tcp_state(12), "DELETE_TCB");
    assert_eq!(format_tcp_state(99), "UNKNOWN(99)");
}

#[test]
fn test_state_and_protocol_labels() {
    assert_eq!(Protocol::TCP.label(), "TCP");
    assert_eq!(Protocol::UDP.label(), "UDP");
    assert_eq!(ConnectionState::Listening.label(), "LISTENING");
    assert_eq!(ConnectionState::Unknown(7).label(), "UNKNOWN(7)");
    assert_eq!(ConnectionState::Unknown(0).label(), "UNKNOWN(0)");
}

#[test]
fn test_format_ip_address_low_byte_first() {
    assert_eq!(format_ip_address(0x0100007F), "127.0.0.1");
    assert_eq!(format_ip_address(0), "0.0.0.0");
    assert_eq!(format_ip_address(0xFFFFFFFF), "255.255.255.255");
    assert_eq!(format_ip_address(0x0101A8C0), "192.168.1.1");
}

#[test]
fn test_resolver_falls_back_to_unknown() {
    let table = ProcessNameTable::new(vec![
        (1234, "test.exe".to_string()),
        (5678, "dns.exe".to_string()),
    ]);
    assert_eq!(table.resolve(1234), "test.exe");
    assert_eq!(table.resolve(5678), "dns.exe");
    assert_eq!(table.resolve(9999), "unknown");
    assert_eq!(table.resolve(0), "unknown");
}
