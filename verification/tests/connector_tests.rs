use stalwart_panel::app_connector::{
    parse_pid_response, LinuxConnection, LinuxConnectionConfig, NoneConnection,
};

#[test]
fn test_pid_parse() {
    let output = "MainPID=1234";
    let output = parse_pid_response(output.to_string()).unwrap();
    assert_eq!(output, 1234);
}

#[test]
fn pid_parse_trims_and_ignores_later_fields() {
    assert_eq!(parse_pid_response("  MainPID=7  \n".to_string()), Ok(7));
    assert_eq!(parse_pid_response("MainPID=42=rest".to_string()), Ok(42));
    assert_eq!(parse_pid_response("MainPID=0".to_string()), Ok(0));
    assert_eq!(parse_pid_response("MainPID=4294967295".to_string()), Ok(4_294_967_295));
}

#[test]
fn pid_parse_rejects_malformed_lines() {
    assert!(parse_pid_response("MainPID 1234".to_string()).is_err());
    assert!(parse_pid_response("MainPID=".to_string()).is_err());
    assert!(parse_pid_response("MainPID=12x4".to_string()).is_err());
    assert!(parse_pid_response("".to_string()).is_err());
    assert!(parse_pid_response("   ".to_string()).is_err());
    // One past u32's range.
    assert!(parse_pid_response("MainPID=4294967296".to_string()).is_err());
}

#[test]
fn none_connection_does_nothing_successfully() {
    let connection = NoneConnection::new();
    assert_eq!(connection.restart(), Ok(()));
    assert_eq!(connection.get_pid(), Ok(0));
}

#[test]
fn linux_connection_keeps_its_paths() {
    let config = LinuxConnectionConfig::default();
    assert_eq!(config.service_path, "/etc/systemd/system/stalwart.service");
    assert_eq!(config.systemctl_path, "/bin/systemctl");
    let connection = LinuxConnection::new(config);
    assert_eq!(connection.service_path, "/etc/systemd/system/stalwart.service");
    assert_eq!(connection.systemctl_path, "/bin/systemctl");
}
