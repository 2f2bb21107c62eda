use remote_client::config::{read_or_create_config, read_or_create_uuid, ClientConfig};
use remote_client::shell::ShellKind;

fn config(shell: Option<&str>) -> ClientConfig {
    ClientConfig { server_url: "http://h:1".to_string(), shell: shell.map(|s| s.to_string()) }
}

#[test]
fn default_config_values() {
    let c = ClientConfig::default();
    assert_eq!(c.server_url, "http://127.0.0.1:5000");
    assert_eq!(c.shell.as_deref(), Some("powershell"));
}

#[test]
fn empty_directory_gets_default_config() {
    let first = read_or_create_config(None);
    assert!(first.write_default);
    assert_eq!(first.config.server_url, "http://127.0.0.1:5000");
    assert_eq!(first.config.shell.as_deref(), Some("powershell"));
    let again = read_or_create_config(Some(first.config.clone()));
    assert!(!again.write_default);
    assert_eq!(again.config.server_url, first.config.server_url);
    assert_eq!(again.config.shell, first.config.shell);
}

#[test]
fn shell_kind_selection() {
    assert_eq!(config(Some("cmd")).shell_kind(), ShellKind::Cmd);
    assert_eq!(config(Some("powershell")).shell_kind(), ShellKind::PowerShell);
    assert_eq!(config(Some("bash")).shell_kind(), ShellKind::PowerShell);
    assert_eq!(config(Some("CMD")).shell_kind(), ShellKind::PowerShell);
    assert_eq!(config(None).shell_kind(), ShellKind::PowerShell);
}

#[test]
fn server_url_override() {
    let c = config(None);
    assert_eq!(c.effective_server_url(Some("http://other:2".to_string())), "http://other:2");
    assert_eq!(c.effective_server_url(None), "http://h:1");
}

#[test]
fn identifier_created_then_stable() {
    let first = read_or_create_uuid(None);
    assert!(first.write);
    assert_eq!(first.token.len(), 36);
    let second = read_or_create_uuid(Some(&first.token));
    assert!(!second.write);
    assert_eq!(second.token, first.token);
    let third = read_or_create_uuid(Some(&first.token));
    assert_eq!(third.token, first.token);
}

#[test]
fn stored_identifier_is_trimmed() {
    let r = read_or_create_uuid(Some("  my-id\r\n"));
    assert!(!r.write);
    assert_eq!(r.token, "my-id");
}
