use devpod_desktop::commands::{
    DeleteProInstanceCommand, DeleteProviderCommand, ListProInstancesCommand,
    ListProvidersCommand, ListWorkspacesCommand, StartDaemonCommand, UseProviderCommand,
    DEVPOD_BINARY_NAME, DEVPOD_UI_ENV_VAR,
};

#[test]
fn start_daemon_args() {
    let cmd = StartDaemonCommand::new("host1".to_string(), false);
    let config = cmd.config();
    assert_eq!(config.binary_name(), "devpod-cli");
    assert_eq!(
        config.args(),
        &vec![
            "pro".to_string(),
            "daemon".to_string(),
            "start".to_string(),
            "--host=host1".to_string(),
            "".to_string(),
        ]
    );
}

#[test]
fn start_daemon_debug_flag() {
    let cmd = StartDaemonCommand::new("host1".to_string(), true);
    assert_eq!(cmd.debug_flag, "--debug=true".to_string());
    assert_eq!(cmd.host_flag, "--host=host1".to_string());
}

#[test]
fn list_commands_args() {
    assert_eq!(
        ListWorkspacesCommand::new().config().args(),
        &vec!["list".to_string(), "--output=json".to_string()]
    );
    assert_eq!(
        ListProInstancesCommand::new().config().args(),
        &vec!["pro".to_string(), "list".to_string(), "--output=json".to_string()]
    );
    assert_eq!(
        ListProvidersCommand::new().config().args(),
        &vec!["provider".to_string(), "list".to_string(), "--output=json".to_string()]
    );
}

#[test]
fn delete_and_use_commands_args() {
    assert_eq!(
        DeleteProInstanceCommand::new("one".to_string()).config().args(),
        &vec![
            "pro".to_string(),
            "delete".to_string(),
            "one".to_string(),
            "--ignore-not-found".to_string(),
        ]
    );
    assert_eq!(
        DeleteProviderCommand::new("acme".to_string()).config().args(),
        &vec!["provider".to_string(), "delete".to_string(), "acme".to_string()]
    );
    assert_eq!(
        UseProviderCommand::new("acme".to_string()).config().args(),
        &vec!["provider".to_string(), "use".to_string(), "acme".to_string()]
    );
    assert_eq!(DEVPOD_BINARY_NAME, "devpod-cli");
    assert_eq!(DEVPOD_UI_ENV_VAR, "DEVPOD_UI");
}
