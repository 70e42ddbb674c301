use devpod_desktop::env::{env_assignment, parse_env_line};
use devpod_desktop::install_cli::{nth_column, find_fs_type, is_volatile_fs};
use devpod_desktop::install_cli::{force_install_script, install_targets, system_bin_target};
use devpod_desktop::messages::{OpenWorkspaceMsg, ShowToastMsg, ToastStatus, UiMessage};
use devpod_desktop::protocol::{parse_setup_pro_json, pct_decode, CustomProtocol, UrlParser};
use devpod_desktop::system_tray::{menu_event, MenuEvent, QUIT_EXIT_CODE};

#[test]
fn env_line_splits_at_first_equals() {
    assert_eq!(
        parse_env_line("PATH=/usr/bin:/bin"),
        Some(("PATH".to_string(), "/usr/bin:/bin".to_string()))
    );
    assert_eq!(parse_env_line("A=b=c"), Some(("A".to_string(), "b=c".to_string())));
    assert_eq!(parse_env_line("no assignment"), None);
}

// The escape sequences around the assignment are stripped before the
// split; handing the text back unchanged would leave them in the key.
#[test]
fn env_assignment_strips_escapes() {
    let raw = "\u{1b}[32mPATH=/usr/bin\u{1b}[m";
    let got = env_assignment(raw);
    assert_eq!(got, Some(("PATH".to_string(), "/usr/bin".to_string())));
}

#[test]
fn install_target_order() {
    assert_eq!(system_bin_target(), "/usr/local/bin/devpod".to_string());
    let targets = install_targets(Some("/home/me"));
    assert_eq!(
        targets,
        vec![
            "/usr/local/bin/devpod".to_string(),
            "/home/me/.local/bin/devpod".to_string(),
            "/home/me/bin/devpod".to_string(),
        ]
    );
    assert_eq!(install_targets(None).len(), 1);
}

#[test]
fn force_script_escalates() {
    let script = force_install_script("/app/devpod-cli", "/usr/local/bin/devpod");
    assert_eq!(
        script,
        "osascript -e \"do shell script \\\"mkdir -p /usr/local/bin && ln -sf '/app/devpod-cli' '/usr/local/bin/devpod'\\\" with administrator privileges\"".to_string()
    );
}

#[test]
fn menu_events_dispatch() {
    assert!(matches!(menu_event("quit"), MenuEvent::Quit));
    assert!(matches!(menu_event("show_dashboard"), MenuEvent::ShowDashboard));
    assert_eq!(QUIT_EXIT_CODE, 1337);

    match menu_event("workspaces-create_workspace") {
        MenuEvent::Send(UiMessage::OpenWorkspace(m)) => assert_eq!(m.workspace_id, None),
        _ => panic!("expected an open-workspace message"),
    }
    match menu_event("workspaces-dev") {
        MenuEvent::Send(UiMessage::OpenWorkspace(m)) => {
            assert_eq!(m.workspace_id, Some("dev".to_string()))
        },
        _ => panic!("expected an open-workspace message"),
    }
    match menu_event("pro-instances-host1") {
        MenuEvent::Send(UiMessage::OpenProInstance(m)) => {
            assert_eq!(m.host, Some("host1".to_string()))
        },
        _ => panic!("expected an open-pro-instance message"),
    }
    assert!(matches!(menu_event("elsewhere"), MenuEvent::Unhandled));
}

#[test]
fn message_constructors() {
    let empty = OpenWorkspaceMsg::empty();
    assert!(empty.workspace_id.is_none() && empty.source.is_none());
    let with_id = OpenWorkspaceMsg::with_id("dev".to_string());
    assert_eq!(with_id.workspace_id, Some("dev".to_string()));

    let toast = ShowToastMsg::new("t".to_string(), "m".to_string(), ToastStatus::Warning);
    assert_eq!(toast.title, "t".to_string());
    assert!(matches!(toast.status, ToastStatus::Warning));
}

#[test]
fn percent_decoding() {
    assert_eq!(pct_decode("a%20b+c"), Some("a b c".to_string()));
    assert_eq!(pct_decode("plain"), Some("plain".to_string()));
    assert_eq!(pct_decode("bad%zz"), None);
    assert_eq!(pct_decode("cut%2"), None);
}

// A pro-setup payload arriving as a WebSocket text frame.
#[test]
fn ws_setup_payload_parses() {
    let msg = parse_setup_pro_json("{\"host\":\"foo\",\"accessKey\":\"bar\"}").unwrap();
    assert_eq!(msg.host, "foo".to_string());
    assert_eq!(msg.access_key, Some("bar".to_string()));
    assert!(msg.options.is_none());

    assert!(parse_setup_pro_json("{\"accessKey\":\"bar\"}").is_none());
    assert!(parse_setup_pro_json("not json").is_none());
    assert!(parse_setup_pro_json("{\"host\":\"foo\",\"n\":1}").is_none());
}

#[test]
fn mount_table_lookup() {
    let mounts = vec![
        "proc /proc proc rw 0 0".to_string(),
        "tmpfs /tmp tmpfs rw 0 0".to_string(),
        "/dev/sda1 / ext4 rw 0 0".to_string(),
    ];
    assert_eq!(find_fs_type("/tmp", &mounts), Some("tmpfs".to_string()));
    assert_eq!(find_fs_type("/tmp/app/devpod-cli", &mounts), Some("tmpfs".to_string()));
    assert_eq!(find_fs_type("/opt/devpod", &mounts), Some("ext4".to_string()));
    assert_eq!(find_fs_type("relative", &mounts), None);

    // a short line makes the whole lookup fail
    let broken = vec!["only-one-column".to_string()];
    assert_eq!(find_fs_type("/tmp", &broken), None);

    assert_eq!(nth_column("a  b\tc", 1), Some("b".to_string()));
    assert_eq!(nth_column("a b", 2), None);

    assert!(is_volatile_fs("tmpfs"));
    assert!(is_volatile_fs("fuseblk"));
    assert!(!is_volatile_fs("ext4"));
}

#[test]
fn deep_link_dispatch() {
    let request = UrlParser::parse("devpod://open?workspace=dev").unwrap();
    match CustomProtocol::dispatch(request) {
        Some(UiMessage::OpenWorkspace(m)) => {
            assert_eq!(m.workspace_id, Some("dev".to_string()))
        }
        _ => panic!("expected an open-workspace message"),
    }

    let request = UrlParser::parse("devpod://import?bad").unwrap();
    match CustomProtocol::dispatch(request) {
        Some(UiMessage::CommandFailed(_)) => {}
        _ => panic!("expected a failure message"),
    }

    let request = UrlParser::parse("devpod://pro/setup?host=h").unwrap();
    match CustomProtocol::dispatch(request) {
        Some(UiMessage::SetupPro(m)) => assert_eq!(m.host, "h".to_string()),
        _ => panic!("expected a pro-setup message"),
    }
}
