use devpod_desktop::client::{host_header_value, rewrite_target, Client, ClientError};
use devpod_desktop::json::{parse_daemon_status, status_document};
use devpod_desktop::{DaemonState, DaemonStatus};

// The documented status response parses to exactly the reported status.
#[test]
fn parses_running_status_document() {
    let body = "{\"state\":\"running\",\"online\":true,\"loginRequired\":false}";
    let st = parse_daemon_status(body).unwrap();
    assert_eq!(
        st,
        DaemonStatus { state: DaemonState::Running, online: true, login_required: false }
    );
}

#[test]
fn status_fields_default_when_absent() {
    let st = parse_daemon_status("{}").unwrap();
    assert_eq!(st, DaemonStatus::default());

    let st = parse_daemon_status("{\"online\": true}").unwrap();
    assert_eq!(st.state, DaemonState::Pending);
    assert!(st.online);
    assert!(!st.login_required);
}

#[test]
fn status_accepts_any_field_order_and_whitespace() {
    let body = " { \"loginRequired\" : true , \"state\" : \"stopped\" } ";
    let st = parse_daemon_status(body).unwrap();
    assert_eq!(st.state, DaemonState::Stopped);
    assert!(st.login_required);
    assert!(!st.online);
}

#[test]
fn status_rejects_malformed_documents() {
    assert!(parse_daemon_status("").is_none());
    assert!(parse_daemon_status("null").is_none());
    assert!(parse_daemon_status("{\"state\":\"dancing\"}").is_none());
    assert!(parse_daemon_status("{\"state\":true}").is_none());
    assert!(parse_daemon_status("{\"online\":\"yes\"}").is_none());
    assert!(parse_daemon_status("{\"online\":true,\"online\":true}").is_none());
    assert!(parse_daemon_status("{\"state\":\"running\"").is_none());
    assert!(parse_daemon_status("{} trailing").is_none());
}

#[test]
fn status_ignores_unknown_scalar_fields() {
    let st = parse_daemon_status("{\"version\":\"1.2\",\"state\":\"running\"}").unwrap();
    assert_eq!(st.state, DaemonState::Running);
}

#[test]
fn client_remembers_its_socket() {
    let c = Client::new("/tmp/devpod.sock".to_string());
    assert_eq!(c.socket_path(), &"/tmp/devpod.sock".to_string());
    assert_eq!(c.status_target(), "http://localclient.devpod/status".to_string());
}

// The proxy rewrite touches only the authority: path and query come
// through unchanged.
#[test]
fn rewrite_keeps_path_and_query() {
    let target = rewrite_target("/workspaces?x=1");
    assert_eq!(target, "http://localclient.devpod/workspaces?x=1".to_string());
    assert_eq!(host_header_value(), "sh.loft.devpod.desktop".to_string());
}

#[test]
fn non_200_is_an_http_error() {
    let c = Client::new("/tmp/devpod.sock".to_string());
    let r = c.interpret_status_response(500, "{}");
    assert!(matches!(r, Err(ClientError::Http(500))));

    let ok = c
        .interpret_status_response(200, "{\"state\":\"running\",\"online\":true,\"loginRequired\":false}")
        .unwrap();
    assert_eq!(ok.state, DaemonState::Running);

    let bad = c.interpret_status_response(200, "not json");
    assert!(matches!(bad, Err(ClientError::Protocol)));
}

// Writing any status as a document and reading it back gives the status.
#[test]
fn status_document_round_trips() {
    let states = [DaemonState::Stopped, DaemonState::Pending, DaemonState::Running];
    for state in states {
        for online in [false, true] {
            for login_required in [false, true] {
                let st = DaemonStatus { state, online, login_required };
                let doc = status_document(&st);
                assert_eq!(parse_daemon_status(&doc), Some(st));
            }
        }
    }
    assert_eq!(
        status_document(&DaemonStatus {
            state: DaemonState::Running,
            online: true,
            login_required: false
        }),
        "{\"state\":\"running\",\"online\":true,\"loginRequired\":false}".to_string()
    );
}
