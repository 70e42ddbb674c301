use devpod_desktop::protocol::{
    parse_import_workspace_msg, parse_open_workspace_msg, parse_setup_pro_msg, UrlParser,
};

fn option_value(options: &Vec<(String, String)>, key: &str) -> Option<String> {
    let mut found = None;
    for (k, v) in options.iter() {
        if k == key {
            found = Some(v.clone());
        }
    }
    found
}

#[test]
fn should_parse_full() {
    let url_str =
        "devpod://open?workspace=workspace&provider=provider&source=https://github.com/test123&ide=vscode";
    let request = UrlParser::parse(&url_str).unwrap();
    let got = parse_open_workspace_msg(&request.query).unwrap();

    assert_eq!(got.workspace_id, Some("workspace".to_string()));
    assert_eq!(got.provider_id, Some("provider".into()));
    assert_eq!(got.source, Some("https://github.com/test123".to_string()));
    assert_eq!(got.ide, Some("vscode".into()));
}

#[test]
fn should_parse_workspace() {
    let url_str = "devpod://open?workspace=some-workspace";
    let request = UrlParser::parse(&url_str).unwrap();
    let got = parse_open_workspace_msg(&request.query).unwrap();

    assert_eq!(got.workspace_id, Some("some-workspace".to_string()));
    assert_eq!(got.provider_id, None);
    assert_eq!(got.source, None);
    assert_eq!(got.ide, None)
}

#[test]
fn custom_protocol_should_parse() {
    let url_str = "devpod://open?source=some-source";
    let request = UrlParser::parse(&url_str).unwrap();
    let got = parse_open_workspace_msg(&request.query).unwrap();

    assert_eq!(got.workspace_id, None);
    assert_eq!(got.provider_id, None);
    assert_eq!(got.source, Some("some-source".to_string()));
    assert_eq!(got.ide, None)
}

#[test]
fn custom_protocol_should_parse_full() {
    let url_str =
        "devpod://import?workspace-id=workspace&workspace-uid=uid&devpod-pro-host=devpod.pro&other=other&project=foo";
    let request = UrlParser::parse(&url_str).unwrap();

    let got = parse_import_workspace_msg(&request.query).unwrap();

    assert_eq!(got.workspace_id, "workspace".to_string());
    assert_eq!(got.workspace_uid, "uid".to_string());
    assert_eq!(got.project, "foo".to_string());
    assert_eq!(got.devpod_pro_host, "devpod.pro".to_string());
    assert_eq!(option_value(&got.options, "other"), Some("other".to_string()));
}

#[test]
#[should_panic]
fn should_fail_on_missing_workspace_id() {
    let url_str = "devpod://import?workspace-uid=uid&devpod-pro-host=devpod.pro&other=other";
    let request = UrlParser::parse(&url_str).unwrap();

    let got = parse_import_workspace_msg(&request.query);
    got.unwrap();
}

#[test]
fn should_parse_full_pro_setup() {
    let url_str = "devpod://pro/setup?host=foo&access_key=bar";
    let request = UrlParser::parse(&url_str).unwrap();

    let got = parse_setup_pro_msg(&request.query).unwrap();

    assert_eq!(got.host, "foo".to_string());
    assert_eq!(got.access_key, Option::Some("bar".to_string()));
}

#[test]
fn should_parse_host() {
    let url_str = "devpod://pro/setup?host=localhost%3A8080";
    let request = UrlParser::parse(&url_str).unwrap();

    let got = parse_setup_pro_msg(&request.query).unwrap();

    assert_eq!(got.host, "localhost:8080".to_string());
}

#[test]
#[should_panic]
fn custom_protocol_should_fail_on_missing_workspace_id() {
    let url_str = "devpod://import?workspace-uid=uid&devpod-pro-host=devpod.pro&other=other";
    let request = UrlParser::parse(&url_str).unwrap();

    let got = parse_import_workspace_msg(&request.query);
    got.unwrap();
}
