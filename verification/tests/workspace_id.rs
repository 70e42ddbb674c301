use devpod_desktop::workspace_id::new_workspace_id;

#[test]
fn should_get_id() {
    let want = "foobar".to_string();
    let got = new_workspace_id("foobar".into()).unwrap();
    assert_eq!(want, got);

    let want = "vscode-course-sample";
    let got = new_workspace_id("https://github.com/microsoft/vscode-course-sample".into()).unwrap();
    assert_eq!(want, got);

    let want = "vscode-course-sample";
    let got =
        new_workspace_id("https://github.com/microsoft/vscode-course-sample.git".into()).unwrap();
    assert_eq!(want, got);

    let want = "test-folder".to_string();
    let got = new_workspace_id("../../test-folder".into()).unwrap();
    assert_eq!(want, got);

    let want = "why-would-you-do-this".to_string();
    let got = new_workspace_id("why-!would-you-d?o-this#".into()).unwrap();
    assert_eq!(want, got);
}

#[test]
fn workspace_id_lowercases() {
    let got = new_workspace_id("MyProject".into()).unwrap();
    assert_eq!(got, "myproject".to_string());
}

#[test]
fn workspace_id_no_file_name() {
    let got = new_workspace_id("..".into());
    assert!(got.is_err());

    let got = new_workspace_id("a/b/..".into());
    assert!(got.is_err());
}

#[test]
fn workspace_id_trailing_slash() {
    let got = new_workspace_id("https://github.com/acme/demo/".into()).unwrap();
    assert_eq!(got, "demo".to_string());
}
