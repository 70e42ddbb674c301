use devpod_desktop::protocol::UrlParser;

#[test]
fn should_parse() {
    let url_str = "devpod://open?workspace=workspace";
    let request = UrlParser::parse(&url_str).unwrap();

    assert_eq!(request.host, "open".to_string());
    assert_eq!(request.query, "workspace=workspace".to_string());
}

#[test]
fn should_parse_with_empty_query() {
    let url_str = "devpod://import";
    let request = UrlParser::parse(&url_str).unwrap();

    assert_eq!(request.host, "import".to_string());
    assert_eq!(request.query, "".to_string());
}

#[test]
#[should_panic]
fn should_fail_on_invalid_method() {
    let url_str = "devpod://something";
    let _ = UrlParser::parse(&url_str).unwrap();
}

#[test]
#[should_panic]
fn should_fail_on_invalid_scheme() {
    let url_str = "invalid-scheme";
    let _ = UrlParser::parse(&url_str).unwrap();
}
