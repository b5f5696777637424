use masto_thread::errors::ThreadError;
use masto_thread::urls::PostUrl;
use masto_thread::urls::parse_post_url;

fn parsed(s: &str) -> PostUrl {
    parse_post_url(s).expect("URL should parse")
}

#[test]
fn post_id_of_statuses_url() {
    let u = parsed("https://example.com/api/v1/statuses/123");
    assert_eq!(u.post_id().unwrap(), "123");
}

#[test]
fn toot_id_from_url() {
    let result = masto_thread::mastodon::get_toot_id_from_url(
        &parsed("https://example.com/api/v1/statuses/123"),
    );
    assert!(result.is_ok());
    assert_eq!(result.unwrap(), String::from("123"));
}

#[test]
fn post_id_ignores_trailing_slashes() {
    let u = PostUrl {
        scheme: "https".to_string(),
        host: "h".to_string(),
        path: "/@a/123/".to_string(),
    };
    assert_eq!(u.post_id().unwrap(), "123");
}

#[test]
fn post_id_fails_on_root_path() {
    let u = parsed("https://example.com/");
    let r = u.post_id();
    assert!(matches!(r, Err(ThreadError::InvalidUrl(_))));
}

#[test]
fn host_only_substitution() {
    let u = parsed("https://host.example/some/deep/path?q=1#frag");
    let v = u.host_only().with_path("/p");
    assert_eq!(v.url_string(), "https://host.example/p");
}

#[test]
fn host_only_keeps_port() {
    let u = parsed("http://127.0.0.1:8080/notes/77");
    assert_eq!(u.host_only().with_path("/x").url_string(), "http://127.0.0.1:8080/x");
    assert_eq!(u.post_id().unwrap(), "77");
}

#[test]
fn with_path_appended_extends_path() {
    let u = parsed("https://h.example/@a/123");
    assert_eq!(u.with_path_appended("/embed").url_string(), "https://h.example/@a/123/embed");
}

#[test]
fn parse_rejects_non_urls() {
    assert!(matches!(parse_post_url("not a url"), Err(ThreadError::InvalidUrl(_))));
    assert!(matches!(parse_post_url("/relative/only"), Err(ThreadError::InvalidUrl(_))));
    assert!(matches!(parse_post_url("data:text/plain,hello"), Err(ThreadError::InvalidUrl(_))));
}

#[test]
fn parse_rejects_urls_without_a_host() {
    assert!(matches!(parse_post_url("file:///foo"), Err(ThreadError::InvalidUrl(_))));
    assert!(matches!(parse_post_url("file://localhost/foo"), Err(ThreadError::InvalidUrl(_))));
}

#[test]
fn parse_keeps_scheme_host_path() {
    let u = parsed("https://mast.example/@alice/111");
    assert_eq!(u.scheme, "https");
    assert_eq!(u.host, "mast.example");
    assert_eq!(u.path, "/@alice/111");
    assert_eq!(u.url_string(), "https://mast.example/@alice/111");
}
