use masto_thread::errors::RenderError;
use masto_thread::errors::ThreadError;
use masto_thread::mastodon::MastoAccount;
use masto_thread::mastodon::Toot;
use masto_thread::templates::error_page;
use masto_thread::templates::index;
use masto_thread::templates::markdown_page;
use masto_thread::templates::thread_children_embeds;
use masto_thread::templates::thread_page;
use masto_thread::templates::thread_root;

fn toot(url: &str) -> Toot {
    Toot {
        account: MastoAccount { id: "A".to_string(), url: "https://h/@a".to_string() },
        url: url.to_string(),
        in_reply_to_account_id: Some("A".to_string()),
        content: "<p>x</p>".to_string(),
        media_attachments: vec![],
    }
}

#[test]
fn healthz() {
    let response = masto_thread::healthz();
    assert_eq!(response, "OK");
}

#[test]
fn index_page_value() {
    let page = index();
    assert_eq!(page.title, "Index");
    assert!(page.url.is_none());
}

#[test]
fn thread_root_embeds_the_input_url() {
    let t = thread_root("https://h/@a/123").unwrap();
    assert_eq!(t.embed_url, "https://h/@a/123/embed");
    assert_eq!(t.embed_js, "https://h/embed.js");
}

#[test]
fn thread_root_rejects_bad_urls() {
    assert!(matches!(thread_root("not a url"), Err(ThreadError::InvalidUrl(_))));
}

#[test]
fn children_embeds_skip_unparseable_urls() {
    let children = vec![toot("https://h/@a/2"), toot("::nope::"), toot("https://h/@a/3")];
    let embeds = thread_children_embeds(&children);
    let urls: Vec<&str> = embeds.iter().map(|e| e.embed_url.as_str()).collect();
    assert_eq!(urls, vec!["https://h/@a/2/embed", "https://h/@a/3/embed"]);
}

#[test]
fn thread_page_value() {
    let root = thread_root("https://h/@a/1").unwrap();
    let children = vec![toot("https://h/@a/2")];
    let page = thread_page(&"https://h/@a/1".to_string(), root, &children);
    assert_eq!(page.title, "Thread");
    assert_eq!(page.url.as_deref(), Some("https://h/@a/1"));
    assert_eq!(page.root_toot.embed_url, "https://h/@a/1/embed");
    assert_eq!(page.thread_children.len(), 1);
    assert_eq!(page.thread_children[0].embed_url, "https://h/@a/2/embed");
}

#[test]
fn markdown_page_value() {
    let root = toot("https://h/@a/1");
    let children = vec![toot("https://h/@a/2")];
    let page = markdown_page(&"https://h/@a/1".to_string(), root.clone(), children.clone());
    assert_eq!(page.title, "Markdown");
    assert_eq!(page.url.as_deref(), Some("https://h/@a/1"));
    assert_eq!(page.root_toot, root);
    assert_eq!(page.thread_children, children);
}

#[test]
fn error_kinds_map_to_http_statuses() {
    let bad = RenderError::of_thread_error(ThreadError::InvalidUrl("nope".to_string()));
    assert!(matches!(&bad, RenderError::BadRequest(_)));
    assert_eq!(bad.get_http_status(), 400);

    let upstream = RenderError::of_thread_error(ThreadError::Upstream("503".to_string()));
    assert!(matches!(&upstream, RenderError::Internal(m) if m == "503"));
    assert_eq!(upstream.get_http_status(), 500);

    let limit = RenderError::of_thread_error(ThreadError::WalkLimit);
    assert!(matches!(&limit, RenderError::Internal(_)));
    assert_eq!(limit.get_http_status(), 500);

    assert_eq!(RenderError::NotFound("gone".to_string()).get_http_status(), 404);
}

#[test]
fn error_messages_and_description() {
    let e = RenderError::Internal("boom".to_string());
    assert_eq!(e.get_error_message(), "boom");
    assert_eq!(e.describe(), "500 Internal Server Error: boom");

    let n = RenderError::NotFound("gone".to_string());
    assert_eq!(n.get_error_message(), "gone");
    assert_eq!(n.describe(), "404 Not Found: gone");

    let b = RenderError::BadRequest("that is no URL".to_string());
    assert_eq!(b.get_error_message(), "that is no URL");
    assert_eq!(b.describe(), "400 Bad Request: that is no URL");
}

#[test]
fn error_page_value() {
    let page = error_page(&RenderError::Internal("boom".to_string()));
    assert_eq!(page.title, "Uh-oh");
    assert!(page.url.is_none());
    assert_eq!(page.error, "500 Internal Server Error: boom");
}

#[test]
fn invalid_url_request_maps_to_a_400_uh_oh_page() {
    let err = thread_root("not a url").unwrap_err();
    let message = match &err {
        ThreadError::InvalidUrl(m) => m.clone(),
        other => panic!("expected an invalid-URL error, got {other:?}"),
    };
    let rendered = RenderError::of_thread_error(err);
    assert_eq!(rendered.get_http_status(), 400);
    let page = error_page(&rendered);
    assert_eq!(page.title, "Uh-oh");
    assert_eq!(page.error, format!("400 Bad Request: {message}"));
}
