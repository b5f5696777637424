use masto_thread::errors::ThreadError;
use masto_thread::mastodon::MastoAccount;
use masto_thread::mastodon::MediaAttachement;
use masto_thread::mastodon::Toot;
use masto_thread::mastodon::get_toot_embed_code;
use masto_thread::mastodon::toot_context_url;
use masto_thread::mastodon::toot_details_url;
use masto_thread::urls::parse_post_url;

fn toot_with_media(media: Vec<MediaAttachement>) -> Toot {
    Toot {
        account: MastoAccount { id: "A".to_string(), url: "https://h/@a".to_string() },
        url: "https://h/@a/1".to_string(),
        in_reply_to_account_id: None,
        content: "<p>hi</p>".to_string(),
        media_attachments: media,
    }
}

fn image(desc: Option<&str>, url: &str) -> MediaAttachement {
    MediaAttachement {
        media_type: "image".to_string(),
        url: url.to_string(),
        description: desc.map(|d| d.to_string()),
    }
}

#[test]
fn embed_descriptor_shape() {
    let u = parse_post_url("https://h/@a/123").unwrap();
    let t = get_toot_embed_code(&u);
    assert_eq!(t.embed_url, "https://h/@a/123/embed");
    assert_eq!(t.embed_js, "https://h/embed.js");
}

#[test]
fn details_and_context_urls() {
    let u = parse_post_url("https://mast.example/@alice/111").unwrap();
    assert_eq!(toot_details_url(&u).unwrap(), "https://mast.example/api/v1/statuses/111");
    assert_eq!(toot_context_url(&u).unwrap(), "https://mast.example/api/v1/statuses/111/context");
}

#[test]
fn api_urls_need_a_post_id() {
    let u = parse_post_url("https://mast.example").unwrap();
    assert!(matches!(toot_details_url(&u), Err(ThreadError::InvalidUrl(_))));
    assert!(matches!(toot_context_url(&u), Err(ThreadError::InvalidUrl(_))));
}

#[test]
fn media_markdown_one_line_per_image_in_order() {
    let t = toot_with_media(vec![
        image(Some("first"), "https://img/1.png"),
        MediaAttachement {
            media_type: "video".to_string(),
            url: "https://img/clip.mp4".to_string(),
            description: Some("skipped".to_string()),
        },
        image(Some("second"), "https://img/2.png"),
    ]);
    assert_eq!(
        t.media_attachments_to_markdown(),
        "![first](https://img/1.png)\n![second](https://img/2.png)"
    );
}

#[test]
fn media_markdown_missing_description() {
    let t = toot_with_media(vec![image(None, "https://img/x.png")]);
    assert_eq!(t.media_attachments_to_markdown(), "![No alt text](https://img/x.png)");
}

#[test]
fn media_markdown_empty_without_images() {
    let t = toot_with_media(vec![]);
    assert_eq!(t.media_attachments_to_markdown(), "");
}

#[test]
fn markdown_rendering_converts_html() {
    let mut t = toot_with_media(vec![image(Some("cat"), "https://img/x.png")]);
    t.content = "<p>hello <strong>world</strong></p>".to_string();
    let md = t.content_to_markdown();
    assert!(md.contains("hello **world**"), "markdown was: {md}");
    assert!(md.contains("![cat](https://img/x.png)"), "markdown was: {md}");
}

#[test]
fn markdown_rendering_is_not_the_identity() {
    let mut t = toot_with_media(vec![]);
    t.content = "<p>one</p><p>two</p>".to_string();
    let md = t.content_to_markdown();
    assert!(!md.contains("<p>"), "markdown was: {md}");
    assert!(md.contains("one"), "markdown was: {md}");
    assert!(md.contains("two"), "markdown was: {md}");
}

#[test]
fn compose_markdown_joins_with_one_newline() {
    let md = masto_thread::mastodon::compose_markdown("body".to_string(), "![a](b)");
    assert_eq!(md, "body\n![a](b)");
}
