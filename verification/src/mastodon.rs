//! The data returned by a Mastodon-compatible server, the two API URLs the
//! client needs, and the pure projections of a post: to an embed descriptor
//! and to a Markdown fragment.

use vstd::prelude::*;

verus! {

use vstd::string::StringExecFns;
use crate::errors::ThreadError;
use crate::urls::PostUrl;
use crate::urls::post_id_of;

/// The two URLs a renderer needs to embed a post: the iframe source and the
/// script that resizes it.
#[derive(Clone, Debug)]
pub struct TootTemplate {
    pub embed_url: String,
    pub embed_js: String,
}

/// The author of a post; the profile URL is its identity.
#[derive(Clone, Debug, PartialEq)]
pub struct MastoAccount {
    pub id: String,
    pub url: String,
}

/// A single post, as the `statuses` endpoint returns it.
#[derive(Clone, Debug, PartialEq)]
pub struct Toot {
    pub account: MastoAccount,
    pub url: String,
    pub in_reply_to_account_id: Option<String>,
    pub content: String,
    pub media_attachments: Vec<MediaAttachement>,
}

/// One attachment of a post; only those whose type is `image` are rendered.
#[derive(Clone, Debug, PartialEq)]
pub struct MediaAttachement {
    pub media_type: String,
    pub url: String,
    pub description: Option<String>,
}

/// What the `context` endpoint returns: the posts above and below a post,
/// each list oldest first.
#[derive(Debug, PartialEq)]
pub struct TootContext {
    pub ancestors: Vec<Toot>,
    pub descendants: Vec<Toot>,
}

/// The path of the API endpoint for a single post.
pub open spec fn details_api_path(id: Seq<char>) -> Seq<char> {
    "/api/v1/statuses/"@ + id
}

/// The path of the API endpoint for the context of a post.
pub open spec fn context_api_path(id: Seq<char>) -> Seq<char> {
    details_api_path(id) + "/context"@
}

/// An API URL: the scheme and host of `u` with the path `p`.
pub open spec fn api_url(u: PostUrl, p: Seq<char>) -> Seq<char> {
    u.scheme@ + "://"@ + u.host@ + p
}

/// The id of the post a URL points at: the last non-empty segment of the
/// URL's path.
pub fn get_toot_id_from_url(toot_url: &PostUrl) -> (r: Result<String, ThreadError>)
    ensures
        post_id_of(toot_url.path@).len() > 0 ==> (r matches Ok(id) && id@ == post_id_of(
            toot_url.path@,
        )),
        post_id_of(toot_url.path@).len() == 0 ==> (r matches Err(e) && e is InvalidUrl),
{
    toot_url.post_id()
}

/// The URL that returns the details of the post `toot_url` points at: the
/// post id substituted into the statuses path on the origin host.
pub fn toot_details_url(toot_url: &PostUrl) -> (r: Result<String, ThreadError>)
    ensures
        post_id_of(toot_url.path@).len() > 0 ==> (r matches Ok(s) && s@ == api_url(
            *toot_url,
            details_api_path(post_id_of(toot_url.path@)),
        )),
        post_id_of(toot_url.path@).len() == 0 ==> (r matches Err(e) && e is InvalidUrl),
    {
    let id = toot_url.post_id()?;
    let mut path = String::from_str("/api/v1/statuses/");
    path.append(id.as_str());
    let api = toot_url.host_only().with_path(path.as_str());
    Ok(api.url_string())
}

/// The URL that returns the context (ancestors and descendants) of the post
/// `toot_url` points at.
pub fn toot_context_url(toot_url: &PostUrl) -> (r: Result<String, ThreadError>)
    ensures
        post_id_of(toot_url.path@).len() > 0 ==> (r matches Ok(s) && s@ == api_url(
            *toot_url,
            context_api_path(post_id_of(toot_url.path@)),
        )),
        post_id_of(toot_url.path@).len() == 0 ==> (r matches Err(e) && e is InvalidUrl),
    {
    let id = toot_url.post_id()?;
    let mut path = String::from_str("/api/v1/statuses/");
    path.append(id.as_str());
    path.append("/context");
    let api = toot_url.host_only().with_path(path.as_str());
    Ok(api.url_string())
}

/// The embeddable view of a post: its own URL with `/embed` appended.
pub open spec fn embed_url_of(scheme: Seq<char>, host: Seq<char>, path: Seq<char>) -> Seq<char> {
    scheme + "://"@ + host + path + "/embed"@
}

/// The embed script of a host: its `/embed.js`, whatever the post path.
pub open spec fn embed_js_of(scheme: Seq<char>, host: Seq<char>) -> Seq<char> {
    scheme + "://"@ + host + "/embed.js"@
}

/// The embed descriptor of a post: the post URL with `/embed` appended, and
/// the host's `/embed.js` script.
pub fn get_toot_embed_code(toot_url: &PostUrl) -> (r: TootTemplate)
    ensures
        r.embed_url@ == embed_url_of(toot_url.scheme@, toot_url.host@, toot_url.path@),
        r.embed_js@ == embed_js_of(toot_url.scheme@, toot_url.host@),
{
    let embed_url = toot_url.with_path_appended("/embed");
    let embed_js = toot_url.host_only().with_path("/embed.js");
    let r = TootTemplate { embed_url: embed_url.url_string(), embed_js: embed_js.url_string() };
    proof {
        assert(r.embed_url@ =~= embed_url_of(toot_url.scheme@, toot_url.host@, toot_url.path@));
        assert(r.embed_js@ =~= embed_js_of(toot_url.scheme@, toot_url.host@));
    }
    r
}

/// Whether an attachment is an image.
pub open spec fn is_image(m: MediaAttachement) -> bool {
    m.media_type@ == "image"@
}

/// The predicate [`is_image`] as a value, so that every filter by it is by
/// one and the same function.
pub open spec fn image_pred() -> spec_fn(MediaAttachement) -> bool {
    |m: MediaAttachement| is_image(m)
}

/// The alt text of an attachment: its description, or `No alt text`.
pub open spec fn alt_text(m: MediaAttachement) -> Seq<char> {
    match m.description {
        Some(d) => d@,
        None => "No alt text"@,
    }
}

/// The Markdown image line of one attachment.
pub open spec fn media_line(m: MediaAttachement) -> Seq<char> {
    "!["@ + alt_text(m) + "]("@ + m.url@ + ")"@
}

/// `lines`, each one a Markdown image line, joined by single newlines.
pub open spec fn joined_lines(ms: Seq<MediaAttachement>) -> Seq<char>
    decreases ms.len(),
{
    if ms.len() == 0 {
        Seq::empty()
    } else if ms.len() == 1 {
        media_line(ms[0])
    } else {
        joined_lines(ms.drop_last()) + "\n"@ + media_line(ms.last())
    }
}

/// The Markdown block for the attachments of a post: one image line per
/// attachment whose type is `image`, in order, joined by newlines.
pub open spec fn media_markdown(ms: Seq<MediaAttachement>) -> Seq<char> {
    joined_lines(ms.filter(image_pred()))
}

proof fn lemma_image_filter_step(s: Seq<MediaAttachement>, k: int)
    requires
        0 <= k < s.len(),
    ensures
        s.take(k + 1).filter(image_pred()) == if is_image(s[k]) {
            s.take(k).filter(image_pred()).push(s[k])
        } else {
            s.take(k).filter(image_pred())
        },
{
    reveal(Seq::filter);
    assert(s.take(k + 1).drop_last() =~= s.take(k));
    assert(s.take(k + 1).last() == s[k]);
}

impl Toot {
    /// Render the image attachments of the post as Markdown: exactly one
    /// `![alt](url)` line per attachment of type `image`, in their order,
    /// with `No alt text` where the description is missing; other
    /// attachments are omitted.
    pub fn media_attachments_to_markdown(&self) -> (r: String)
        ensures
            r@ == media_markdown(self.media_attachments@),
    {
        let v = &self.media_attachments;
        let image_lit = String::from_str("image");
        let mut out = String::new();
        let mut any = false;
        let mut i: usize = 0;
        proof {
            assert(v@.take(0) =~= Seq::<MediaAttachement>::empty());
            reveal(Seq::filter);
        }
        while i < v.len()
            invariant
                i <= v.len(),
                image_lit@ == "image"@,
                any == (v@.take(i as int).filter(image_pred()).len() > 0),
                out@ == joined_lines(v@.take(i as int).filter(image_pred())),
            decreases v.len() - i,
        {
            proof {
                lemma_image_filter_step(v@, i as int);
            }
            let ghost prev = v@.take(i as int).filter(image_pred());
            let m = &v[i];
            if m.media_type == image_lit {
                if any {
                    out.append("\n");
                }
                out.append("![");
                match &m.description {
                    Some(d) => out.append(d.as_str()),
                    None => out.append("No alt text"),
                }
                out.append("](");
                out.append(m.url.as_str());
                out.append(")");
                proof {
                    let cur = v@.take(i as int + 1).filter(image_pred());
                    assert(cur == prev.push(v@[i as int]));
                    if prev.len() == 0 {
                        assert(out@ =~= media_line(v@[i as int]));
                        assert(out@ == joined_lines(cur));
                    } else {
                        assert(cur.drop_last() =~= prev);
                        assert(cur.last() == v@[i as int]);
                        assert(out@ =~= joined_lines(prev) + "\n"@ + media_line(v@[i as int]));
                        assert(out@ == joined_lines(cur));
                    }
                }
                any = true;
            }
            i = i + 1;
        }
        proof {
            assert(v@.take(v@.len() as int) =~= v@);
        }
        out
    }

    /// Render the whole post as Markdown: the HTML body converted to
    /// Markdown, a newline, and the image attachment lines.
    pub fn content_to_markdown(&self) -> (r: String)
        ensures
            r@ == markdown_of(self.content@) + "\n"@ + media_markdown(self.media_attachments@),
    {
        let content = html_to_markdown(self.content.as_str());
        let media = self.media_attachments_to_markdown();
        compose_markdown(content, media.as_str())
    }
}

/// The body of a post joined with its attachment block: the Markdown text,
/// one newline, the attachment lines.
pub fn compose_markdown(content: String, media: &str) -> (r: String)
    ensures
        r@ == content@ + "\n"@ + media@,
{
    let mut out = content;
    out.append("\n");
    out.append(media);
    out
}

/// What `html2md::parse_html` makes of an HTML fragment; the rendering
/// depends on the fragment alone.
pub uninterp spec fn markdown_of(html: Seq<char>) -> Seq<char>;

/// Relies on `html2md::parse_html` to convert server-rendered HTML to
/// Markdown; the conversion walks the document in order and is a function of
/// the HTML text alone.
#[verifier::external_body]
fn html_to_markdown(html: &str) -> (r: String)
    ensures
        r@ == markdown_of(html@),
{
    html2md::parse_html(html)
}

} // verus!
